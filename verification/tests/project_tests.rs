use web_demo::api_doc::{wrap_response_contents, Envelope};
use web_demo::configs::{parse_bool, parse_u16, Configs as EnvConfigs, Db, EnvValues, FormEnv, Log as EnvLog, Server};
use web_demo::entity::soft_delete::Timestamps;
use web_demo::error::AppError as OldError;
use web_demo::project::configs::{App, Database, Redis};
use web_demo::project::error::{AppError, ApiResult, DbError, FieldError, ValidationErrors};
use web_demo::project::middlewares::response::{body_data, envelope, skips_envelope, BodyData};
use web_demo::project::response::JsonResponse;
use web_demo::project::transaction::{after_begin, after_commit, should_commit};
use web_demo::response::{EmptyStruct, JsonResponse as OldResponse};

#[test]
fn prod_environment() {
    let app = App { host: "0.0.0.0".to_string(), port: 8000, env: "prod".to_string() };
    assert!(app.is_prod());
    let dev = App { host: "0.0.0.0".to_string(), port: 8000, env: "dev".to_string() };
    assert!(!dev.is_prod());
}

#[test]
fn database_url() {
    let d = Database {
        debug: false,
        host: "localhost".to_string(),
        port: 5432,
        username: "user".to_string(),
        password: "pw".to_string(),
        dbname: "demo".to_string(),
    };
    assert_eq!(d.url(), "postgres://user:pw@localhost:5432/demo");
}

#[test]
fn redis_url_encodes_the_password() {
    let r = Redis { host: "127.0.0.1".to_string(), port: 6379, password: Some("p@ss word".to_string()), db: Some(2) };
    assert_eq!(r.url(), "redis://:p%40ss%20word@127.0.0.1:6379/2");
    let plain = Redis { host: "h".to_string(), port: 1, password: None, db: None };
    assert_eq!(plain.url(), "redis://h:1");
}

#[test]
fn parse_numbers_and_booleans() {
    assert_eq!(parse_u16("8080"), Some(8080));
    assert_eq!(parse_u16("+7"), Some(7));
    assert_eq!(parse_u16("65535"), Some(65535));
    assert_eq!(parse_u16("65536"), None);
    assert_eq!(parse_u16(""), None);
    assert_eq!(parse_u16("-1"), None);
    assert_eq!(parse_u16("12a"), None);
    assert_eq!(parse_bool("true"), Some(true));
    assert_eq!(parse_bool("false"), Some(false));
    assert_eq!(parse_bool("yes"), None);
}

fn env(pairs: &[(&str, &str)]) -> EnvValues {
    EnvValues { vars: pairs.iter().map(|(k, v)| (k.to_string(), v.to_string())).collect() }
}

#[test]
fn environment_lookup() {
    let e = env(&[("A", "1"), ("A", "2"), ("B", "x")]);
    assert_eq!(e.get("A"), Some(&"1".to_string()));
    assert_eq!(e.get("C"), None);
    assert_eq!(e.get_or("C", "dflt"), "dflt");
}

#[test]
fn server_from_environment() {
    let s = Server::form_env(&env(&[("PORT", "9000")]));
    assert_eq!(s.host, "127.0.0.1");
    assert_eq!(s.port, 9000);
    assert_eq!(s.env, "local");
    let l = EnvLog::form_env(&env(&[("PATH", "/tmp"), ("FILENAME", "app.log")]));
    assert_eq!(l.level, "INFO");
    assert_eq!(l.path, "/tmp");
    assert_eq!(l.filename, "app.log");
}

#[test]
fn mysql_url_from_environment() {
    let vars = env(&[
        ("PATH", "/tmp"),
        ("FILENAME", "a.log"),
        ("DATABASE_HOST", "db"),
        ("DATABASE_PORT", "3306"),
        ("DATABASE_USERNAME", "root"),
        ("DATABASE_PASSWORD", "pw"),
        ("DATABASE_DBNAME", "demo"),
    ]);
    let db = Db::form_env(&vars);
    assert!(!db.debug);
    assert_eq!(db.url(), "mysql://root:pw@db:3306/demo");
    let all = EnvConfigs::form_env(&vars);
    assert_eq!(all.db.url(), "mysql://root:pw@db:3306/demo");
    assert_eq!(all.server.port, 8000);
}

#[test]
fn soft_deleted_records_stay_hidden() {
    let t = Timestamps { create_ts: 1, update_ts: 1, delete_ts: None };
    assert!(t.is_visible());
    let d = t.mark_deleted(5);
    assert!(!d.is_visible());
    assert_eq!(d.delete_ts, Some(5));
    let saved = d.before_save(false, 9);
    assert!(!saved.is_visible());
    assert_eq!((saved.create_ts, saved.update_ts), (1, 9));
    let inserted = t.before_save(true, 7);
    assert_eq!((inserted.create_ts, inserted.update_ts), (7, 7));
}

#[test]
fn success_envelope_and_status_text() {
    let r = JsonResponse::success(5);
    assert_eq!(r.code(), 200);
    assert_eq!(r.message(), "200 OK");
    let (c, m, d) = r.into_parts();
    assert_eq!((c, m, d), (200, "200 OK".to_string(), Some(5)));
}

#[test]
fn envelope_keeps_status_and_skips_redirects() {
    assert!(envelope(302, 1).is_none());
    let e = envelope(404, "x").unwrap();
    assert_eq!(e.code(), 404);
    assert_eq!(e.message(), "404 Not Found");
    assert_eq!(envelope(200, 1).unwrap().message(), "200 OK");
    assert!(skips_envelope("/docs"));
    assert!(skips_envelope("/docs/index.html"));
    assert!(skips_envelope("/openapi.json"));
    assert!(!skips_envelope("/api/v1/user"));
}

#[test]
fn api_doc_envelopes_every_body() {
    let empty: Vec<(String, Option<u8>)> = Vec::new();
    let w = wrap_response_contents(empty);
    assert_eq!(w.len(), 1);
    assert_eq!(w[0].0, "application/json");
    assert!(matches!(w[0].1, Envelope::AroundNull));
    let w2 = wrap_response_contents(vec![("application/json".to_string(), Some(7u8)), ("text/plain".to_string(), None)]);
    assert_eq!(w2.len(), 2);
    assert_eq!(w2[0].0, "application/json");
    assert!(matches!(w2[0].1, Envelope::Around(7)));
    assert_eq!(w2[1].0, "text/plain");
    assert!(matches!(w2[1].1, Envelope::AroundNull));
}

#[test]
fn transaction_commits_only_success() {
    assert!(after_begin(true).is_ok());
    match after_begin(false) {
        Err(AppError::Api(500, m)) => assert_eq!(m, "服务器内部错误"),
        _ => panic!("expected a server error"),
    }
    let ok: ApiResult<i32> = Ok(3);
    assert!(should_commit(&ok));
    assert_eq!(after_commit(ok, true).ok(), Some(3));
    let ok2: ApiResult<i32> = Ok(3);
    assert!(matches!(after_commit(ok2, false), Err(AppError::Api(500, _))));
    let failed: ApiResult<i32> = Err(AppError::api(400, "bad"));
    assert!(!should_commit(&failed));
    match after_commit(failed, false) {
        Err(AppError::Api(400, m)) => assert_eq!(m, "bad"),
        _ => panic!("expected the handler's own failure"),
    }
}

#[test]
fn old_errors_are_answered() {
    let (s, m) = OldError::Other("x".to_string()).into_response_parts();
    assert_eq!((s, m.as_str()), (400, "x"));
    let (s2, m2) = OldError::DBError(DbError { message: "down".to_string() }).into_response_parts();
    assert_eq!((s2, m2.as_str()), (500, "down"));
    let (s3, _) = OldError::AxumError("e".to_string()).into_response_parts();
    assert_eq!(s3, 500);
    let mut errs = ValidationErrors::new();
    errs.add(FieldError::new("name", "length", "too short"));
    let (s4, m4) = OldError::from(errs).into_response_parts();
    assert_eq!((s4, m4.as_str()), (500, "name: too short"));
    assert_eq!(OldError::Other("x".to_string()).to_display_string(), "自定义错误: x");
    assert_eq!(OldError::AxumError("y".to_string()).to_display_string(), "Axum框架错误: y");
}

#[test]
fn old_envelopes() {
    let r = OldResponse::success(3);
    assert_eq!((r.code, r.message.as_str(), r.data), (0, "OK", Some(3)));
    let e = OldResponse::<i32>::error(400, "bad".to_string());
    assert_eq!((e.code, e.message.as_str()), (400, "bad"));
    assert!(e.data.is_some());
    let _ = EmptyStruct::default();
}

#[test]
fn body_data_reads_json_or_text() {
    match body_data(br#"{"a":1}"#) {
        BodyData::Json(v) => assert_eq!(v, serde_json::from_str::<serde_json::Value>(r#"{"a":1}"#).unwrap()),
        BodyData::Text(_) => panic!("expected JSON"),
    }
    match body_data(b"plain text") {
        BodyData::Text(t) => assert_eq!(t, "plain text"),
        BodyData::Json(_) => panic!("expected text"),
    }
    match body_data(b"bad \xff byte") {
        BodyData::Text(t) => assert_eq!(t, "bad \u{fffd} byte"),
        BodyData::Json(_) => panic!("expected text"),
    }
}
