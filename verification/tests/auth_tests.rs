use web_demo::apps::auth::jwt::issue_token_at;
use web_demo::apps::auth::jwt::answer_token_pair;
use web_demo::apps::auth::view::check_phone_free;
use web_demo::apps::auth::jwt::{
    accept_kind, claims_from, create_access_token, create_refresh_token, generate_token_pair,
    verify_access_token, verify_refresh_token, Claims, TokenError,
};
use web_demo::apps::auth::schemas::{LoginInput, RegisterInput};
use web_demo::apps::auth::view::{
    blacklist_key, blacklist_ttl, check_callback_params, check_csrf, check_first_use, check_login,
    check_refresh_token, csrf_key, exchange_failed, login_write, plan_register, require_token_user,
    OauthCallbackParams,
};
use web_demo::entity::account::Model;
use web_demo::entity::soft_delete::Timestamps;
use web_demo::helper::crypto::hash_password;
use web_demo::project::configs::Jwt;
use web_demo::project::error::AppError;
use web_demo::project::extractor::ValidatedJson;
use web_demo::project::middlewares::auth::{authenticate, is_public_path, require_auth, AuthContext, AuthDecision};

fn jwt_config() -> Jwt {
    Jwt {
        secret: "access-secret".to_string(),
        expires_in_hours: 2,
        refresh_secret: "refresh-secret".to_string(),
        refresh_expires_in_days: 7,
    }
}

fn api(r: AppError) -> (u16, String) {
    match r {
        AppError::Api(c, m) => (c, m),
        _ => panic!("expected an answer with a status"),
    }
}

#[test]
fn access_token_reads_back_its_user() {
    let cfg = jwt_config();
    let t = create_access_token(&cfg, 42).ok().unwrap();
    let c = verify_access_token(&cfg, &t).ok().unwrap();
    assert_eq!(c.sub, 42);
    assert_eq!(c.typ, "access");
    assert_eq!(c.exp - c.iat, 2 * 3600);
    assert_eq!(c.jti.len(), 36);
}

#[test]
fn refresh_token_reads_back_its_user() {
    let cfg = jwt_config();
    let t = create_refresh_token(&cfg, 7).ok().unwrap();
    let c = verify_refresh_token(&cfg, &t).ok().unwrap();
    assert_eq!(c.sub, 7);
    assert_eq!(c.typ, "refresh");
    assert_eq!(c.exp - c.iat, 7 * 86400);
}

#[test]
fn access_token_is_not_a_refresh_token() {
    let same = Jwt {
        secret: "one-secret".to_string(),
        expires_in_hours: 1,
        refresh_secret: "one-secret".to_string(),
        refresh_expires_in_days: 1,
    };
    let t = create_access_token(&same, 1).ok().unwrap();
    assert!(matches!(verify_refresh_token(&same, &t), Err(TokenError::InvalidToken)));
}

#[test]
fn token_signed_with_another_secret_is_refused() {
    let cfg = jwt_config();
    let t = create_access_token(&cfg, 1).ok().unwrap();
    assert!(matches!(verify_refresh_token(&cfg, &t), Err(TokenError::Jwt(_))));
    assert!(matches!(verify_access_token(&cfg, "not.a.token"), Err(TokenError::Jwt(_))));
}

#[test]
fn token_pair_lifetimes() {
    let cfg = jwt_config();
    let out = generate_token_pair(&cfg, 5).ok().unwrap();
    assert_eq!(out.expires_in, 7200);
    assert_eq!(out.refresh_expires_in, 604800);
    assert_eq!(verify_access_token(&cfg, &out.token).ok().unwrap().sub, 5);
    assert_eq!(verify_refresh_token(&cfg, &out.refresh_token).ok().unwrap().sub, 5);
}

#[test]
fn claims_need_every_field() {
    let c = claims_from(Some("j".to_string()), Some(3), Some(10), Some(20), Some("access".to_string())).unwrap();
    assert_eq!(c.sub, 3);
    assert!(claims_from(None, Some(3), Some(10), Some(20), Some("access".to_string())).is_none());
    assert!(claims_from(Some("j".to_string()), Some(i64::from(i32::MAX) + 1), Some(10), Some(20), Some("access".to_string())).is_none());
}

#[test]
fn accept_kind_checks_the_kind() {
    let c = Claims { jti: "j".to_string(), sub: 1, iat: 0, exp: 1, typ: "refresh".to_string() };
    assert!(matches!(accept_kind(c, "access"), Err(TokenError::InvalidToken)));
    let c2 = Claims { jti: "j".to_string(), sub: 1, iat: 0, exp: 1, typ: "access".to_string() };
    assert_eq!(accept_kind(c2, "access").ok().unwrap().sub, 1);
}

#[test]
fn public_paths_need_no_token() {
    assert!(is_public_path("/api/v1/auth/login"));
    assert!(is_public_path("/api/v1/auth/login/"));
    assert!(is_public_path("/api/v1/auth/sms-code"));
    assert!(is_public_path("/docs"));
    assert!(is_public_path("/favicon.ico"));
    assert!(is_public_path("/api/v1/auth/github"));
    assert!(is_public_path("/api/v1/auth/github/callback"));
    assert!(!is_public_path("/api/v1/user"));
    assert!(!is_public_path("/api/v1/auth/github/other"));
    assert!(!is_public_path("/docs/page"));
    assert!(!is_public_path("/"));
}

#[test]
fn authenticate_public_path() {
    let cfg = jwt_config();
    assert!(matches!(authenticate(&cfg, "/api/v1/auth/login", None), Ok(AuthDecision::Public)));
}

#[test]
fn authenticate_needs_credentials() {
    let cfg = jwt_config();
    assert_eq!(api(authenticate(&cfg, "/api/v1/user", None).err().unwrap()), (401, "缺少认证信息".to_string()));
    assert_eq!(
        api(authenticate(&cfg, "/api/v1/user", Some("Basic abc")).err().unwrap()),
        (401, "认证格式错误".to_string())
    );
    assert_eq!(
        api(authenticate(&cfg, "/api/v1/user", Some("Bearer nonsense")).err().unwrap()),
        (401, "Token 无效或已过期".to_string())
    );
}

#[test]
fn authenticate_with_access_token() {
    let cfg = jwt_config();
    let t = create_access_token(&cfg, 99).ok().unwrap();
    let header = format!("Bearer {}", t);
    match authenticate(&cfg, "/api/v1/user", Some(&header)) {
        Ok(AuthDecision::Authenticated(ctx)) => assert_eq!(ctx.user_id, 99),
        _ => panic!("expected the token's user"),
    }
    let r = create_refresh_token(&cfg, 99).ok().unwrap();
    let header2 = format!("Bearer {}", r);
    assert!(authenticate(&cfg, "/api/v1/user", Some(&header2)).is_err());
}

#[test]
fn require_auth_needs_an_identity() {
    let ctx = AuthContext { user_id: 3 };
    assert_eq!(require_auth(Some(&ctx)).ok().unwrap().user_id, 3);
    assert_eq!(api(require_auth(None).err().unwrap()), (401, "缺少认证信息".to_string()));
}

fn account(password: String) -> Model {
    Model {
        id: 11,
        uid: "u".to_string(),
        account_type: 1,
        nickname: "n".to_string(),
        password,
        name: None,
        gender: 0,
        telephone: Some("13800138000".to_string()),
        email: None,
        address: None,
        last_login_dt: None,
        times: Timestamps { create_ts: 0, update_ts: 0, delete_ts: None },
    }
}

#[test]
fn login_checks_the_password() {
    let hash = hash_password("secret1").ok().unwrap();
    let u = account(hash);
    let good = LoginInput { phone: "13800138000".to_string(), password: "secret1".to_string() };
    assert_eq!(check_login(&good, Some(&u)).ok().unwrap(), 11);
    let bad = LoginInput { phone: "13800138000".to_string(), password: "secret2".to_string() };
    assert_eq!(api(check_login(&bad, Some(&u)).err().unwrap()), (401, "手机号或密码错误".to_string()));
    assert_eq!(api(check_login(&good, None).err().unwrap()), (401, "手机号或密码错误".to_string()));
    let outside = account(String::new());
    assert_eq!(api(check_login(&good, Some(&outside)).err().unwrap()), (401, "手机号或密码错误".to_string()));
}

#[test]
fn login_records_the_time() {
    let w = login_write(1000);
    assert_eq!(w.last_login_dt, Some(1000));
    assert!(w.nickname.is_none() && w.password.is_none());
}

fn register_input() -> RegisterInput {
    RegisterInput {
        phone: "13800138000".to_string(),
        code: "123456".to_string(),
        password: "secret1".to_string(),
        nickname: "nick".to_string(),
        name: Some("Name".to_string()),
    }
}

#[test]
fn register_refuses_a_taken_phone() {
    assert_eq!(api(plan_register(register_input(), true).err().unwrap()), (400, "手机号已注册".to_string()));
}

#[test]
fn register_makes_an_ordinary_user() {
    let a = plan_register(register_input(), false).ok().unwrap();
    assert_eq!(a.uid.len(), 36);
    assert_eq!(a.account_type, 1);
    assert_eq!(a.nickname, "nick");
    assert_eq!(a.telephone, Some("13800138000".to_string()));
    assert_ne!(a.password, "secret1");
    assert_eq!(a.password.len(), 60);
}

#[test]
fn refresh_token_checks() {
    let cfg = jwt_config();
    let t = create_refresh_token(&cfg, 8).ok().unwrap();
    assert_eq!(check_refresh_token(&cfg, &t).ok().unwrap().sub, 8);
    assert_eq!(
        api(check_refresh_token(&cfg, "x").err().unwrap()),
        (401, "Refresh Token 无效或已过期".to_string())
    );
    assert_eq!(blacklist_key("abc"), "token:blacklist:abc");
    assert!(check_first_use(true).is_ok());
    assert_eq!(api(check_first_use(false).err().unwrap()), (401, "Refresh Token 已失效".to_string()));
    assert_eq!(api(require_token_user::<i32>(None).err().unwrap()), (401, "用户不存在".to_string()));
    assert_eq!(require_token_user(Some(4)).ok().unwrap(), 4);
}

#[test]
fn blacklist_ttl_outlives_the_token() {
    assert_eq!(blacklist_ttl(100, 40), Some(121));
    assert_eq!(blacklist_ttl(100, 100), Some(61));
    assert_eq!(blacklist_ttl(100, 101), Some(60));
    assert_eq!(blacklist_ttl(100, 160), Some(1));
    assert_eq!(blacklist_ttl(100, 161), None);
    assert_eq!(blacklist_ttl(i64::MAX, i64::MIN), Some(i64::MAX));
}

#[test]
fn callback_params_are_checked() {
    let p = OauthCallbackParams { code: Some("c".to_string()), state: Some("s".to_string()), error: None, error_description: None };
    let (code, key) = check_callback_params(p).ok().unwrap();
    assert_eq!(code, "c");
    assert_eq!(key, "oauth2:csrf:s");
    let denied = OauthCallbackParams { code: Some("c".to_string()), state: None, error: Some("access_denied".to_string()), error_description: None };
    assert_eq!(api(check_callback_params(denied).err().unwrap()), (400, "OAuth2 授权被拒绝".to_string()));
    let no_code = OauthCallbackParams { code: None, state: Some("s".to_string()), error: None, error_description: None };
    assert_eq!(api(check_callback_params(no_code).err().unwrap()), (400, "缺少授权码".to_string()));
    let no_state = OauthCallbackParams { code: Some("c".to_string()), state: None, error: None, error_description: None };
    assert_eq!(api(check_callback_params(no_state).err().unwrap()), (400, "无效的请求参数".to_string()));
}

#[test]
fn csrf_token_must_match_the_provider() {
    assert_eq!(csrf_key("tok"), "oauth2:csrf:tok");
    assert!(check_csrf(Some("github"), "github").is_ok());
    assert_eq!(api(check_csrf(Some("github"), "google").err().unwrap()), (400, "CSRF token 不匹配".to_string()));
    assert_eq!(api(check_csrf(None, "github").err().unwrap()), (400, "CSRF token 无效或已过期".to_string()));
    assert_eq!(api(exchange_failed()), (400, "OAuth2 授权失败".to_string()));
}

#[test]
fn login_input_rules() {
    let ok = LoginInput { phone: "13800138000".to_string(), password: "secret1".to_string() };
    assert!(ValidatedJson::accept(Some(ok)).is_ok());
    let bad = LoginInput { phone: "12345".to_string(), password: "short".to_string() };
    match ValidatedJson::accept(Some(bad)) {
        Err(AppError::Validation(errs)) => {
            assert_eq!(errs.errors.len(), 2);
            assert_eq!(errs.errors[0].field, "phone");
            assert_eq!(errs.errors[0].message, Some("手机号格式不正确".to_string()));
            assert_eq!(errs.errors[1].field, "password");
        }
        _ => panic!("expected failed rules"),
    }
    assert_eq!(
        api(ValidatedJson::<LoginInput>::accept(None).err().unwrap()),
        (400, "请求参数格式错误".to_string())
    );
}

#[test]
fn token_issued_at_a_given_time() {
    let cfg = jwt_config();
    assert!(matches!(
        issue_token_at(1, 10, "access", "access-secret", i64::MAX - 5, "id".to_string()),
        Err(TokenError::ExpiryOutOfRange)
    ));
    let now = chrono::Utc::now().timestamp();
    let t = issue_token_at(9, 3600, "access", "access-secret", now, "my-id".to_string()).ok().unwrap();
    let c = verify_access_token(&cfg, &t).ok().unwrap();
    assert_eq!((c.sub, c.iat, c.exp, c.jti.as_str(), c.typ.as_str()), (9, now, now + 3600, "my-id", "access"));
}

#[test]
fn token_pair_answer_needs_both_tokens() {
    let cfg = jwt_config();
    let out = answer_token_pair(&cfg, Ok("a".to_string()), Some(Ok("b".to_string()))).ok().unwrap();
    assert_eq!((out.token.as_str(), out.refresh_token.as_str(), out.expires_in, out.refresh_expires_in), ("a", "b", 7200, 604800));
    assert_eq!(
        api(answer_token_pair(&cfg, Err(TokenError::ExpiryOutOfRange), None).err().unwrap()),
        (500, "服务器内部错误".to_string())
    );
    assert!(answer_token_pair(&cfg, Ok("a".to_string()), Some(Err(TokenError::InvalidToken))).is_err());
}

#[test]
fn refresh_check_uses_the_refresh_secret() {
    let cfg = jwt_config();
    let access = create_access_token(&cfg, 8).ok().unwrap();
    assert!(check_refresh_token(&cfg, &access).is_err());
}

#[test]
fn taken_phone_is_refused_first() {
    assert!(check_phone_free(false).is_ok());
    assert_eq!(api(check_phone_free(true).err().unwrap()), (400, "手机号已注册".to_string()));
}

#[test]
fn new_account_ids_are_uuid_v4() {
    let a = plan_register(register_input(), false).ok().unwrap();
    let u: Vec<char> = a.uid.chars().collect();
    assert_eq!(u.len(), 36);
    for (i, c) in u.iter().enumerate() {
        if i == 8 || i == 13 || i == 18 || i == 23 {
            assert_eq!(*c, '-');
        } else {
            assert!(c.is_ascii_hexdigit() && !c.is_ascii_uppercase());
        }
    }
    assert_eq!(u[14], '4');
    assert!(matches!(u[19], '8' | '9' | 'a' | 'b'));
    let b = plan_register(register_input(), false).ok().unwrap();
    assert_ne!(a.uid, b.uid);
}
