use web_demo::apps::auth::oauth2::{
    build_oauth2_clients, check_user_info_provider, generate_auth_url, get_oauth2_client, get_provider_config,
    new_account_for, new_link_for, require_linked_account, returning_user_writes,
};
use web_demo::helper::github::OAuthUserInfo;
use web_demo::project::configs::{Oauth2, Oauth2Provider};
use web_demo::project::error::AppError;

fn provider(auth: &str) -> Oauth2Provider {
    Oauth2Provider {
        client_id: "id".to_string(),
        client_secret: "secret".to_string(),
        auth_url: auth.to_string(),
        token_url: "https://github.com/login/oauth/access_token".to_string(),
        redirect_url: "http://localhost:8000/api/v1/auth/github/callback".to_string(),
        scopes: vec!["read:user".to_string(), "user:email".to_string()],
    }
}

fn config() -> Oauth2 {
    Oauth2 {
        providers: vec![
            ("github".to_string(), provider("https://github.com/login/oauth/authorize")),
            ("broken".to_string(), provider("not a url")),
        ],
    }
}

fn api(r: AppError) -> (u16, String) {
    match r {
        AppError::Api(c, m) => (c, m),
        _ => panic!("expected an answer with a status"),
    }
}

#[test]
fn clients_skip_bad_addresses() {
    let clients = build_oauth2_clients(&config());
    assert_eq!(clients.names, vec!["github".to_string()]);
}

#[test]
fn provider_lookup() {
    let cfg = config();
    assert_eq!(get_provider_config(&cfg, "github").ok().unwrap().client_id, "id");
    assert_eq!(
        api(get_provider_config(&cfg, "gitlab").err().unwrap()),
        (400, "不支持的 OAuth2 提供商: gitlab".to_string())
    );
    let clients = build_oauth2_clients(&cfg);
    assert!(get_oauth2_client(&clients, &cfg, "github").is_ok());
    assert_eq!(
        api(get_oauth2_client(&clients, &cfg, "broken").err().unwrap()),
        (500, "OAuth2 客户端初始化失败".to_string())
    );
    assert_eq!(api(get_oauth2_client(&clients, &cfg, "x").err().unwrap()).0, 400);
}

#[test]
fn authorization_address() {
    let cfg = config();
    let p = get_provider_config(&cfg, "github").ok().unwrap();
    let (url, csrf) = generate_auth_url(p, &cfg, "github").ok().unwrap();
    assert!(url.starts_with("https://github.com/login/oauth/authorize?"));
    assert!(url.contains("client_id=id"));
    assert!(url.contains(&format!("state={}", csrf)));
    assert!(url.contains("scope=read%3Auser+user%3Aemail"));
    assert!(!csrf.is_empty());
    assert_eq!(api(generate_auth_url(p, &cfg, "nope").err().unwrap()).0, 400);
}

#[test]
fn only_github_users_are_read() {
    assert!(check_user_info_provider("github").is_ok());
    assert_eq!(
        api(check_user_info_provider("google").err().unwrap()),
        (400, "不支持的 OAuth2 提供商: google".to_string())
    );
}

fn info() -> OAuthUserInfo {
    OAuthUserInfo {
        provider: "github".to_string(),
        provider_user_id: "12".to_string(),
        email: Some("a@b.c".to_string()),
        nickname: "octo".to_string(),
        avatar_url: None,
    }
}

#[test]
fn new_outside_user_has_no_password() {
    let a = new_account_for(&info(), 50);
    assert!(a.password.is_empty());
    assert_eq!(a.nickname, "octo");
    assert_eq!(a.last_login_dt, Some(50));
    assert_eq!(a.account_type, 1);
    assert_eq!(a.uid.len(), 36);
    let l = new_link_for(3, "github", &info());
    assert_eq!(l.account_id, 3);
    assert_eq!(l.provider, "github");
    assert_eq!(l.provider_user_id, "12");
    assert_eq!(l.nickname, Some("octo".to_string()));
}

#[test]
fn returning_outside_user_writes() {
    let (acc, link) = returning_user_writes(&info(), 77);
    assert_eq!(acc.last_login_dt, Some(77));
    assert_eq!(acc.email, Some("a@b.c".to_string()));
    assert!(acc.nickname.is_none());
    assert_eq!(link.nickname, Some("octo".to_string()));
    assert_eq!(api(require_linked_account::<i32>(None).err().unwrap()), (500, "关联的本地账户不存在".to_string()));
}
