use web_demo::helper::github::failed_status;
use web_demo::helper::tools::{format_date_time, format_option_date_time};
use web_demo::helper::crypto::{hash_password, verify_password};
use web_demo::helper::github::{
    api_url, bearer_header, needs_primary_email, primary_email, status_error, user_info_from, GitHubEmail,
    GitHubUserInfo,
};
use web_demo::helper::sms::{check_code, code_key, generate_code, limit_key, rate_limit_check};
use web_demo::project::error::AppError;

#[test]
fn hash_and_verify_ok() {
    let hash = hash_password("my_password").ok().unwrap();
    assert!(verify_password("my_password", &hash).ok().unwrap());
}

#[test]
fn wrong_password_fails() {
    let hash = hash_password("correct_password").ok().unwrap();
    assert!(!verify_password("wrong_password", &hash).ok().unwrap());
}

#[test]
fn different_hashes_for_same_password() {
    let a = hash_password("same").ok().unwrap();
    let b = hash_password("same").ok().unwrap();
    assert_ne!(a, b, "bcrypt should produce different salts each time");
}

#[test]
fn verify_invalid_hash_returns_error() {
    let result = verify_password("pwd", "not_a_valid_hash");
    assert!(result.is_err());
}

#[test]
fn hash_is_sixty_characters() {
    let hash = hash_password("abcdef").ok().unwrap();
    assert_eq!(hash.chars().count(), 60);
}

#[test]
fn verify_failure_is_a_server_error() {
    match verify_password("pwd", "not_a_valid_hash") {
        Err(AppError::Api(500, msg)) => assert_eq!(msg, "服务器内部错误"),
        _ => panic!("expected a server error"),
    }
}

#[test]
fn generate_code_length() {
    let code = generate_code();
    assert_eq!(code.len(), 6, "验证码应为6位数字");
}

#[test]
fn generate_code_is_digits() {
    let code = generate_code();
    assert!(code.chars().all(|c| c.is_ascii_digit()), "验证码应全部为数字: {}", code);
}

#[test]
fn generate_code_is_random() {
    let codes: std::collections::HashSet<String> = (0..100).map(|_| generate_code()).collect();
    assert!(codes.len() > 90, "100次生成应有足够不同的验证码，实际 {} 种", codes.len());
}

#[test]
fn generate_code_in_range() {
    for _ in 0..1000 {
        let code: u32 = generate_code().parse().unwrap();
        assert!((100000..=999999).contains(&code), "验证码应在100000~999999之间: {}", code);
    }
}

#[test]
fn sms_keys_are_prefixed() {
    assert_eq!(code_key("13800138000"), "sms:code:13800138000");
    assert_eq!(limit_key("13800138000"), "sms:limit:13800138000");
}

#[test]
fn rate_limit_refuses_when_mark_exists() {
    assert!(rate_limit_check(true).is_ok());
    match rate_limit_check(false) {
        Err(AppError::Api(429, msg)) => assert_eq!(msg, "发送过于频繁，请稍后再试"),
        _ => panic!("expected 429"),
    }
}

#[test]
fn kept_code_is_accepted() {
    assert!(check_code(Some("123456"), "123456").is_ok());
}

#[test]
fn wrong_code_is_refused() {
    match check_code(Some("123456"), "654321") {
        Err(AppError::Api(400, msg)) => assert_eq!(msg, "验证码错误"),
        _ => panic!("expected a wrong-code answer"),
    }
}

#[test]
fn missing_code_is_refused() {
    match check_code(None, "123456") {
        Err(AppError::Api(400, msg)) => assert_eq!(msg, "验证码已过期或不存在"),
        _ => panic!("expected a missing-code answer"),
    }
}

#[test]
fn github_addresses_and_header() {
    assert_eq!(api_url("/user"), "https://api.github.com/user");
    assert_eq!(bearer_header("abc"), "Bearer abc");
}

#[test]
fn github_status_errors() {
    match status_error(401) {
        AppError::Api(401, msg) => assert_eq!(msg, "OAuth2 授权已失效"),
        _ => panic!("expected 401"),
    }
    match status_error(503) {
        AppError::Api(502, msg) => assert_eq!(msg, "OAuth2 提供商服务异常"),
        _ => panic!("expected 502"),
    }
}

#[test]
fn github_primary_email_is_first_primary() {
    let emails = vec![
        GitHubEmail { email: "a@x.com".to_string(), primary: false },
        GitHubEmail { email: "b@x.com".to_string(), primary: true },
        GitHubEmail { email: "c@x.com".to_string(), primary: true },
    ];
    assert_eq!(primary_email(&emails), Some("b@x.com".to_string()));
    assert_eq!(primary_email(&vec![]), None);
}

#[test]
fn github_user_info_prefers_given_fields() {
    let info = GitHubUserInfo {
        id: 12345,
        login: "octo".to_string(),
        email: None,
        avatar_url: Some("https://a/b.png".to_string()),
        name: None,
    };
    assert!(needs_primary_email(&info));
    let u = user_info_from(info, Some("p@x.com".to_string()));
    assert_eq!(u.provider, "github");
    assert_eq!(u.provider_user_id, "12345");
    assert_eq!(u.email, Some("p@x.com".to_string()));
    assert_eq!(u.nickname, "octo");
    assert_eq!(u.avatar_url, Some("https://a/b.png".to_string()));

    let info2 = GitHubUserInfo {
        id: 7,
        login: "octo".to_string(),
        email: Some("own@x.com".to_string()),
        avatar_url: None,
        name: Some("Octo Cat".to_string()),
    };
    assert!(!needs_primary_email(&info2));
    let u2 = user_info_from(info2, Some("p@x.com".to_string()));
    assert_eq!(u2.email, Some("own@x.com".to_string()));
    assert_eq!(u2.nickname, "Octo Cat");
}

#[test]
fn any_password_checks_against_a_produced_hash() {
    let hash = hash_password("right-one").ok().unwrap();
    assert_eq!(verify_password("another", &hash).ok(), Some(false));
    assert_eq!(verify_password("", &hash).ok(), Some(false));
}

#[test]
fn github_failed_status() {
    assert!(failed_status(200).is_none());
    assert!(failed_status(302).is_none());
    assert!(matches!(failed_status(401), Some(AppError::Api(401, _))));
    assert!(matches!(failed_status(404), Some(AppError::Api(502, _))));
    assert!(matches!(failed_status(500), Some(AppError::Api(502, _))));
}

#[test]
fn times_are_shown_in_utc() {
    assert_eq!(format_date_time(1781692245), Some("2026-06-17 10:30:45".to_string()));
    assert_eq!(format_date_time(0), Some("1970-01-01 00:00:00".to_string()));
    assert_eq!(format_option_date_time(Some(1767225600)), Some("2026-01-01 00:00:00".to_string()));
    assert_eq!(format_option_date_time(None), None);
    assert_eq!(format_date_time(i64::MAX), None);
}
