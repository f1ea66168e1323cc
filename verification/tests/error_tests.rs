use web_demo::project::error::{ok, ApiResult, AppError, DbError, ErrorBody, FieldError, ValidationErrors};
use web_demo::project::validation::{finish, record_bare};

#[test]
fn internal_error_has_correct_status() {
    let err = AppError::internal("测试错误");
    match err {
        AppError::Api(500, msg) => {
            assert_eq!(msg, "测试错误");
        }
        _ => panic!("internal() 应返回 Api(500, ..)"),
    }
}

#[test]
fn db_error_display() {
    let err = AppError::DB(DbError { message: sea_orm::DbErr::Custom("db failure".to_string()).to_string() });
    let msg = err.to_display_string();
    assert!(msg.contains("db failure"), "Display should include db error: {}", msg);
}

#[test]
fn ok_helper_returns_ok() {
    let result: ApiResult<i32> = ok(42);
    assert!(result.is_ok());
    let val = result.ok().unwrap();
    assert_eq!(val, 42);
}

#[test]
fn api_error_display() {
    let err = AppError::Api(404, "资源不存在".to_string());
    let msg = err.to_display_string();
    assert_eq!(msg, "资源不存在");
}

#[test]
fn from_validation_errors() {
    let mut errs = ValidationErrors::new();
    record_bare(&mut errs, false, "name", "required");
    let err = AppError::from(finish(errs).unwrap_err());
    assert!(matches!(err, AppError::Validation(_)));
}

#[test]
fn from_db_error() {
    let db_err = DbError { message: sea_orm::DbErr::Custom("conn failed".to_string()).to_string() };
    let err: AppError = db_err.into();
    assert!(matches!(err, AppError::DB(_)));
}

#[test]
fn db_error_display_text_is_prefixed() {
    let err = AppError::DB(DbError { message: "boom".to_string() });
    assert_eq!(err.to_display_string(), "数据库错误: boom");
}

#[test]
fn validation_error_display_lists_rules() {
    let mut errs = ValidationErrors::new();
    errs.add(FieldError::new("phone", "regex", "手机号格式不正确"));
    errs.add(FieldError::without_message("page", "range"));
    let err = AppError::Validation(errs);
    assert_eq!(err.to_display_string(), "验证错误: phone: 手机号格式不正确\npage: range");
}

#[test]
fn db_error_is_answered_without_details() {
    let (status, body) = AppError::DB(DbError { message: "secret detail".to_string() }).into_response_parts();
    assert_eq!(status, 500);
    match body {
        ErrorBody::Message { code, message } => {
            assert_eq!(code, 500);
            assert_eq!(message, "服务器内部错误");
        }
        _ => panic!("expected a message body"),
    }
}

#[test]
fn validation_error_is_answered_as_bad_request() {
    let mut errs = ValidationErrors::new();
    errs.add(FieldError::without_message("name", "required"));
    let (status, body) = AppError::Validation(errs).into_response_parts();
    assert_eq!(status, 400);
    match body {
        ErrorBody::Invalid { code, message, errors } => {
            assert_eq!(code, 400);
            assert_eq!(message, "输入验证失败");
            assert_eq!(errors.errors.len(), 1);
            assert_eq!(errors.errors[0].field, "name");
        }
        _ => panic!("expected an invalid-input body"),
    }
}

#[test]
fn api_error_keeps_its_status() {
    let (status, body) = AppError::api(429, "slow down").into_response_parts();
    assert_eq!(status, 429);
    match body {
        ErrorBody::Message { code, message } => {
            assert_eq!(code, 429);
            assert_eq!(message, "slow down");
        }
        _ => panic!("expected a message body"),
    }
}

#[test]
fn finish_without_failures_is_ok() {
    let errs = ValidationErrors::new();
    assert!(errs.is_empty());
    assert!(finish(errs).is_ok());
}
