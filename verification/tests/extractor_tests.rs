use web_demo::project::error::AppError;
use web_demo::project::extractor::{ResourceId, ValidatedJson, ValidatedQuery};

#[test]
fn resource_id_as_i32_within_range() {
    let id = ResourceId(42);
    assert_eq!(id.as_i32().ok().unwrap(), 42i32);
}

#[test]
fn resource_id_as_i32_max_i32() {
    let id = ResourceId(i32::MAX as u32);
    assert_eq!(id.as_i32().ok().unwrap(), i32::MAX);
}

#[test]
fn resource_id_as_i32_out_of_range() {
    let id = ResourceId(i32::MAX as u32 + 1);
    let err = id.as_i32().err().unwrap();
    match err {
        AppError::Api(400, ref msg) => {
            assert_eq!(msg, "ID 超出范围");
        }
        _ => panic!("期望 Api(400, ..)"),
    }
}

#[test]
fn validated_json_deref() {
    let wrapper = ValidatedJson(42i32);
    assert_eq!(*wrapper, 42);
}

#[test]
fn validated_query_deref() {
    let wrapper = ValidatedQuery("hello".to_string());
    assert_eq!(*wrapper, "hello");
}
