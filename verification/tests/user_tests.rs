use web_demo::app::user::schemas::UserListInput as OldListInput;
use web_demo::app::user::view::{require_found, user_list_query as old_list_query};
use web_demo::apps::user::constants::{ClassType, GenderType};
use web_demo::apps::user::schemas::{UserCreate, UserListInput, UserPatch};
use web_demo::apps::user::view::{plan_user_create, plan_user_patch, require_user, user_list_query};
use web_demo::entity::account::{AccountUpdate, Model};
use web_demo::entity::soft_delete::Timestamps;
use web_demo::error::AppError as OldError;
use web_demo::helper::crypto::verify_password;
use web_demo::project::error::AppError;
use web_demo::project::pagination::{default_page, default_page_size, PagePagination, PaginationInput};
use web_demo::project::extractor::ValidatedQuery;

#[test]
fn stored_numbers() {
    assert_eq!(ClassType::User.as_i16(), 1);
    assert_eq!(ClassType::InternalStaff.as_i16(), 2);
    assert_eq!(GenderType::Male.as_i16(), 1);
    assert_eq!(GenderType::Female.as_i16(), 2);
    assert_eq!(ClassType::from_i16(2), Some(ClassType::InternalStaff));
    assert_eq!(GenderType::from_i16(1), Some(GenderType::Male));
    assert_eq!(ClassType::from_i16(0), None);
    assert_eq!(GenderType::from_i16(3), None);
    assert_eq!(ClassType::default(), ClassType::User);
    assert_eq!(GenderType::default(), GenderType::Male);
}

#[test]
fn stored_numbers_read_back() {
    for c in [ClassType::User, ClassType::InternalStaff] {
        assert_eq!(ClassType::from_i16(c.as_i16()), Some(c));
    }
    for g in [GenderType::Male, GenderType::Female] {
        assert_eq!(GenderType::from_i16(g.as_i16()), Some(g));
    }
}

#[test]
fn pagination_defaults() {
    assert_eq!(default_page(), 1);
    assert_eq!(default_page_size(), 10);
    let p = PaginationInput::from_query(None, None);
    assert_eq!((p.page, p.page_size), (1, 10));
    let q = PaginationInput::from_query(Some(3), Some(20));
    assert_eq!((q.page, q.page_size), (3, 20));
    assert_eq!(q.page_index(), 2);
    let d = PaginationInput::default();
    assert_eq!((d.page, d.page_size), (0, 0));
}

#[test]
fn pagination_rules() {
    let bad = PaginationInput { page: 0, page_size: 200 };
    match ValidatedQuery::accept(Ok(bad)) {
        Err(AppError::Validation(errs)) => {
            assert_eq!(errs.errors.len(), 2);
            assert_eq!(errs.errors[0].field, "page");
            assert_eq!(errs.errors[0].code, "range");
            assert_eq!(errs.errors[1].field, "page_size");
        }
        _ => panic!("expected failed rules"),
    }
    assert!(ValidatedQuery::accept(Ok(PaginationInput { page: 1, page_size: 5 })).is_ok());
    match ValidatedQuery::<PaginationInput>::accept(Err("bad query".to_string())) {
        Err(AppError::Api(400, m)) => assert_eq!(m, "bad query"),
        _ => panic!("expected a bad request"),
    }
}

#[test]
fn page_answer_carries_the_query() {
    let input = PaginationInput { page: 2, page_size: 5 };
    let p = PagePagination::new(vec![1, 2, 3], 13, &input);
    assert_eq!(p.data, vec![1, 2, 3]);
    assert_eq!((p.total, p.page, p.page_size), (13, 2, 5));
}

#[test]
fn list_query_uses_filters_and_page() {
    let input = UserListInput {
        name: Some("li".to_string()),
        telephone: None,
        account_type: Some(ClassType::InternalStaff),
    };
    let (f, size, index) = user_list_query(input, &PaginationInput { page: 3, page_size: 20 });
    assert_eq!(f.account_type, Some(2));
    assert_eq!(f.name_contains, Some("li".to_string()));
    assert_eq!(f.telephone_contains, None);
    assert_eq!((size, index), (20, 2));
    assert!(f.newest_first);
}

#[test]
fn create_hashes_the_password() {
    let input = UserCreate {
        nickname: "nick".to_string(),
        password: "secret1".to_string(),
        name: None,
        gender: Some(GenderType::Female),
        telephone: None,
        email: Some("a@b.c".to_string()),
        address: None,
    };
    let a = plan_user_create(input).ok().unwrap();
    assert_eq!(a.account_type, 1);
    assert_eq!(a.gender, Some(2));
    assert_eq!(a.uid.len(), 36);
    assert!(verify_password("secret1", &a.password).ok().unwrap());
    assert_eq!(a.email, Some("a@b.c".to_string()));
}

#[test]
fn create_without_gender_stores_zero() {
    let input = UserCreate {
        nickname: "nick".to_string(),
        password: "secret1".to_string(),
        name: None,
        gender: None,
        telephone: None,
        email: None,
        address: None,
    };
    assert_eq!(plan_user_create(input).ok().unwrap().gender, Some(0));
}

#[test]
fn missing_user_is_not_found() {
    match require_user::<i32>(None) {
        Err(AppError::Api(404, m)) => assert_eq!(m, "用户不存在"),
        _ => panic!("expected 404"),
    }
    assert_eq!(require_user(Some(5)).ok().unwrap(), 5);
}

fn stored() -> Model {
    Model {
        id: 1,
        uid: "uid".to_string(),
        account_type: 1,
        nickname: "old".to_string(),
        password: "h".to_string(),
        name: Some("Name".to_string()),
        gender: 1,
        telephone: None,
        email: None,
        address: Some("addr".to_string()),
        last_login_dt: None,
        times: Timestamps { create_ts: 10, update_ts: 10, delete_ts: None },
    }
}

#[test]
fn patch_sets_only_given_fields() {
    let data = UserPatch {
        nickname: Some("new".to_string()),
        password: None,
        name: None,
        gender: Some(GenderType::Female),
        telephone: Some("13900000000".to_string()),
        email: None,
        address: None,
    };
    let u = plan_user_patch(data).ok().unwrap();
    assert!(u.password.is_none());
    let m = stored().apply(u);
    assert_eq!(m.nickname, "new");
    assert_eq!(m.gender, 2);
    assert_eq!(m.telephone, Some("13900000000".to_string()));
    assert_eq!(m.name, Some("Name".to_string()));
    assert_eq!(m.address, Some("addr".to_string()));
    assert_eq!(m.id, 1);
    assert_eq!(m.uid, "uid");
    assert_eq!(m.times.create_ts, 10);
}

#[test]
fn patch_hashes_a_new_password() {
    let data = UserPatch {
        nickname: None,
        password: Some("another1".to_string()),
        name: None,
        gender: None,
        telephone: None,
        email: None,
        address: None,
    };
    let u = plan_user_patch(data).ok().unwrap();
    let h = u.password.clone().unwrap();
    assert!(verify_password("another1", &h).ok().unwrap());
}

#[test]
fn empty_update_changes_nothing() {
    let m = stored().apply(AccountUpdate::empty());
    assert_eq!(m.nickname, "old");
    assert_eq!(m.name, Some("Name".to_string()));
    assert_eq!(m.gender, 1);
}

#[test]
fn old_list_query_defaults() {
    let q = old_list_query(OldListInput { name: None, telephone: Some("138".to_string()), page: None, page_size: None });
    assert_eq!(q.account_type, 2);
    assert_eq!(q.page_size, 10);
    assert_eq!(q.page_index, 0);
    assert_eq!(q.telephone_contains, Some("138".to_string()));
    assert!(q.newest_first);
    let q2 = old_list_query(OldListInput { name: Some("a".to_string()), telephone: None, page: Some(4), page_size: Some(25) });
    assert_eq!((q2.page_size, q2.page_index), (25, 3));
    assert_eq!(q2.name_contains, Some("a".to_string()));
}

#[test]
fn old_detail_not_found() {
    match require_found::<i32>(None) {
        Err(OldError::Other(m)) => assert_eq!(m, "未找到对应数据"),
        _ => panic!("expected a not-found failure"),
    }
    assert_eq!(require_found(Some(1)).ok().unwrap(), 1);
}
