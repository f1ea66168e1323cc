//! Requests and answers of the user endpoints.
use vstd::prelude::*;
use super::constants::{ClassType, GenderType};
use crate::project::error::ValidationErrors;
use crate::project::validation::{
    Validate, FieldErrorView, rule_failure, unless, record, finish, char_count, errors_view, validation_answer,
    refused_with,
};

verus! {

/// Filters of the user list.
pub struct UserListInput {
    /// Part of the real name.
    pub name: Option<String>,
    /// Part of the phone number.
    pub telephone: Option<String>,
    /// Kind of account.
    pub account_type: Option<ClassType>,
}

/// One entry of the user list.
pub struct UserListOutput {
    pub id: i32,
    pub nickname: String,
    pub account_type: ClassType,
    pub name: Option<String>,
    pub gender: Option<GenderType>,
    pub telephone: Option<String>,
}

/// The current user's details.
pub struct UserOutput {
    pub id: i32,
    pub uid: String,
    pub nickname: String,
    pub name: Option<String>,
    pub gender: Option<GenderType>,
    pub telephone: Option<String>,
    pub email: Option<String>,
    pub address: Option<String>,
    pub account_type: ClassType,
    /// Last sign-in, as a UTC timestamp in seconds.
    pub last_login_dt: Option<i64>,
    /// Creation, as a UTC timestamp in seconds.
    pub create_ts: i64,
}

/// A new user.
pub struct UserCreate {
    pub nickname: String,
    pub password: String,
    pub name: Option<String>,
    pub gender: Option<GenderType>,
    pub telephone: Option<String>,
    pub email: Option<String>,
    pub address: Option<String>,
}

/// Changes to the current user; absent fields stay as they are.
pub struct UserPatch {
    pub nickname: Option<String>,
    pub password: Option<String>,
    pub name: Option<String>,
    pub gender: Option<GenderType>,
    pub telephone: Option<String>,
    pub email: Option<String>,
    pub address: Option<String>,
}

impl Validate for UserListInput {
    open spec fn failed_rules(&self) -> Seq<FieldErrorView> {
        Seq::empty()
    }

    fn validate(&self) -> (r: Result<(), ValidationErrors>) {
        Ok(())
    }
}

impl Validate for UserCreate {
    open spec fn failed_rules(&self) -> Seq<FieldErrorView> {
        unless(self.nickname@.len() >= 1, rule_failure("nickname"@, "length"@, "昵称不能为空"@))
            + unless(self.password@.len() >= 6, rule_failure("password"@, "length"@, "密码长度不能少于6位"@))
    }

    fn validate(&self) -> (r: Result<(), ValidationErrors>) {
        let mut errs = ValidationErrors::new();
        record(&mut errs, char_count(self.nickname.as_str()) >= 1, "nickname", "length", "昵称不能为空");
        record(&mut errs, char_count(self.password.as_str()) >= 6, "password", "length", "密码长度不能少于6位");
        assert(errors_view(errs.errors@) =~= self.failed_rules());
        finish(errs)
    }
}

impl Validate for UserPatch {
    /// The password rule applies only when a password is given.
    open spec fn failed_rules(&self) -> Seq<FieldErrorView> {
        match self.password {
            Some(p) => unless(p@.len() >= 6, rule_failure("password"@, "length"@, "密码长度不能少于6位"@)),
            None => Seq::empty(),
        }
    }

    fn validate(&self) -> (r: Result<(), ValidationErrors>) {
        let mut errs = ValidationErrors::new();
        match &self.password {
            Some(p) => record(&mut errs, char_count(p.as_str()) >= 6, "password", "length", "密码长度不能少于6位"),
            None => {},
        }
        assert(errors_view(errs.errors@) =~= self.failed_rules());
        finish(errs)
    }
}

/// The failure of the password length rule.
pub open spec fn short_password_entry() -> FieldErrorView {
    ("password"@, "length"@, Some("密码长度不能少于6位"@))
}

/// A new user passes exactly when the nickname has a character and the
/// password at least 6; each broken rule is among the failures it is
/// refused with.
pub proof fn law_user_create_rules(input: UserCreate, r: Result<(), ValidationErrors>)
    requires
        validation_answer(input.failed_rules(), r),
    ensures
        (input.nickname@.len() >= 1 && input.password@.len() >= 6) <==> r is Ok,
        input.nickname@.len() < 1 ==> refused_with(r, ("nickname"@, "length"@, Some("昵称不能为空"@))),
        input.password@.len() < 6 ==> refused_with(r, short_password_entry()),
{
    let a = unless(input.nickname@.len() >= 1, rule_failure("nickname"@, "length"@, "昵称不能为空"@));
    if r is Err {
        let v = errors_view(r->Err_0.errors@);
        assert(v == input.failed_rules());
        if input.nickname@.len() < 1 {
            assert(v[0] == ("nickname"@, "length"@, Some("昵称不能为空"@)));
        }
        if input.password@.len() < 6 {
            assert(v[a.len() as int] == short_password_entry());
        }
    }
}

/// A change passes exactly when it gives no password or a password of at
/// least 6 characters; a shorter one is refused with the password rule
/// alone.
pub proof fn law_user_patch_rules(input: UserPatch, r: Result<(), ValidationErrors>)
    requires
        validation_answer(input.failed_rules(), r),
    ensures
        (match input.password {
            Some(p) => p@.len() >= 6,
            None => true,
        }) <==> r is Ok,
        (input.password matches Some(p) && p@.len() < 6) ==> (r matches Err(e) && errors_view(e.errors@)
            == seq![short_password_entry()]),
{
}

} // verus!
