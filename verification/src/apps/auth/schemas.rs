//! Requests and answers of the sign-up, sign-in and token endpoints.
use vstd::prelude::*;
use crate::project::error::ValidationErrors;
use crate::project::validation::{
    Validate, FieldErrorView, rule_failure, unless, record, finish, check_phone, phone_ok,
    char_count, validation_answer, refused_with, is_mobile_number, law_phone_rule_is_mobile_pattern,
};

verus! {

/// Request for a verification code.
pub struct SendSmsCodeInput {
    /// Mobile phone number.
    pub phone: String,
}

/// Sign-up request.
pub struct RegisterInput {
    /// Mobile phone number.
    pub phone: String,
    /// Verification code.
    pub code: String,
    /// Password.
    pub password: String,
    /// Nickname.
    pub nickname: String,
    /// Real name, if given.
    pub name: Option<String>,
}

/// Sign-in request.
pub struct LoginInput {
    /// Mobile phone number.
    pub phone: String,
    /// Password.
    pub password: String,
}

/// Sign-in answer: an access token and a refresh token with their lifetimes.
pub struct LoginOutput {
    /// Access token.
    pub token: String,
    /// Lifetime of the access token, in seconds.
    pub expires_in: i64,
    /// Refresh token.
    pub refresh_token: String,
    /// Lifetime of the refresh token, in seconds.
    pub refresh_expires_in: i64,
}

/// Token refresh request.
pub struct RefreshInput {
    /// Refresh token.
    pub refresh_token: String,
}

/// The failure of the phone-number rule.
pub open spec fn phone_failure() -> Seq<FieldErrorView> {
    rule_failure("phone"@, "regex"@, "手机号格式不正确"@)
}

impl Validate for SendSmsCodeInput {
    open spec fn failed_rules(&self) -> Seq<FieldErrorView> {
        unless(phone_ok(self.phone@), phone_failure())
    }

    fn validate(&self) -> (r: Result<(), ValidationErrors>) {
        let mut errs = ValidationErrors::new();
        let ok = check_phone(self.phone.as_str());
        record(&mut errs, ok, "phone", "regex", "手机号格式不正确");
        proof {
            reveal_strlit("phone");
            reveal_strlit("regex");
            reveal_strlit("手机号格式不正确");
            assert(crate::project::validation::errors_view(errs.errors@) =~= self.failed_rules());
        }
        finish(errs)
    }
}

impl Validate for RegisterInput {
    open spec fn failed_rules(&self) -> Seq<FieldErrorView> {
        unless(phone_ok(self.phone@), phone_failure())
            + unless(self.code@.len() == 6, rule_failure("code"@, "length"@, "验证码必须为6位"@))
            + unless(self.password@.len() >= 6, rule_failure("password"@, "length"@, "密码长度不能少于6位"@))
            + unless(self.nickname@.len() >= 1, rule_failure("nickname"@, "length"@, "昵称不能为空"@))
    }

    fn validate(&self) -> (r: Result<(), ValidationErrors>) {
        let mut errs = ValidationErrors::new();
        let ok = check_phone(self.phone.as_str());
        record(&mut errs, ok, "phone", "regex", "手机号格式不正确");
        record(&mut errs, char_count(self.code.as_str()) == 6, "code", "length", "验证码必须为6位");
        record(&mut errs, char_count(self.password.as_str()) >= 6, "password", "length", "密码长度不能少于6位");
        record(&mut errs, char_count(self.nickname.as_str()) >= 1, "nickname", "length", "昵称不能为空");
        proof {
            reveal_strlit("phone");
            reveal_strlit("regex");
            reveal_strlit("手机号格式不正确");
            assert(crate::project::validation::errors_view(errs.errors@) =~= self.failed_rules());
        }
        finish(errs)
    }
}

impl Validate for LoginInput {
    open spec fn failed_rules(&self) -> Seq<FieldErrorView> {
        unless(phone_ok(self.phone@), phone_failure())
            + unless(
                6 <= self.password@.len() <= 128,
                rule_failure("password"@, "length"@, "密码长度必须在6-128位之间"@),
            )
    }

    fn validate(&self) -> (r: Result<(), ValidationErrors>) {
        let mut errs = ValidationErrors::new();
        let ok = check_phone(self.phone.as_str());
        record(&mut errs, ok, "phone", "regex", "手机号格式不正确");
        let n = char_count(self.password.as_str());
        record(&mut errs, 6 <= n && n <= 128, "password", "length", "密码长度必须在6-128位之间");
        proof {
            reveal_strlit("phone");
            reveal_strlit("regex");
            reveal_strlit("手机号格式不正确");
            assert(crate::project::validation::errors_view(errs.errors@) =~= self.failed_rules());
        }
        finish(errs)
    }
}

impl Validate for RefreshInput {
    open spec fn failed_rules(&self) -> Seq<FieldErrorView> {
        Seq::empty()
    }

    fn validate(&self) -> (r: Result<(), ValidationErrors>) {
        Ok(())
    }
}

/// The failure of the phone rule.
pub open spec fn bad_phone_entry() -> FieldErrorView {
    ("phone"@, "regex"@, Some("手机号格式不正确"@))
}

/// A code request passes exactly when its phone is a mobile number; a
/// request with any other phone is refused with the phone rule alone.
pub proof fn law_sms_request_rules(input: SendSmsCodeInput, r: Result<(), ValidationErrors>)
    requires
        validation_answer(input.failed_rules(), r),
    ensures
        is_mobile_number(input.phone@) <==> r is Ok,
        !is_mobile_number(input.phone@) ==> (r matches Err(e) && crate::project::validation::errors_view(e.errors@)
            == seq![bad_phone_entry()]),
{
    law_phone_rule_is_mobile_pattern(input.phone@);
}

/// A sign-up passes exactly when its phone is a mobile number, its code has
/// 6 characters, its password at least 6 and its nickname at least one;
/// each broken rule is among the failures it is refused with.
pub proof fn law_register_rules(input: RegisterInput, r: Result<(), ValidationErrors>)
    requires
        validation_answer(input.failed_rules(), r),
    ensures
        (is_mobile_number(input.phone@) && input.code@.len() == 6 && input.password@.len() >= 6
            && input.nickname@.len() >= 1) <==> r is Ok,
        !is_mobile_number(input.phone@) ==> refused_with(r, bad_phone_entry()),
        input.code@.len() != 6 ==> refused_with(r, ("code"@, "length"@, Some("验证码必须为6位"@))),
        input.password@.len() < 6 ==> refused_with(r, ("password"@, "length"@, Some("密码长度不能少于6位"@))),
        input.nickname@.len() < 1 ==> refused_with(r, ("nickname"@, "length"@, Some("昵称不能为空"@))),
{
    law_phone_rule_is_mobile_pattern(input.phone@);
    let a = unless(phone_ok(input.phone@), phone_failure());
    let b = unless(input.code@.len() == 6, rule_failure("code"@, "length"@, "验证码必须为6位"@));
    let c = unless(input.password@.len() >= 6, rule_failure("password"@, "length"@, "密码长度不能少于6位"@));
    let d = unless(input.nickname@.len() >= 1, rule_failure("nickname"@, "length"@, "昵称不能为空"@));
    let f = input.failed_rules();
    assert(f == a + b + c + d);
    if r is Err {
        let e = r->Err_0;
        let v = crate::project::validation::errors_view(e.errors@);
        assert(v == f);
        if !phone_ok(input.phone@) {
            assert(v[0] == bad_phone_entry());
        }
        if input.code@.len() != 6 {
            assert(v[a.len() as int] == ("code"@, "length"@, Some("验证码必须为6位"@)));
        }
        if input.password@.len() < 6 {
            assert(v[(a.len() + b.len()) as int] == ("password"@, "length"@, Some("密码长度不能少于6位"@)));
        }
        if input.nickname@.len() < 1 {
            assert(v[(a.len() + b.len() + c.len()) as int] == ("nickname"@, "length"@, Some("昵称不能为空"@)));
        }
    }
}

/// A sign-in passes exactly when its phone is a mobile number and its
/// password has 6 to 128 characters; each broken rule is among the
/// failures it is refused with.
pub proof fn law_login_rules(input: LoginInput, r: Result<(), ValidationErrors>)
    requires
        validation_answer(input.failed_rules(), r),
    ensures
        (is_mobile_number(input.phone@) && 6 <= input.password@.len() <= 128) <==> r is Ok,
        !is_mobile_number(input.phone@) ==> refused_with(r, bad_phone_entry()),
        !(6 <= input.password@.len() <= 128) ==> refused_with(
            r,
            ("password"@, "length"@, Some("密码长度必须在6-128位之间"@)),
        ),
{
    law_phone_rule_is_mobile_pattern(input.phone@);
    let a = unless(phone_ok(input.phone@), phone_failure());
    let f = input.failed_rules();
    if r is Err {
        let v = crate::project::validation::errors_view(r->Err_0.errors@);
        assert(v == f);
        if !phone_ok(input.phone@) {
            assert(v[0] == bad_phone_entry());
        }
        if !(6 <= input.password@.len() <= 128) {
            assert(v[a.len() as int] == ("password"@, "length"@, Some("密码长度必须在6-128位之间"@)));
        }
    }
}

} // verus!
