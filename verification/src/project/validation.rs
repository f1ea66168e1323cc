//! Input rules: the trait that validated inputs implement, and the checks
//! their rules are built from.
use vstd::prelude::*;
use super::error::{FieldError, ValidationErrors};

verus! {

/// A failed rule as plain values: field, rule and message.
pub type FieldErrorView = (Seq<char>, Seq<char>, Option<Seq<char>>);

/// The plain values of a failed rule.
pub open spec fn field_error_view(e: FieldError) -> FieldErrorView {
    (e.field@, e.code@, match e.message {
        Some(m) => Some(m@),
        None => None,
    })
}

/// The plain values of a list of failed rules.
pub open spec fn errors_view(errs: Seq<FieldError>) -> Seq<FieldErrorView> {
    errs.map_values(|e: FieldError| field_error_view(e))
}

/// A failed rule with a message.
pub open spec fn rule_failure(field: Seq<char>, code: Seq<char>, message: Seq<char>) -> Seq<FieldErrorView> {
    seq![(field, code, Some(message))]
}

/// A failed rule without a message.
pub open spec fn bare_rule_failure(field: Seq<char>, code: Seq<char>) -> Seq<FieldErrorView> {
    seq![(field, code, None::<Seq<char>>)]
}

/// The failure `f` when `ok` does not hold, nothing otherwise.
pub open spec fn unless(ok: bool, f: Seq<FieldErrorView>) -> Seq<FieldErrorView> {
    if ok { Seq::empty() } else { f }
}

/// Whether `r` is what checking an input that fails the rules `failed`
/// answers: success when it fails none, otherwise every failure in order.
pub open spec fn validation_answer(failed: Seq<FieldErrorView>, r: Result<(), ValidationErrors>) -> bool {
    match r {
        Ok(()) => failed.len() == 0,
        Err(e) => failed.len() > 0 && errors_view(e.errors@) == failed,
    }
}

/// Whether `r` refuses the input, with the failure `f` among its failures.
pub open spec fn refused_with(r: Result<(), ValidationErrors>, f: FieldErrorView) -> bool {
    r matches Err(e) && errors_view(e.errors@).contains(f)
}

/// Whether `phone` matches the mobile number pattern `^1[3-9]\d{9}$`.
pub open spec fn is_mobile_number(phone: Seq<char>) -> bool {
    regex_match("^1[3-9]\\d{9}$"@, phone) == Some(true)
}

/// An input whose fields are checked against rules once it is read.
pub trait Validate {
    /// The rules that `self` fails, in field order.
    spec fn failed_rules(&self) -> Seq<FieldErrorView>;

    /// Checks `self` against its rules; fails with every rule it breaks.
    fn validate(&self) -> (r: Result<(), ValidationErrors>)
        ensures
            match r {
                Ok(()) => self.failed_rules().len() == 0,
                Err(e) => self.failed_rules().len() > 0 && errors_view(e.errors@) == self.failed_rules(),
            },
    ;
}

/// Adds the failure of a rule with a message, when `ok` does not hold.
pub fn record(errs: &mut ValidationErrors, ok: bool, field: &str, code: &str, message: &str)
    ensures
        errors_view(final(errs).errors@) == errors_view(old(errs).errors@) + unless(
            ok,
            rule_failure(field@, code@, message@),
        ),
{
    if !ok {
        let e = FieldError::new(field, code, message);
        errs.add(e);
        assert(errors_view(errs.errors@) =~= errors_view(old(errs).errors@) + rule_failure(field@, code@, message@));
    } else {
        assert(errors_view(errs.errors@) =~= errors_view(old(errs).errors@) + Seq::<FieldErrorView>::empty());
    }
}

/// Adds the failure of a rule without a message, when `ok` does not hold.
pub fn record_bare(errs: &mut ValidationErrors, ok: bool, field: &str, code: &str)
    ensures
        errors_view(final(errs).errors@) == errors_view(old(errs).errors@) + unless(
            ok,
            bare_rule_failure(field@, code@),
        ),
{
    if !ok {
        let e = FieldError::without_message(field, code);
        errs.add(e);
        assert(errors_view(errs.errors@) =~= errors_view(old(errs).errors@) + bare_rule_failure(field@, code@));
    } else {
        assert(errors_view(errs.errors@) =~= errors_view(old(errs).errors@) + Seq::<FieldErrorView>::empty());
    }
}

/// Ends a check: success when no rule failed.
pub fn finish(errs: ValidationErrors) -> (r: Result<(), ValidationErrors>)
    ensures
        match r {
            Ok(()) => errors_view(errs.errors@).len() == 0,
            Err(e) => errors_view(errs.errors@).len() > 0 && e == errs,
        },
{
    if errs.is_empty() {
        Ok(())
    } else {
        Err(errs)
    }
}

/// The value of `regex::Regex::new(pattern)` applied with `is_match` to
/// `text`: `None` when the pattern does not compile.
pub uninterp spec fn regex_match(pattern: Seq<char>, text: Seq<char>) -> Option<bool>;

/// Calls `regex::Regex::new(pattern)` and, when the pattern compiles,
/// `is_match(text)` on it (a match anywhere in `text`). What the pattern
/// matches is left to the name.
#[verifier::external_body]
pub(crate) fn regex_is_match(pattern: &str, text: &str) -> (r: Option<bool>)
    ensures
        r == regex_match(pattern@, text@),
{
    match regex::Regex::new(pattern) {
        Ok(re) => Some(re.is_match(text)),
        Err(_) => None,
    }
}

/// The pattern that a mobile phone number matches: `1`, a digit from `3`
/// to `9`, then nine more digits.
pub open spec fn phone_pattern() -> Seq<char> {
    "^1[3-9]\\d{9}$"@
}

/// Whether `phone` passes the phone-number rule.
pub open spec fn phone_ok(phone: Seq<char>) -> bool {
    regex_match(phone_pattern(), phone) == Some(true)
}

/// The phone-number rule. A pattern that does not compile passes nothing.
pub fn check_phone(phone: &str) -> (r: bool)
    ensures
        r == phone_ok(phone@),
{
    match regex_is_match("^1[3-9]\\d{9}$", phone) {
        Some(b) => b,
        None => false,
    }
}

/// The number of characters of `s`, as the length rule counts them.
pub fn char_count(s: &str) -> (r: usize)
    ensures
        r == s@.len(),
{
    s.unicode_len()
}

/// The phone-number rule is the mobile number pattern: a phone passes it
/// exactly when it matches `^1[3-9]\d{9}$`.
pub proof fn law_phone_rule_is_mobile_pattern(phone: Seq<char>)
    ensures
        phone_ok(phone) == is_mobile_number(phone),
{
}

} // verus!
