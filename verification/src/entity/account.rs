//! The local user account and the writes that handlers make to it.
use vstd::prelude::*;
use super::soft_delete::Timestamps;

verus! {

/// A stored account.
pub struct Model {
    pub id: i32,
    /// Public unique id.
    pub uid: String,
    /// Kind of account (see `ClassType`).
    pub account_type: i16,
    pub nickname: String,
    /// bcrypt hash of the password; empty for accounts made by an outside
    /// sign-in, which cannot sign in with a password.
    pub password: String,
    pub name: Option<String>,
    /// Gender (see `GenderType`); 0 when not given.
    pub gender: i16,
    pub telephone: Option<String>,
    pub email: Option<String>,
    pub address: Option<String>,
    /// Last sign-in, as a UTC timestamp in seconds.
    pub last_login_dt: Option<i64>,
    pub times: Timestamps,
}

/// A new account to insert. The id and the bookkeeping times are filled
/// in when it is stored; a field left `None` is not written.
pub struct NewAccount {
    pub uid: String,
    pub account_type: i16,
    pub nickname: String,
    pub password: String,
    pub name: Option<String>,
    pub gender: Option<i16>,
    pub telephone: Option<String>,
    pub email: Option<String>,
    pub address: Option<String>,
    pub last_login_dt: Option<i64>,
}

/// A write to a stored account: each field that is `Some` is set to its
/// value (a nullable column to `Some` of it); the others are left alone.
pub struct AccountUpdate {
    pub nickname: Option<String>,
    pub password: Option<String>,
    pub gender: Option<i16>,
    pub name: Option<String>,
    pub telephone: Option<String>,
    pub email: Option<String>,
    pub address: Option<String>,
    pub last_login_dt: Option<i64>,
}

/// The value of a field after a write that may set it.
pub open spec fn set_or<T>(new: Option<T>, old: T) -> T {
    match new {
        Some(v) => v,
        None => old,
    }
}

/// The value of a nullable field after a write that may set it.
pub open spec fn set_nullable_or<T>(new: Option<T>, old: Option<T>) -> Option<T> {
    match new {
        Some(v) => Some(v),
        None => old,
    }
}

/// The account after the write `u`.
pub open spec fn updated(m: Model, u: AccountUpdate) -> Model {
    Model {
        id: m.id,
        uid: m.uid,
        account_type: m.account_type,
        nickname: set_or(u.nickname, m.nickname),
        password: set_or(u.password, m.password),
        name: set_nullable_or(u.name, m.name),
        gender: set_or(u.gender, m.gender),
        telephone: set_nullable_or(u.telephone, m.telephone),
        email: set_nullable_or(u.email, m.email),
        address: set_nullable_or(u.address, m.address),
        last_login_dt: set_nullable_or(u.last_login_dt, m.last_login_dt),
        times: m.times,
    }
}

/// Whether the write sets nothing.
pub open spec fn is_empty_update(u: AccountUpdate) -> bool {
    &&& u.nickname is None
    &&& u.password is None
    &&& u.gender is None
    &&& u.name is None
    &&& u.telephone is None
    &&& u.email is None
    &&& u.address is None
    &&& u.last_login_dt is None
}

impl AccountUpdate {
    /// A write that sets nothing.
    pub fn empty() -> (r: Self)
        ensures
            is_empty_update(r),
    {
        AccountUpdate {
            nickname: None,
            password: None,
            gender: None,
            name: None,
            telephone: None,
            email: None,
            address: None,
            last_login_dt: None,
        }
    }
}

impl Model {
    /// The account after the write `u`.
    pub fn apply(self, u: AccountUpdate) -> (r: Model)
        ensures
            r == updated(self, u),
    {
        Model {
            id: self.id,
            uid: self.uid,
            account_type: self.account_type,
            nickname: match u.nickname { Some(v) => v, None => self.nickname },
            password: match u.password { Some(v) => v, None => self.password },
            name: match u.name { Some(v) => Some(v), None => self.name },
            gender: match u.gender { Some(v) => v, None => self.gender },
            telephone: match u.telephone { Some(v) => Some(v), None => self.telephone },
            email: match u.email { Some(v) => Some(v), None => self.email },
            address: match u.address { Some(v) => Some(v), None => self.address },
            last_login_dt: match u.last_login_dt { Some(v) => Some(v), None => self.last_login_dt },
            times: self.times,
        }
    }
}

/// A write that sets nothing leaves the account as it was, and no write
/// changes the id, the public id or the kind of account.
pub proof fn law_update_keeps_identity(m: Model, u: AccountUpdate)
    ensures
        is_empty_update(u) ==> updated(m, u) == m,
        updated(m, u).id == m.id,
        updated(m, u).uid == m.uid,
        updated(m, u).account_type == m.account_type,
{
}

/// Writing twice the same write gives what writing it once gives.
pub proof fn law_update_idempotent(m: Model, u: AccountUpdate)
    ensures
        updated(updated(m, u), u) == updated(m, u),
{
}

} // verus!
