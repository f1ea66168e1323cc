//! Access and refresh tokens: what they claim, how they are issued and
//! how they are checked.
use vstd::prelude::*;
use super::schemas::LoginOutput;
use crate::project::configs::Jwt;
use crate::project::error::{AppError, is_api, internal_message, INTERNAL_SERVER_ERROR};
use crate::text::str_eq;
use crate::project::clock::{current_timestamp, MAX_TIMESTAMP};

verus! {

#[verifier::external_type_specification]
#[verifier::external_body]
pub struct ExJwtError(jsonwebtoken::errors::Error);

/// What a token claims.
pub struct Claims {
    /// Unique id of the token (for revocation).
    pub jti: String,
    /// Id of the user.
    pub sub: i32,
    /// Issue time, as a UTC timestamp in seconds.
    pub iat: i64,
    /// Expiry time, as a UTC timestamp in seconds.
    pub exp: i64,
    /// Kind of token: `access` or `refresh`.
    pub typ: String,
}

/// The plain values of the claims: id, user, issue time, expiry, kind.
pub type ClaimsView = (Seq<char>, i32, i64, i64, Seq<char>);

impl View for Claims {
    type V = ClaimsView;

    open spec fn view(&self) -> ClaimsView {
        (self.jti@, self.sub, self.iat, self.exp, self.typ@)
    }
}

/// Why a token could not be issued or was not accepted.
pub enum TokenError {
    /// The token library refused to encode or decode it.
    Jwt(jsonwebtoken::errors::Error),
    /// The expiry time does not fit in a timestamp.
    ExpiryOutOfRange,
    /// The token's claims do not have the fields of `Claims`.
    MalformedClaims,
    /// The token is of the other kind.
    InvalidToken,
}

/// Seconds in an hour.
pub const SECONDS_PER_HOUR: i64 = 3600;
/// Seconds in a day.
pub const SECONDS_PER_DAY: i64 = 86400;

/// The kind of an access token.
pub open spec fn access_kind() -> Seq<char> {
    "access"@
}

/// The kind of a refresh token.
pub open spec fn refresh_kind() -> Seq<char> {
    "refresh"@
}

/// The claims of a token of kind `kind` with id `jti` for `user_id`,
/// issued at `now` and valid for `lifetime` seconds.
pub open spec fn token_claims(jti: Seq<char>, user_id: i32, now: i64, lifetime: int, kind: Seq<char>) -> ClaimsView {
    (jti, user_id, now, (now + lifetime) as i64, kind)
}

/// The token that `jsonwebtoken::encode` produces with the default header
/// (HS256) for the claims, signed with the bytes of `secret`; `None` when it
/// fails.
pub uninterp spec fn hs256_token(claims: ClaimsView, secret: Seq<char>) -> Option<Seq<char>>;

/// Whether `token` was signed with `secret` for claims of kind `kind` for
/// `user_id`, valid for `lifetime` (not negative) seconds from an issue
/// time at which the expiry still fits in a timestamp.
pub open spec fn issued_for(token: Seq<char>, user_id: i32, lifetime: int, kind: Seq<char>, secret: Seq<char>) -> bool {
    lifetime >= 0 && exists|jti: Seq<char>, now: i64|
        now + lifetime <= i64::MAX
        && hs256_token(#[trigger] token_claims(jti, user_id, now, lifetime, kind), secret) == Some(token)
}

/// Whether `c` are the claims that `token` was signed for with `secret`.
pub open spec fn read_back(c: ClaimsView, token: Seq<char>, secret: Seq<char>) -> bool {
    forall|cv: ClaimsView| #[trigger] hs256_token(cv, secret) == Some(token) ==> c == cv
}

/// Calls `jsonwebtoken::encode` with the default header (HS256), the claims
/// as a JSON object with the fields `jti`, `sub`, `iat`, `exp` and `type`
/// in that order (the map keeps the order of insertion), and an HMAC key made from the bytes of `secret`. HS256 signing is a
/// function of its inputs; the token is named, not spelled out.
#[verifier::external_body]
fn encode_hs256(claims: &Claims, secret: &str) -> (r: Result<String, jsonwebtoken::errors::Error>)
    ensures
        r is Ok,
        r matches Ok(t) ==> hs256_token(claims@, secret@) == Some(t@),
{
    let mut m = serde_json::Map::new();
    m.insert("jti".to_string(), serde_json::Value::from(claims.jti.clone()));
    m.insert("sub".to_string(), serde_json::Value::from(claims.sub));
    m.insert("iat".to_string(), serde_json::Value::from(claims.iat));
    m.insert("exp".to_string(), serde_json::Value::from(claims.exp));
    m.insert("type".to_string(), serde_json::Value::from(claims.typ.clone()));
    let key = jsonwebtoken::EncodingKey::from_secret(secret.as_bytes());
    jsonwebtoken::encode(&jsonwebtoken::Header::default(), &m, &key)
}

/// The fields read out of a token's claims: `jti`, `sub`, `iat`, `exp` and
/// `type`, each absent when missing or of another JSON type.
pub type TokenFields = (Option<String>, Option<i64>, Option<i64>, Option<i64>, Option<String>);

/// The plain values of the fields read out of a token.
pub open spec fn fields_view(f: TokenFields) -> (Option<Seq<char>>, Option<i64>, Option<i64>, Option<i64>, Option<Seq<char>>) {
    (
        match f.0 { Some(j) => Some(j@), None => None },
        f.1, f.2, f.3,
        match f.4 { Some(t) => Some(t@), None => None },
    )
}

/// The fields that a token made from the claims `c` holds.
pub open spec fn fields_of_claims(c: ClaimsView) -> (Option<Seq<char>>, Option<i64>, Option<i64>, Option<i64>, Option<Seq<char>>) {
    (Some(c.0), Some(c.1 as i64), Some(c.2), Some(c.3), Some(c.4))
}

/// Calls `jsonwebtoken::decode` with an HMAC key made from the bytes of
/// `secret` and the default validation (HS256, signature, and an `exp`
/// that has not passed), and reads the fields of the claims. Whether it
/// succeeds depends on the current time, so only this is stated: what it
/// reads from a token that `encode_hs256` made from some claims are those
/// claims, since the token carries them as its payload.
#[verifier::external_body]
fn decode_hs256(token: &str, secret: &str) -> (r: Result<TokenFields, jsonwebtoken::errors::Error>)
    ensures
        r matches Ok(f) ==> forall|c: ClaimsView| #[trigger] hs256_token(c, secret@) == Some(token@)
            ==> fields_view(f) == fields_of_claims(c),
{
    let key = jsonwebtoken::DecodingKey::from_secret(secret.as_bytes());
    let v = jsonwebtoken::decode::<serde_json::Value>(token, &key, &jsonwebtoken::Validation::default())?.claims;
    let s = |k: &str| v.get(k).and_then(|x| x.as_str()).map(|x| x.to_string());
    let n = |k: &str| v.get(k).and_then(|x| x.as_i64());
    Ok((s("jti"), n("sub"), n("iat"), n("exp"), s("type")))
}

/// Whether `c` is a lower-case hexadecimal digit.
pub open spec fn is_lower_hex(c: char) -> bool {
    ('0' <= c && c <= '9') || ('a' <= c && c <= 'f')
}

/// Whether `s` is the hyphenated text of a version-4 UUID: 36 characters,
/// lower-case hexadecimal digits in groups of 8-4-4-4-12 separated by `-`,
/// the version digit `4`, and the variant digit one of `8`, `9`, `a`, `b`.
pub open spec fn is_uuid_v4_text(s: Seq<char>) -> bool {
    &&& s.len() == 36
    &&& forall|i: int| 0 <= i < 36 ==> if i == 8 || i == 13 || i == 18 || i == 23 {
        #[trigger] s[i] == '-'
    } else {
        is_lower_hex(s[i])
    }
    &&& s[14] == '4'
    &&& (s[19] == '8' || s[19] == '9' || s[19] == 'a' || s[19] == 'b')
}

/// A fresh random id (`uuid::Uuid::new_v4`), in its hyphenated lower-case
/// form: `new_v4` masks the version and variant bits into random bits, and
/// its `Display` writes the 8-4-4-4-12 lower-case hexadecimal groups. Which
/// id it is is random.
#[verifier::external_body]
pub(crate) fn new_uuid() -> (r: String)
    ensures
        is_uuid_v4_text(r@),
{
    uuid::Uuid::new_v4().to_string()
}

/// The claims of a new token.
pub fn build_claims(jti: String, user_id: i32, now: i64, lifetime: i64, kind: &str) -> (r: Claims)
    requires
        i64::MIN <= now + lifetime <= i64::MAX,
    ensures
        r@ == token_claims(jti@, user_id, now, lifetime as int, kind@),
{
    Claims { jti, sub: user_id, iat: now, exp: now + lifetime, typ: kind.to_string() }
}

/// Claims assembled from the fields read out of a token, as `Claims` is
/// read from JSON: every field must be there, and `sub` must fit in 32 bits.
pub open spec fn claims_from_fields(
    jti: Option<Seq<char>>,
    sub: Option<i64>,
    iat: Option<i64>,
    exp: Option<i64>,
    typ: Option<Seq<char>>,
) -> Option<ClaimsView> {
    match (jti, sub, iat, exp, typ) {
        (Some(j), Some(s), Some(i), Some(e), Some(t)) => if i32::MIN <= s <= i32::MAX {
            Some((j, s as i32, i, e, t))
        } else {
            None
        },
        _ => None,
    }
}

/// Assembles claims from the fields read out of a token.
pub fn claims_from(
    jti: Option<String>,
    sub: Option<i64>,
    iat: Option<i64>,
    exp: Option<i64>,
    typ: Option<String>,
) -> (r: Option<Claims>)
    ensures
        match r {
            Some(c) => claims_from_fields(
                match jti { Some(j) => Some(j@), None => None },
                sub, iat, exp,
                match typ { Some(t) => Some(t@), None => None },
            ) == Some(c@),
            None => claims_from_fields(
                match jti { Some(j) => Some(j@), None => None },
                sub, iat, exp,
                match typ { Some(t) => Some(t@), None => None },
            ) is None,
        },
{
    match (jti, sub, iat, exp, typ) {
        (Some(j), Some(s), Some(i), Some(e), Some(t)) => {
            if i32::MIN as i64 <= s && s <= i32::MAX as i64 {
                Some(Claims { jti: j, sub: s as i32, iat: i, exp: e, typ: t })
            } else {
                None
            }
        },
        _ => None,
    }
}

/// The answer of a token check, given the claims read from the token:
/// the claims when they are of the expected kind.
pub fn accept_kind(claims: Claims, kind: &str) -> (r: Result<Claims, TokenError>)
    ensures
        match r {
            Ok(c) => c == claims && claims.typ@ == kind@,
            Err(e) => e is InvalidToken && claims.typ@ != kind@,
        },
{
    if str_eq(claims.typ.as_str(), kind) {
        Ok(claims)
    } else {
        Err(TokenError::InvalidToken)
    }
}

/// Issues a token of kind `kind` for `user_id`, valid for `lifetime`
/// seconds from now and signed with `secret`.
fn issue_token(user_id: i32, lifetime: i64, kind: &str, secret: &str) -> (r: Result<String, TokenError>)
    requires
        lifetime >= 0,
    ensures
        r matches Ok(t) ==> issued_for(t@, user_id, lifetime as int, kind@, secret@),
        r matches Err(e) ==> (e is ExpiryOutOfRange || e is Jwt),
        lifetime <= i64::MAX - MAX_TIMESTAMP ==> r is Ok,
{
    let now = current_timestamp();
    let jti = new_uuid();
    let r = issue_token_at(user_id, lifetime, kind, secret, now, jti);
    proof {
        if r is Ok {
            assert(hs256_token(token_claims(jti@, user_id, now, lifetime as int, kind@), secret@) == Some(r->Ok_0@));
        }
    }
    r
}

/// Issues a token of kind `kind` for `user_id` with the id `jti`, issued
/// at `now` and valid for `lifetime` seconds, signed with `secret`: refused
/// when the expiry does not fit in a timestamp; otherwise the token signed
/// for those claims.
pub fn issue_token_at(user_id: i32, lifetime: i64, kind: &str, secret: &str, now: i64, jti: String) -> (r: Result<
    String,
    TokenError,
>)
    requires
        lifetime >= 0,
    ensures
        (r matches Err(TokenError::ExpiryOutOfRange)) <==> now > i64::MAX - lifetime,
        now <= i64::MAX - lifetime ==> (r matches Ok(t) && hs256_token(
            token_claims(jti@, user_id, now, lifetime as int, kind@),
            secret@,
        ) == Some(t@)),
{
    if now > i64::MAX - lifetime {
        return Err(TokenError::ExpiryOutOfRange);
    }
    let claims = build_claims(jti, user_id, now, lifetime, kind);
    match encode_hs256(&claims, secret) {
        Ok(t) => Ok(t),
        Err(e) => Err(TokenError::Jwt(e)),
    }
}

/// Checks a token of kind `kind` signed with `secret`: the token library
/// must accept it (signature and expiry), its claims must have the fields
/// of `Claims`, and it must be of the expected kind. The claims handed
/// back are those the token was made from.
fn check_token(token: &str, kind: &str, secret: &str) -> (r: Result<Claims, TokenError>)
    ensures
        r matches Ok(c) ==> c.typ@ == kind@,
        r matches Ok(c) ==> read_back(c@, token@, secret@),
        r matches Err(e) ==> (e is Jwt || e is MalformedClaims || e is InvalidToken),
{
    let f = match decode_hs256(token, secret) {
        Ok(f) => f,
        Err(e) => return Err(TokenError::Jwt(e)),
    };
    let ghost fv = fields_view(f);
    let claims = claims_from(f.0, f.1, f.2, f.3, f.4);
    match claims {
        Some(c) => {
            assert forall|cv: ClaimsView| #[trigger] hs256_token(cv, secret@) == Some(token@) implies c@ == cv by {
                assert(fv == fields_of_claims(cv));
            }
            accept_kind(c, kind)
        },
        None => Err(TokenError::MalformedClaims),
    }
}

/// Issues an access token for `user_id`, valid for the configured number
/// of hours and signed with the access secret.
pub fn create_access_token(cfg: &Jwt, user_id: i32) -> (r: Result<String, TokenError>)
    requires
        cfg.expires_in_hours * 3600 <= i64::MAX,
    ensures
        r matches Ok(t) ==> issued_for(t@, user_id, cfg.expires_in_hours * 3600, access_kind(), cfg.secret@),
        r matches Err(e) ==> (e is ExpiryOutOfRange || e is Jwt),
        cfg.expires_in_hours * 3600 <= i64::MAX - MAX_TIMESTAMP ==> r is Ok,
{
    let lifetime = (cfg.expires_in_hours as i64) * SECONDS_PER_HOUR;
    issue_token(user_id, lifetime, "access", cfg.secret.as_str())
}

/// Issues a refresh token for `user_id`, valid for the configured number
/// of days and signed with the refresh secret.
pub fn create_refresh_token(cfg: &Jwt, user_id: i32) -> (r: Result<String, TokenError>)
    requires
        cfg.refresh_expires_in_days * 86400 <= i64::MAX,
    ensures
        r matches Ok(t) ==> issued_for(t@, user_id, cfg.refresh_expires_in_days * 86400, refresh_kind(), cfg.refresh_secret@),
        r matches Err(e) ==> (e is ExpiryOutOfRange || e is Jwt),
        cfg.refresh_expires_in_days * 86400 <= i64::MAX - MAX_TIMESTAMP ==> r is Ok,
{
    let lifetime = (cfg.refresh_expires_in_days as i64) * SECONDS_PER_DAY;
    issue_token(user_id, lifetime, "refresh", cfg.refresh_secret.as_str())
}

/// Checks an access token against the access secret.
pub fn verify_access_token(cfg: &Jwt, token: &str) -> (r: Result<Claims, TokenError>)
    ensures
        r matches Ok(c) ==> c.typ@ == access_kind(),
        r matches Ok(c) ==> read_back(c@, token@, cfg.secret@),
        r matches Err(e) ==> (e is Jwt || e is MalformedClaims || e is InvalidToken),
{
    check_token(token, "access", cfg.secret.as_str())
}

/// Checks a refresh token against the refresh secret.
pub fn verify_refresh_token(cfg: &Jwt, token: &str) -> (r: Result<Claims, TokenError>)
    ensures
        r matches Ok(c) ==> c.typ@ == refresh_kind(),
        r matches Ok(c) ==> read_back(c@, token@, cfg.refresh_secret@),
        r matches Err(e) ==> (e is Jwt || e is MalformedClaims || e is InvalidToken),
{
    check_token(token, "refresh", cfg.refresh_secret.as_str())
}

/// The sign-in answer for two issued tokens: the access token with its
/// lifetime in seconds (hours × 3600) and the refresh token with its
/// lifetime in seconds (days × 86400).
pub fn login_output(cfg: &Jwt, token: String, refresh_token: String) -> (r: LoginOutput)
    requires
        cfg.expires_in_hours * 3600 <= i64::MAX,
        cfg.refresh_expires_in_days * 86400 <= i64::MAX,
    ensures
        r.token == token,
        r.refresh_token == refresh_token,
        r.expires_in == cfg.expires_in_hours * 3600,
        r.refresh_expires_in == cfg.refresh_expires_in_days * 86400,
{
    LoginOutput {
        token,
        expires_in: (cfg.expires_in_hours as i64) * SECONDS_PER_HOUR,
        refresh_token,
        refresh_expires_in: (cfg.refresh_expires_in_days as i64) * SECONDS_PER_DAY,
    }
}

/// The sign-in answer once the tokens were issued: `access` is the result of
/// issuing the access token, `refresh` that of issuing the refresh token
/// (`None` when it was not tried, after the access token failed). Both
/// tokens give the answer with their lifetimes; a failure of either is a
/// server error.
pub fn answer_token_pair(
    cfg: &Jwt,
    access: Result<String, TokenError>,
    refresh: Option<Result<String, TokenError>>,
) -> (r: Result<LoginOutput, AppError>)
    requires
        cfg.expires_in_hours * 3600 <= i64::MAX,
        cfg.refresh_expires_in_days * 86400 <= i64::MAX,
    ensures
        match (access, refresh) {
            (Ok(a), Some(Ok(b))) => r matches Ok(out) && {
                &&& out.token == a
                &&& out.refresh_token == b
                &&& out.expires_in == cfg.expires_in_hours * 3600
                &&& out.refresh_expires_in == cfg.refresh_expires_in_days * 86400
            },
            _ => r matches Err(e) && is_api(e, INTERNAL_SERVER_ERROR, internal_message()),
        },
{
    proof { reveal_strlit("服务器内部错误"); }
    match (access, refresh) {
        (Ok(a), Some(Ok(b))) => Ok(login_output(cfg, a, b)),
        _ => Err(AppError::internal("服务器内部错误")),
    }
}

/// Issues an access token and a refresh token for `user_id`. A failure to
/// issue either is answered as a server error (the refresh token is not
/// tried once the access token failed).
pub fn generate_token_pair(cfg: &Jwt, user_id: i32) -> (r: Result<LoginOutput, AppError>)
    requires
        cfg.expires_in_hours * 3600 <= i64::MAX,
        cfg.refresh_expires_in_days * 86400 <= i64::MAX,
    ensures
        match r {
            Ok(out) => {
                &&& out.expires_in == cfg.expires_in_hours * 3600
                &&& out.refresh_expires_in == cfg.refresh_expires_in_days * 86400
                &&& issued_for(out.token@, user_id, cfg.expires_in_hours * 3600, access_kind(), cfg.secret@)
                &&& issued_for(out.refresh_token@, user_id, cfg.refresh_expires_in_days * 86400, refresh_kind(), cfg.refresh_secret@)
            },
            Err(e) => is_api(e, INTERNAL_SERVER_ERROR, internal_message()),
        },
        cfg.expires_in_hours * 3600 <= i64::MAX - MAX_TIMESTAMP && cfg.refresh_expires_in_days * 86400
            <= i64::MAX - MAX_TIMESTAMP ==> r is Ok,
{
    let access = create_access_token(cfg, user_id);
    let refresh = if access.is_ok() {
        Some(create_refresh_token(cfg, user_id))
    } else {
        None
    };
    answer_token_pair(cfg, access, refresh)
}

/// A token issued for a user, once accepted with the secret it was signed
/// with, reads back that user, the kind it was issued as, and an expiry
/// `lifetime` seconds after its issue time.
pub proof fn law_issued_token_reads_back(
    token: Seq<char>,
    user_id: i32,
    lifetime: int,
    kind: Seq<char>,
    secret: Seq<char>,
    c: ClaimsView,
)
    requires
        issued_for(token, user_id, lifetime, kind, secret),
        read_back(c, token, secret),
    ensures
        c.1 == user_id,
        c.4 == kind,
        c.3 == c.2 + lifetime,
{
    let (jti, now) = choose|jti: Seq<char>, now: i64|
        now + lifetime <= i64::MAX
        && hs256_token(#[trigger] token_claims(jti, user_id, now, lifetime, kind), secret) == Some(token);
    assert(c == token_claims(jti, user_id, now, lifetime, kind));
}

/// A token issued as one kind is never accepted as another kind with the
/// same secret: an access token does not pass as a refresh token.
pub proof fn law_kind_is_not_interchangeable(
    token: Seq<char>,
    user_id: i32,
    lifetime: int,
    secret: Seq<char>,
    c: ClaimsView,
)
    requires
        issued_for(token, user_id, lifetime, access_kind(), secret),
        read_back(c, token, secret),
    ensures
        c.4 != refresh_kind(),
{
    law_issued_token_reads_back(token, user_id, lifetime, access_kind(), secret, c);
    reveal_strlit("access");
    reveal_strlit("refresh");
    assert(access_kind()[0] != refresh_kind()[0]);
}

} // verus!
