//! The service's configuration and the connection addresses it derives.
use vstd::prelude::*;
use crate::text::{decimal, append_decimal, str_eq, all_ascii};

verus! {

/// Where and how the HTTP server runs.
pub struct App {
    pub host: String,
    pub port: u16,
    pub env: String,
}

/// Where logs go.
pub struct Log {
    pub level: String,
    pub path: String,
    pub filename: String,
}

/// The PostgreSQL database.
pub struct Database {
    pub debug: bool,
    pub host: String,
    pub port: u16,
    pub username: String,
    pub password: String,
    pub dbname: String,
}

/// Token secrets and lifetimes.
pub struct Jwt {
    pub secret: String,
    pub expires_in_hours: u64,
    pub refresh_secret: String,
    pub refresh_expires_in_days: u64,
}

/// The Redis server.
pub struct Redis {
    pub host: String,
    pub port: u16,
    pub password: Option<String>,
    pub db: Option<u16>,
}

/// One outside sign-in provider.
pub struct Oauth2Provider {
    pub client_id: String,
    pub client_secret: String,
    pub auth_url: String,
    pub token_url: String,
    pub redirect_url: String,
    pub scopes: Vec<String>,
}

/// The outside sign-in providers, by name. Read from the configuration's
/// table of providers, no two share a name (`names_unique`); a lookup by name
/// then finds the one provider of that name (`law_lookup_by_unique_name`).
pub struct Oauth2 {
    pub providers: Vec<(String, Oauth2Provider)>,
}

/// The whole configuration.
pub struct Configs {
    pub app: App,
    pub log: Log,
    pub database: Database,
    pub jwt: Jwt,
    pub redis: Redis,
    pub oauth2: Oauth2,
}

/// Whether an environment name denotes production.
pub open spec fn spec_is_prod(env: Seq<char>) -> bool {
    env == "prod"@
}

/// `postgres://{username}:{password}@{host}:{port}/{dbname}`
pub open spec fn postgres_url(username: Seq<char>, password: Seq<char>, host: Seq<char>, port: u16, dbname: Seq<char>) -> Seq<char> {
    "postgres://"@ + username + ":"@ + password + "@"@ + host + ":"@ + decimal(port as nat) + "/"@ + dbname
}

/// Whether `c` is an ASCII letter or digit.
pub open spec fn is_ascii_alphanumeric(c: char) -> bool {
    ('0' <= c && c <= '9') || ('A' <= c && c <= 'Z') || ('a' <= c && c <= 'z')
}

/// The upper-case hexadecimal digit for a value below sixteen.
pub open spec fn hex_upper(d: nat) -> char {
    if d < 10 { (48 + d) as char } else { (55 + d) as char }
}

/// Percent-encoding of ASCII text in which every character but a letter or
/// digit becomes `%XX`.
pub open spec fn ascii_percent_encoded(s: Seq<char>) -> Seq<char>
    decreases s.len(),
{
    if s.len() == 0 {
        Seq::empty()
    } else {
        let c = s.last();
        ascii_percent_encoded(s.drop_last()) + if is_ascii_alphanumeric(c) {
            seq![c]
        } else {
            seq!['%', hex_upper((c as nat) / 16), hex_upper((c as nat) % 16)]
        }
    }
}

/// What `percent_encoding::utf8_percent_encode(s, NON_ALPHANUMERIC)`
/// renders for the text `s`.
pub uninterp spec fn percent_encoded_non_alphanumeric(s: Seq<char>) -> Seq<char>;

/// Calls `percent_encoding::utf8_percent_encode` with the `NON_ALPHANUMERIC`
/// set and renders the result. Its result is named; for ASCII text the
/// contract also states it: every character but an ASCII letter or digit
/// becomes `%` and two upper-case hexadecimal digits (the crate's
/// `percent_encode_byte` table). What it does to the UTF-8 bytes of
/// non-ASCII text is left to the name.
#[verifier::external_body]
fn percent_encode_non_alphanumeric(s: &str) -> (r: String)
    ensures
        r@ == percent_encoded_non_alphanumeric(s@),
        all_ascii(s@) ==> r@ == ascii_percent_encoded(s@),
{
    percent_encoding::utf8_percent_encode(s, percent_encoding::NON_ALPHANUMERIC).to_string()
}

/// The Redis address for a host, port, already encoded password and
/// database number.
pub open spec fn redis_url(host: Seq<char>, port: u16, encoded_password: Option<Seq<char>>, db: Option<u16>) -> Seq<char> {
    let hostport = host + ":"@ + decimal(port as nat);
    let base = match encoded_password {
        Some(pw) => "redis://:"@ + pw + "@"@ + hostport,
        None => "redis://"@ + hostport,
    };
    match db {
        Some(d) => base + "/"@ + decimal(d as nat),
        None => base,
    }
}

impl App {
    /// Whether the service runs in production.
    pub fn is_prod(&self) -> (r: bool)
        ensures
            r == spec_is_prod(self.env@),
    {
        str_eq(self.env.as_str(), "prod")
    }
}

impl Database {
    /// The connection address of the database.
    pub fn url(&self) -> (r: String)
        ensures
            r@ == postgres_url(self.username@, self.password@, self.host@, self.port, self.dbname@),
    {
        let mut s = String::from_str("postgres://");
        s.append(self.username.as_str());
        s.append(":");
        s.append(self.password.as_str());
        s.append("@");
        s.append(self.host.as_str());
        s.append(":");
        append_decimal(&mut s, self.port as u64);
        s.append("/");
        s.append(self.dbname.as_str());
        proof {
            reveal_strlit("postgres://");
            reveal_strlit(":");
            reveal_strlit("@");
            reveal_strlit("/");
        }
        assert(s@ =~= postgres_url(self.username@, self.password@, self.host@, self.port, self.dbname@));
        s
    }
}

impl Redis {
    /// The connection address of Redis, given the password already
    /// percent-encoded.
    pub fn url_with_encoded_password(&self, encoded_password: Option<&str>) -> (r: String)
        ensures
            r@ == redis_url(self.host@, self.port, match encoded_password {
                Some(p) => Some(p@),
                None => None,
            }, self.db),
    {
        proof {
            reveal_strlit("redis://:");
            reveal_strlit("redis://");
            reveal_strlit(":");
            reveal_strlit("@");
            reveal_strlit("/");
        }
        let mut s = String::new();
        match encoded_password {
            Some(pw) => {
                s.append("redis://:");
                s.append(pw);
                s.append("@");
            },
            None => {
                s.append("redis://");
            },
        }
        s.append(self.host.as_str());
        s.append(":");
        append_decimal(&mut s, self.port as u64);
        match self.db {
            Some(d) => {
                s.append("/");
                append_decimal(&mut s, d as u64);
            },
            None => {},
        }
        assert(s@ =~= redis_url(self.host@, self.port, match encoded_password {
            Some(p) => Some(p@),
            None => None,
        }, self.db));
        s
    }

    /// The connection address of Redis: the password, if any, is
    /// percent-encoded and put before the host; the database number, if
    /// any, follows the port.
    pub fn url(&self) -> (r: String)
        ensures
            r@ == redis_url(self.host@, self.port, match self.password {
                Some(p) => Some(percent_encoded_non_alphanumeric(p@)),
                None => None,
            }, self.db),
    {
        match &self.password {
            Some(pw) => {
                let encoded = percent_encode_non_alphanumeric(pw.as_str());
                self.url_with_encoded_password(Some(encoded.as_str()))
            },
            None => self.url_with_encoded_password(None),
        }
    }
}

/// Whether `s` begins with `p`.
pub open spec fn has_prefix(s: Seq<char>, p: Seq<char>) -> bool {
    p.len() <= s.len() && s.subrange(0, p.len() as int) == p
}

/// Whether `s` ends with `p`.
pub open spec fn has_suffix(s: Seq<char>, p: Seq<char>) -> bool {
    p.len() <= s.len() && s.subrange(s.len() - p.len(), s.len() as int) == p
}

proof fn lemma_concat_ends(a: Seq<char>, b: Seq<char>)
    ensures
        has_suffix(a + b, b),
        has_prefix(a + b, a),
{
    assert((a + b).subrange((a + b).len() - b.len(), (a + b).len() as int) =~= b);
    assert((a + b).subrange(0, a.len() as int) =~= a);
}

/// The Redis address names the database: with a database number it ends
/// with `/` and that number, without one it ends with the port; a password
/// comes right after `redis://:` and before `@` and the host, and without a
/// password the host comes right after `redis://`.
pub proof fn law_redis_url_parts(host: Seq<char>, port: u16, encoded_password: Option<Seq<char>>, db: Option<u16>)
    ensures
        db matches Some(d) ==> has_suffix(redis_url(host, port, encoded_password, db), "/"@ + decimal(d as nat)),
        db is None ==> has_suffix(redis_url(host, port, encoded_password, db), ":"@ + decimal(port as nat)),
        encoded_password matches Some(pw) ==> has_prefix(
            redis_url(host, port, encoded_password, db),
            "redis://:"@ + pw + "@"@ + host + ":"@,
        ),
        encoded_password is None ==> has_prefix(redis_url(host, port, encoded_password, db), "redis://"@ + host + ":"@),
{
    let p = decimal(port as nat);
    let lead = match encoded_password {
        Some(pw) => "redis://:"@ + pw + "@"@ + host,
        None => "redis://"@ + host,
    };
    let front = lead + ":"@;
    let base = match encoded_password {
        Some(pw) => "redis://:"@ + pw + "@"@ + (host + ":"@ + p),
        None => "redis://"@ + (host + ":"@ + p),
    };
    assert(base =~= front + p);
    match db {
        Some(d) => {
            let tail = "/"@ + decimal(d as nat);
            assert(redis_url(host, port, encoded_password, db) =~= base + tail);
            lemma_concat_ends(base, tail);
            assert((base + tail).subrange(0, front.len() as int) =~= front);
        },
        None => {
            assert(redis_url(host, port, encoded_password, db) =~= base);
            lemma_concat_ends(front, p);
            assert(base =~= lead + (":"@ + p));
            lemma_concat_ends(lead, ":"@ + p);
        },
    }
}

/// The PostgreSQL address carries the credentials and host after
/// `postgres://` and ends with the port and the database name.
pub proof fn law_postgres_url_parts(username: Seq<char>, password: Seq<char>, host: Seq<char>, port: u16, dbname: Seq<char>)
    ensures
        has_prefix(postgres_url(username, password, host, port, dbname), "postgres://"@ + username + ":"@ + password + "@"@ + host + ":"@),
        has_suffix(postgres_url(username, password, host, port, dbname), ":"@ + decimal(port as nat) + "/"@ + dbname),
{
    let front = "postgres://"@ + username + ":"@ + password + "@"@ + host;
    let back = ":"@ + decimal(port as nat) + "/"@ + dbname;
    assert(postgres_url(username, password, host, port, dbname) =~= front + back);
    lemma_concat_ends(front, back);
    let f2 = front + ":"@;
    let b2 = decimal(port as nat) + "/"@ + dbname;
    assert(front + back =~= f2 + b2);
    lemma_concat_ends(f2, b2);
}

} // verus!
