//! Configuration read from environment variables, and the MySQL address
//! derived from it.
use vstd::prelude::*;
use crate::project::configs::{has_prefix, has_suffix};
use crate::text::{
    decimal, append_decimal, str_eq, all_digits, digits_value, is_ascii_digit, digit_value, lemma_decimal_all_digits,
    lemma_decimal_value,
};

verus! {

/// A snapshot of the environment: variable names and their values.
pub struct EnvValues {
    pub vars: Vec<(String, String)>,
}

/// The value of the first variable named `name`, if any.
pub open spec fn env_lookup(vars: Seq<(String, String)>, name: Seq<char>) -> Option<Seq<char>>
    decreases vars.len(),
{
    if vars.len() == 0 {
        None
    } else if vars[0].0@ == name {
        Some(vars[0].1@)
    } else {
        env_lookup(vars.drop_first(), name)
    }
}

/// The value of `name`, or `default` when it is not set.
pub open spec fn env_or(vars: Seq<(String, String)>, name: Seq<char>, default: Seq<char>) -> Seq<char> {
    match env_lookup(vars, name) {
        Some(v) => v,
        None => default,
    }
}

/// Whether `name` is set.
pub open spec fn env_has(vars: Seq<(String, String)>, name: Seq<char>) -> bool {
    env_lookup(vars, name) is Some
}

/// The text `s` without one leading `+`, if it has one.
pub open spec fn unsigned_digits(s: Seq<char>) -> Seq<char> {
    if s.len() > 0 && s[0] == '+' { s.subrange(1, s.len() as int) } else { s }
}

/// How `str::parse::<u16>` reads `s`: an optional `+`, then one or more
/// ASCII digits whose value fits in 16 bits.
pub open spec fn parse_u16_spec(s: Seq<char>) -> Option<u16> {
    let d = unsigned_digits(s);
    if d.len() > 0 && all_digits(d) && digits_value(d) <= 65535 {
        Some(digits_value(d) as u16)
    } else {
        None
    }
}

/// How `str::parse::<bool>` reads `s`.
pub open spec fn parse_bool_spec(s: Seq<char>) -> Option<bool> {
    if s == "true"@ {
        Some(true)
    } else if s == "false"@ {
        Some(false)
    } else {
        None
    }
}

proof fn lemma_digits_value_grows(s: Seq<char>, i: int)
    requires
        0 <= i <= s.len(),
    ensures
        digits_value(s.subrange(0, i)) <= digits_value(s),
    decreases s.len() - i,
{
    if i < s.len() {
        lemma_digits_value_grows(s, i + 1);
        let t = s.subrange(0, i + 1);
        assert(t.drop_last() =~= s.subrange(0, i));
    } else {
        assert(s.subrange(0, i) =~= s);
    }
}

/// Reads an unsigned 16-bit number as `str::parse::<u16>` does.
pub fn parse_u16(s: &str) -> (r: Option<u16>)
    ensures
        r == parse_u16_spec(s@),
{
    let v = crate::text::str_chars(s);
    let n = v.len();
    let mut i: usize = 0;
    if n > 0 && v[0] == '+' {
        i = 1;
    }
    let start = i;
    let ghost d = unsigned_digits(s@);
    assert(d =~= v@.subrange(start as int, n as int));
    if start == n {
        return None;
    }
    let mut acc: u32 = 0;
    while i < n
        invariant
            start <= i <= n,
            n == v@.len(),
            d == v@.subrange(start as int, n as int),
            d == unsigned_digits(s@),
            all_digits(d.subrange(0, i - start)),
            acc == digits_value(d.subrange(0, i - start)),
            acc <= 65535,
        decreases n - i,
    {
        let c = v[i];
        if c < '0' || c > '9' {
            assert(!is_ascii_digit(d[i - start]));
            assert(!all_digits(d));
            return None;
        }
        let dv = (c as u32) - 48;
        let ghost pre = d.subrange(0, i - start);
        let ghost next = d.subrange(0, i - start + 1);
        assert(next.drop_last() =~= pre);
        assert(next.last() == c);
        assert(digit_value(c) == dv);
        let nv = acc * 10 + dv;
        assert(nv == digits_value(next));
        if nv > 65535 {
            proof {
                lemma_digits_value_grows(d, i - start + 1);
                assert(digits_value(d) > 65535);
            }
            return None;
        }
        acc = nv;
        i = i + 1;
        assert forall|j: int| 0 <= j < i - start implies is_ascii_digit(#[trigger] d.subrange(0, i - start)[j]) by {
            if j < i - 1 - start {
                assert(d.subrange(0, i - start)[j] == pre[j]);
            }
        }
    }
    assert(d.subrange(0, n - start) =~= d);
    Some(acc as u16)
}

/// Reads a boolean as `str::parse::<bool>` does.
pub fn parse_bool(s: &str) -> (r: Option<bool>)
    ensures
        r == parse_bool_spec(s@),
{
    if str_eq(s, "true") {
        Some(true)
    } else if str_eq(s, "false") {
        Some(false)
    } else {
        None
    }
}

impl EnvValues {
    /// The value of `name`, if set.
    pub fn get(&self, name: &str) -> (r: Option<&String>)
        ensures
            match r {
                Some(v) => env_lookup(self.vars@, name@) == Some(v@),
                None => env_lookup(self.vars@, name@) is None,
            },
    {
        let n = self.vars.len();
        let mut i: usize = 0;
        assert(self.vars@.subrange(0, n as int) =~= self.vars@);
        while i < n
            invariant
                n == self.vars@.len(),
                i <= n,
                env_lookup(self.vars@, name@) == env_lookup(self.vars@.subrange(i as int, n as int), name@),
            decreases n - i,
        {
            let ghost rest = self.vars@.subrange(i as int, n as int);
            assert(rest.drop_first() =~= self.vars@.subrange(i + 1, n as int));
            if str_eq(self.vars[i].0.as_str(), name) {
                return Some(&self.vars[i].1);
            }
            i = i + 1;
        }
        None
    }

    /// The value of `name`, or `default` when it is not set.
    pub fn get_or(&self, name: &str, default: &str) -> (r: String)
        ensures
            r@ == env_or(self.vars@, name@, default@),
    {
        match self.get(name) {
            Some(v) => v.clone(),
            None => default.to_string(),
        }
    }
}

/// Configuration that is read from the environment.
pub trait FormEnv: Sized {
    /// Whether the environment holds what this configuration needs.
    spec fn env_complete(vars: Seq<(String, String)>) -> bool;

    /// Reads this configuration from the environment.
    fn form_env(env: &EnvValues) -> (r: Self)
        requires
            Self::env_complete(env.vars@),
    ;
}

/// Where and how the HTTP server runs.
pub struct Server {
    pub host: String,
    pub port: u16,
    pub env: String,
}

/// Where logs go.
pub struct Log {
    pub level: String,
    pub path: String,
    pub filename: String,
}

/// The MySQL database.
pub struct Db {
    pub debug: bool,
    pub host: String,
    pub port: u16,
    pub username: String,
    pub password: String,
    pub dbname: String,
}

/// The whole configuration.
pub struct Configs {
    pub server: Server,
    pub log: Log,
    pub db: Db,
}

/// `mysql://{username}:{password}@{host}:{port}/{dbname}`
pub open spec fn mysql_url(username: Seq<char>, password: Seq<char>, host: Seq<char>, port: u16, dbname: Seq<char>) -> Seq<char> {
    "mysql://"@ + username + ":"@ + password + "@"@ + host + ":"@ + decimal(port as nat) + "/"@ + dbname
}

impl Db {
    /// The connection address of the database.
    pub fn url(&self) -> (r: String)
        ensures
            r@ == mysql_url(self.username@, self.password@, self.host@, self.port, self.dbname@),
    {
        let mut s = String::from_str("mysql://");
        s.append(self.username.as_str());
        s.append(":");
        s.append(self.password.as_str());
        s.append("@");
        s.append(self.host.as_str());
        s.append(":");
        append_decimal(&mut s, self.port as u64);
        s.append("/");
        s.append(self.dbname.as_str());
        proof {
            reveal_strlit("mysql://");
            reveal_strlit(":");
            reveal_strlit("@");
            reveal_strlit("/");
        }
        assert(s@ =~= mysql_url(self.username@, self.password@, self.host@, self.port, self.dbname@));
        s
    }
}

impl Server {
    /// The server read from `HOST` (default `127.0.0.1`), `PORT` (default
    /// `8000`) and `ENV` (default `local`).
    pub open spec fn from_env_spec(vars: Seq<(String, String)>, r: Self) -> bool {
        &&& r.host@ == env_or(vars, "HOST"@, "127.0.0.1"@)
        &&& parse_u16_spec(env_or(vars, "PORT"@, "8000"@)) == Some(r.port)
        &&& r.env@ == env_or(vars, "ENV"@, "local"@)
    }
}

impl FormEnv for Server {
    open spec fn env_complete(vars: Seq<(String, String)>) -> bool {
        parse_u16_spec(env_or(vars, "PORT"@, "8000"@)) is Some
    }

    fn form_env(env: &EnvValues) -> (r: Self)
        ensures
            Server::from_env_spec(env.vars@, r),
    {
        let host = env.get_or("HOST", "127.0.0.1");
        let port = env.get_or("PORT", "8000");
        let e = env.get_or("ENV", "local");
        let p = parse_u16(port.as_str());
        Server { host, port: p.unwrap(), env: e }
    }
}

impl Log {
    /// The log settings read from `LEVEL` (default `INFO`), `PATH` and
    /// `FILENAME`.
    pub open spec fn from_env_spec(vars: Seq<(String, String)>, r: Self) -> bool {
        &&& r.level@ == env_or(vars, "LEVEL"@, "INFO"@)
        &&& env_lookup(vars, "PATH"@) == Some(r.path@)
        &&& env_lookup(vars, "FILENAME"@) == Some(r.filename@)
    }
}

impl FormEnv for Log {
    open spec fn env_complete(vars: Seq<(String, String)>) -> bool {
        env_has(vars, "PATH"@) && env_has(vars, "FILENAME"@)
    }

    fn form_env(env: &EnvValues) -> (r: Self)
        ensures
            Log::from_env_spec(env.vars@, r),
    {
        let level = env.get_or("LEVEL", "INFO");
        let path = env.get("PATH").unwrap().clone();
        let filename = env.get("FILENAME").unwrap().clone();
        Log { level, path, filename }
    }
}

impl Db {
    /// The database settings read from `DATABASE_DEBUG` (a boolean, false
    /// when unset or unreadable), `DATABASE_HOST`, `DATABASE_PORT`,
    /// `DATABASE_USERNAME`, `DATABASE_PASSWORD` and `DATABASE_DBNAME`.
    pub open spec fn from_env_spec(vars: Seq<(String, String)>, r: Self) -> bool {
        &&& r.debug == match parse_bool_spec(env_or(vars, "DATABASE_DEBUG"@, "false"@)) {
            Some(b) => b,
            None => false,
        }
        &&& env_lookup(vars, "DATABASE_HOST"@) == Some(r.host@)
        &&& (env_lookup(vars, "DATABASE_PORT"@) matches Some(p) && parse_u16_spec(p) == Some(r.port))
        &&& env_lookup(vars, "DATABASE_USERNAME"@) == Some(r.username@)
        &&& env_lookup(vars, "DATABASE_PASSWORD"@) == Some(r.password@)
        &&& env_lookup(vars, "DATABASE_DBNAME"@) == Some(r.dbname@)
    }
}

impl FormEnv for Db {
    open spec fn env_complete(vars: Seq<(String, String)>) -> bool {
        &&& env_has(vars, "DATABASE_HOST"@)
        &&& (env_lookup(vars, "DATABASE_PORT"@) matches Some(p) && parse_u16_spec(p) is Some)
        &&& env_has(vars, "DATABASE_USERNAME"@)
        &&& env_has(vars, "DATABASE_PASSWORD"@)
        &&& env_has(vars, "DATABASE_DBNAME"@)
    }

    fn form_env(env: &EnvValues) -> (r: Self)
        ensures
            Db::from_env_spec(env.vars@, r),
    {
        let debug = env.get_or("DATABASE_DEBUG", "false");
        let host = env.get("DATABASE_HOST").unwrap().clone();
        let port = env.get("DATABASE_PORT").unwrap();
        let username = env.get("DATABASE_USERNAME").unwrap().clone();
        let password = env.get("DATABASE_PASSWORD").unwrap().clone();
        let dbname = env.get("DATABASE_DBNAME").unwrap().clone();
        let debug = match parse_bool(debug.as_str()) {
            Some(b) => b,
            None => false,
        };
        let port = parse_u16(port.as_str()).unwrap();
        Db { debug, host, port, username, password, dbname }
    }
}

impl FormEnv for Configs {
    open spec fn env_complete(vars: Seq<(String, String)>) -> bool {
        &&& Server::env_complete(vars)
        &&& Log::env_complete(vars)
        &&& Db::env_complete(vars)
    }

    fn form_env(env: &EnvValues) -> (r: Self)
        ensures
            Server::from_env_spec(env.vars@, r.server),
            Log::from_env_spec(env.vars@, r.log),
            Db::from_env_spec(env.vars@, r.db),
    {
        let server = Server::form_env(env);
        let log = Log::form_env(env);
        let db = Db::form_env(env);
        Configs { server, log, db }
    }
}

/// The MySQL address carries the credentials and host after `mysql://`
/// and ends with the port and the database name.
pub proof fn law_mysql_url_parts(username: Seq<char>, password: Seq<char>, host: Seq<char>, port: u16, dbname: Seq<char>)
    ensures
        has_prefix(mysql_url(username, password, host, port, dbname), "mysql://"@ + username + ":"@ + password + "@"@ + host + ":"@),
        has_suffix(mysql_url(username, password, host, port, dbname), ":"@ + decimal(port as nat) + "/"@ + dbname),
{
    let front = "mysql://"@ + username + ":"@ + password + "@"@ + host + ":"@;
    let back = decimal(port as nat) + "/"@ + dbname;
    let u = mysql_url(username, password, host, port, dbname);
    assert(u =~= front + back);
    assert(u.subrange(0, front.len() as int) =~= front);
    let f0 = "mysql://"@ + username + ":"@ + password + "@"@ + host;
    let b0 = ":"@ + decimal(port as nat) + "/"@ + dbname;
    assert(u =~= f0 + b0);
    assert(u.subrange(u.len() - b0.len(), u.len() as int) =~= b0);
}

/// Reading a port reads back the number written in decimal: every 16-bit
/// number's decimal text parses to that number.
pub proof fn law_port_reads_back(n: u16)
    ensures
        parse_u16_spec(decimal(n as nat)) == Some(n),
{
    lemma_decimal_all_digits(n as nat);
    lemma_decimal_value(n as nat);
    assert(is_ascii_digit(decimal(n as nat)[0]));
    assert(unsigned_digits(decimal(n as nat)) == decimal(n as nat));
}

} // verus!
