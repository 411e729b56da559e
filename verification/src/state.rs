//! The addresses the server connects to, and the cache-aside rule of its Redis cache.
use vstd::prelude::*;
use crate::text::{chars_of, string_of, concat_str, append_chars, push_decimal};

verus! {

/// The address of the Redis server: `redis://:<password>@<host>/<db>`.
pub open spec fn redis_url_of(password: Seq<char>, host: Seq<char>, db: Seq<char>) -> Seq<char> {
    "redis://:"@ + password + "@"@ + host + "/"@ + db
}

/// The address of the Redis server.
pub fn redis_url(password: &str, host: &str, db: &str) -> (r: String)
    ensures
        r@ == redis_url_of(password@, host@, db@),
{
    let a = concat_str(&chars_of("redis://:"), password);
    let b = concat_str(&a, "@");
    let c = concat_str(&b, host);
    let d = concat_str(&c, "/");
    let e = concat_str(&d, db);
    string_of(&e)
}

/// The address of the PostgreSQL database: `postgres://<user>:<password>@<host>:<port>/<database>`.
pub open spec fn postgres_url_of(user: Seq<char>, password: Seq<char>, host: Seq<char>, port: Seq<char>, database: Seq<char>) -> Seq<char> {
    "postgres://"@ + user + ":"@ + password + "@"@ + host + ":"@ + port + "/"@ + database
}

/// The address of the PostgreSQL database.
pub fn postgres_url(user: &str, password: &str, host: &str, port: &str, database: &str) -> (r: String)
    ensures
        r@ == postgres_url_of(user@, password@, host@, port@, database@),
{
    let a = concat_str(&chars_of("postgres://"), user);
    let b = concat_str(&a, ":");
    let c = concat_str(&b, password);
    let d = concat_str(&c, "@");
    let e = concat_str(&d, host);
    let f = concat_str(&e, ":");
    let g = concat_str(&f, port);
    let h = concat_str(&g, "/");
    let i = concat_str(&h, database);
    string_of(&i)
}

/// The address the server listens on: `SERVER_HOST` (default 0.0.0.0) and
/// `SERVER_PORT` (default 3000).
pub open spec fn listen_address_of(host: Option<Seq<char>>, port: Option<Seq<char>>) -> Seq<char> {
    (match host {
        Some(h) => h,
        None => "0.0.0.0"@,
    }) + ":"@ + (match port {
        Some(p) => p,
        None => "3000"@,
    })
}

/// The address the server listens on.
pub fn listen_address(host: Option<&str>, port: Option<&str>) -> (r: String)
    ensures
        r@ == listen_address_of(
            match host { Some(h) => Some(h@), None => None },
            match port { Some(p) => Some(p@), None => None },
        ),
{
    let h = match host {
        Some(h) => chars_of(h),
        None => chars_of("0.0.0.0"),
    };
    let a = concat_str(&h, ":");
    let b = match port {
        Some(p) => concat_str(&a, p),
        None => concat_str(&a, "3000"),
    };
    string_of(&b)
}

/// The user agent of the server's HTTP client.
pub const USER_AGENT: &'static str = "Mozilla/5.0 (Windows NT 12.0; Win64; x64) AppleWebKit/537.36 (KHTML, like Gecko) Chrome/70.0.3538.102 Safari/537.36 Edge/18.18362";

/// How long a cached value lives when no time is given: twelve hours.
pub open spec fn default_expiration() -> u64 {
    43200
}

/// How long a cached value lives, in seconds: the time given, else twelve hours.
pub fn expiration_secs(expiration: Option<u64>) -> (r: u64)
    ensures
        r == match expiration {
            Some(e) => e,
            None => default_expiration(),
        },
{
    match expiration {
        Some(e) => e,
        None => 60 * 60 * 12,
    }
}

/// What the cache-aside rule does next.
pub enum CacheStep<T> {
    /// Call the loader.
    Load,
    /// Store this freshly loaded value under the key, then answer with it.
    Store(T),
    /// Answer with this.
    Answer(Option<T>),
}

/// After looking the key up: a value found (and read) is the answer; a miss, or a
/// failed lookup, loads.
pub fn after_lookup<T>(found: Option<T>) -> (r: CacheStep<T>)
    ensures
        match found {
            Some(v) => r == CacheStep::Answer(Some(v)),
            None => r == CacheStep::<T>::Load,
        },
{
    match found {
        Some(v) => CacheStep::Answer(Some(v)),
        None => CacheStep::Load,
    }
}

/// After loading: a loaded value is stored, then answered; nothing loaded is
/// answered with nothing, and nothing is stored.
pub fn after_load<T>(loaded: Option<T>) -> (r: CacheStep<T>)
    ensures
        match loaded {
            Some(v) => r == CacheStep::Store(v),
            None => r == CacheStep::<T>::Answer(None),
        },
{
    match loaded {
        Some(v) => CacheStep::Store(v),
        None => CacheStep::Answer(None),
    }
}

/// The Redis address carries the password, host and database; the PostgreSQL one
/// the user, password, host, port and database; the server listens on 0.0.0.0 and
/// port 3000 unless told otherwise; cached values live twelve hours by default.
pub proof fn law_addresses(a: Seq<char>, b: Seq<char>, c: Seq<char>, d: Seq<char>, e: Seq<char>)
    ensures
        redis_url_of(a, b, c) == "redis://:"@ + a + "@"@ + b + "/"@ + c,
        postgres_url_of(a, b, c, d, e) == "postgres://"@ + a + ":"@ + b + "@"@ + c + ":"@ + d + "/"@ + e,
        listen_address_of(None, None) == "0.0.0.0:3000"@,
        listen_address_of(Some(a), Some(b)) == a + ":"@ + b,
        default_expiration() == 12 * 60 * 60,
{
    reveal_strlit("0.0.0.0:3000");
    reveal_strlit("0.0.0.0");
    reveal_strlit(":");
    reveal_strlit("3000");
    assert("0.0.0.0:3000"@ =~= "0.0.0.0"@ + ":"@ + "3000"@);
}

} // verus!
