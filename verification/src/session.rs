//! Login sessions: their ids, their lifetime and the cookie that carries them.

use vstd::prelude::*;

verus! {

/// The name of the cookie that carries the session id.
pub const SESSION_COOKIE_NAME: &'static str = "session_id";

/// How many days a session lasts.
pub const SESSION_DURATION_DAYS: i64 = 7;

/// How many seconds a session lasts.
pub const SESSION_DURATION_SECS: i64 = 604800;

/// How many random bytes a session id is made of.
pub const SESSION_ID_BYTES: usize = 32;

/// The path that the session cookie is scoped to.
pub const COOKIE_PATH: &'static str = "/";

/// The lowercase hexadecimal digit for a value below 16.
pub open spec fn hex_digit(n: int) -> char {
    if n < 10 {
        (48 + n) as char
    } else {
        (87 + n) as char
    }
}

/// Whether `c` is one of `0`-`9`, `a`-`f`.
pub open spec fn is_lower_hex_char(c: char) -> bool {
    ('0' <= c && c <= '9') || ('a' <= c && c <= 'f')
}

/// Each byte as two lowercase hexadecimal digits, high nibble first.
pub open spec fn spec_hex_lower(b: Seq<u8>) -> Seq<char>
    decreases b.len(),
{
    if b.len() == 0 {
        seq![]
    } else {
        spec_hex_lower(b.drop_last()) + seq![
            hex_digit(b.last() as int / 16),
            hex_digit(b.last() as int % 16),
        ]
    }
}

/// A session id: the lowercase hexadecimal form of some 32 bytes.
pub open spec fn is_session_id(s: Seq<char>) -> bool {
    exists|b: Seq<u8>| b.len() == SESSION_ID_BYTES && s == spec_hex_lower(b)
}

/// The hexadecimal form of `n` bytes has `2 n` characters, each a lowercase
/// hexadecimal digit.
pub proof fn lemma_hex_lower_shape(b: Seq<u8>)
    ensures
        spec_hex_lower(b).len() == 2 * b.len(),
        forall|i: int| 0 <= i < 2 * b.len() ==> is_lower_hex_char(#[trigger] spec_hex_lower(b)[i]),
    decreases b.len(),
{
    if b.len() > 0 {
        lemma_hex_lower_shape(b.drop_last());
        let x = b.last() as int;
        assert(0 <= x / 16 < 16);
        assert(0 <= x % 16 < 16);
    }
}

/// `hex::encode`: each byte as two lowercase hexadecimal digits, high nibble
/// first, as the crate's documentation and source state.
#[verifier::external_body]
fn hex_encode(bytes: &[u8]) -> (s: String)
    ensures
        s@ == spec_hex_lower(bytes@),
{
    hex::encode(bytes)
}

/// `rand::thread_rng().fill_bytes`: `n` bytes from the thread's random
/// generator. Only their number is stated; their values are chance.
#[verifier::external_body]
fn random_bytes(n: usize) -> (b: Vec<u8>)
    ensures
        b.len() == n,
{
    let mut b = vec![0u8; n];
    rand::RngCore::fill_bytes(&mut rand::thread_rng(), &mut b);
    b
}

/// The session id made of the given bytes: their lowercase hexadecimal form.
pub fn session_id_from_bytes(bytes: &[u8]) -> (id: String)
    ensures
        id@ == spec_hex_lower(bytes@),
{
    hex_encode(bytes)
}

/// A fresh session id: 32 random bytes in lowercase hexadecimal, so 64
/// characters, each a lowercase hexadecimal digit.
pub fn generate_session_id() -> (id: String)
    ensures
        is_session_id(id@),
        id@.len() == 64,
        forall|i: int| 0 <= i < id@.len() ==> is_lower_hex_char(#[trigger] id@[i]),
{
    let bytes = random_bytes(SESSION_ID_BYTES);
    let id = session_id_from_bytes(bytes.as_slice());
    proof {
        lemma_hex_lower_shape(bytes@);
    }
    id
}

/// `SystemTime::now().duration_since(UNIX_EPOCH)` in whole seconds, or
/// `None` where the clock stands before 1970. Nothing is stated of the value:
/// it is what the clock reads.
#[verifier::external_body]
fn unix_seconds_now() -> (secs: Option<u64>) {
    match std::time::SystemTime::now().duration_since(std::time::UNIX_EPOCH) {
        Ok(d) => Some(d.as_secs()),
        Err(_) => None,
    }
}

/// A count of seconds since 1970 as a signed timestamp, wrapping as a cast
/// from 64 unsigned bits does; `None` stays `None`.
pub fn timestamp_from_unix_seconds(secs: Option<u64>) -> (t: Option<i64>)
    ensures
        t == (match secs {
            Some(s) => Some(s as i64),
            None => None,
        }),
{
    match secs {
        Some(s) => Some(s as i64),
        None => None,
    }
}

/// The current time in seconds since 1970, or `None` where the clock stands
/// before 1970.
pub fn current_timestamp() -> (t: Option<i64>) {
    timestamp_from_unix_seconds(unix_seconds_now())
}

/// When a session opened at `now` expires: seven days later.
pub fn session_expires_at(now: i64) -> (expires: i64)
    requires
        now + SESSION_DURATION_SECS <= i64::MAX,
    ensures
        expires == now + SESSION_DURATION_SECS,
        expires == now + SESSION_DURATION_DAYS * 24 * 60 * 60,
{
    now + SESSION_DURATION_DAYS * 24 * 60 * 60
}

/// The `SameSite` policy of a cookie.
#[derive(Debug)]
pub enum SameSite {
    Strict,
    Lax,
    /// `SameSite=None`: sent with cross-site requests too.
    Unrestricted,
}

/// A cookie that the service sets, with the attributes it is set with.
#[derive(Debug)]
pub struct SessionCookie {
    pub name: String,
    pub value: String,
    pub path: String,
    pub http_only: bool,
    pub secure: bool,
    pub same_site: SameSite,
    pub max_age_secs: i64,
}

/// Whether `c` is the session cookie with the given value and lifetime:
/// named `session_id`, scoped to `/`, HTTP-only, sent over HTTPS only,
/// `SameSite=Lax`.
pub open spec fn is_session_cookie(c: SessionCookie, value: Seq<char>, max_age: int) -> bool {
    &&& c.name@ == SESSION_COOKIE_NAME@
    &&& c.value@ == value
    &&& c.path@ == COOKIE_PATH@
    &&& c.http_only
    &&& c.secure
    &&& c.same_site is Lax
    &&& c.max_age_secs == max_age
}

/// The cookie that hands a new session to the browser for seven days.
pub fn session_cookie(session_id: String) -> (c: SessionCookie)
    ensures
        is_session_cookie(c, session_id@, SESSION_DURATION_SECS as int),
{
    SessionCookie {
        name: String::from_str(SESSION_COOKIE_NAME),
        value: session_id,
        path: String::from_str(COOKIE_PATH),
        http_only: true,
        secure: true,
        same_site: SameSite::Lax,
        max_age_secs: SESSION_DURATION_DAYS * 24 * 60 * 60,
    }
}

/// The cookie that makes the browser forget its session: empty, expired.
pub fn cleared_session_cookie() -> (c: SessionCookie)
    ensures
        is_session_cookie(c, Seq::<char>::empty(), 0),
{
    let value = String::new();
    SessionCookie {
        name: String::from_str(SESSION_COOKIE_NAME),
        value,
        path: String::from_str(COOKIE_PATH),
        http_only: true,
        secure: true,
        same_site: SameSite::Lax,
        max_age_secs: 0,
    }
}

/// The session cookie is named `session_id`, scoped to the whole site, kept
/// from scripts (HTTP-only), sent over HTTPS only and `SameSite=Lax`, and it
/// carries exactly the given value and lifetime.
pub proof fn lemma_session_cookie_attributes(c: SessionCookie, value: Seq<char>, max_age: int)
    requires
        is_session_cookie(c, value, max_age),
    ensures
        c.name@ == "session_id"@,
        c.path@ == "/"@,
        c.http_only,
        c.secure,
        c.same_site is Lax,
        c.value@ == value,
        c.max_age_secs == max_age,
{
}

/// Hexadecimal form is taken byte by byte: the form of two byte strings
/// side by side is their forms side by side.
pub proof fn lemma_hex_lower_concat(a: Seq<u8>, b: Seq<u8>)
    ensures
        spec_hex_lower(a + b) == spec_hex_lower(a) + spec_hex_lower(b),
    decreases b.len(),
{
    if b.len() == 0 {
        assert(a + b == a);
        assert(spec_hex_lower(b) == Seq::<char>::empty());
        assert(spec_hex_lower(a) + Seq::<char>::empty() == spec_hex_lower(a));
    } else {
        lemma_hex_lower_concat(a, b.drop_last());
        assert((a + b).drop_last() == a + b.drop_last());
        assert((a + b).last() == b.last());
    }
}

/// One byte is written as two digits of "0123456789abcdef": first the one
/// for its high four bits, then the one for its low four bits.
pub proof fn lemma_hex_lower_byte(x: u8)
    ensures
        spec_hex_lower(seq![x]) == seq![
            "0123456789abcdef"@[x as int / 16],
            "0123456789abcdef"@[x as int % 16],
        ],
{
    reveal_strlit("0123456789abcdef");
    let one = seq![x];
    assert(one.drop_last() == Seq::<u8>::empty());
    assert(one.last() == x);
    let hi = x as int / 16;
    let lo = x as int % 16;
    assert(0 <= hi < 16 && 0 <= lo < 16);
    assert forall|n: int| 0 <= n < 16 implies hex_digit(n) == #[trigger] "0123456789abcdef"@[n] by {
        if n == 0 { } else if n == 1 { } else if n == 2 { } else if n == 3 { }
        else if n == 4 { } else if n == 5 { } else if n == 6 { } else if n == 7 { }
        else if n == 8 { } else if n == 9 { } else if n == 10 { } else if n == 11 { }
        else if n == 12 { } else if n == 13 { } else if n == 14 { } else { }
    }
    assert(hex_digit(hi) == "0123456789abcdef"@[hi]);
    assert(hex_digit(lo) == "0123456789abcdef"@[lo]);
    let empty = Seq::<u8>::empty();
    assert(spec_hex_lower(empty) == Seq::<char>::empty());
    assert(spec_hex_lower(one) == spec_hex_lower(one.drop_last()) + seq![hex_digit(one.last() as int / 16),
        hex_digit(one.last() as int % 16)]);
    assert(spec_hex_lower(one) =~= seq![hex_digit(hi), hex_digit(lo)]);
}

} // verus!
