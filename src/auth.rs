//! Bearer credentials: which routes need one, how the token is read from the
//! header, and what a token says about its holder.
use vstd::prelude::*;
use crate::error::AppError;

verus! {

/// What a signed token carries: the holder's id in text and its expiry in
/// seconds since the Unix epoch.
#[derive(Clone, Debug)]
pub struct Claims {
    pub sub: String,
    pub exp: usize,
}

/// The caller a verified token resolves to.
#[derive(Clone, Copy, Debug, PartialEq, Eq, Structural)]
pub struct AuthUser {
    pub user_id: u128,
}

/// What `uuid::Uuid::parse_str` makes of `s`, as the UUID's 128-bit value.
pub uninterp spec fn uuid_from_text(s: Seq<char>) -> Option<u128>;

pub open spec fn pow16(n: nat) -> int
    decreases n,
{
    if n == 0 {
        1
    } else {
        16 * pow16((n - 1) as nat)
    }
}

/// The `i`-th hexadecimal digit of `v`, counting from the most significant
/// (`0 <= i < 32`).
pub open spec fn nibble(v: u128, i: int) -> int {
    (v as int / pow16((31 - i) as nat)) % 16
}

/// The lower-case hexadecimal character of `n` (`0 <= n < 16`).
pub open spec fn hex_char(n: int) -> char {
    if n < 10 {
        (('0' as int) + n) as char
    } else {
        (('a' as int) + n - 10) as char
    }
}

/// The hyphenated lower-case form of the UUID with value `v`: 32 hexadecimal
/// digits, most significant first, in groups of 8, 4, 4, 4 and 12 joined by
/// hyphens.
pub open spec fn uuid_text(v: u128) -> Seq<char> {
    Seq::new(
        36,
        |j: int|
            if j == 8 || j == 13 || j == 18 || j == 23 {
                '-'
            } else {
                let skipped: int = if j < 8 {
                    0
                } else if j < 13 {
                    1
                } else if j < 18 {
                    2
                } else if j < 23 {
                    3
                } else {
                    4
                };
                hex_char(nibble(v, j - skipped))
            },
    )
}

/// Relies on `uuid::Uuid::parse_str` to read a UUID in any of its accepted
/// forms, and on `Uuid::as_u128` for its value.
#[verifier::external_body]
fn parse_uuid(s: &str) -> (r: Option<u128>)
    ensures
        r == uuid_from_text(s@),
{
    uuid::Uuid::parse_str(s).ok().map(|u| u.as_u128())
}

/// Relies on `uuid::Uuid::from_u128` (the value's big-endian bytes) and
/// `Uuid`'s `Display`, which writes the hyphenated lower-case form.
#[verifier::external_body]
fn write_uuid(v: u128) -> (r: String)
    ensures
        r@ == uuid_text(v),
{
    uuid::Uuid::from_u128(v).to_string()
}

/// Creating an account holder and logging in need no credential.
pub fn is_public_route(path: &str, is_post: bool) -> (r: bool)
    ensures
        r == (path@ == "/users/login"@ || (path@ == "/users"@ && is_post)),
{
    let p = path.to_owned();
    p == "/users/login".to_owned() || (p == "/users".to_owned() && is_post)
}

/// The token of an `Authorization` header of the form `Bearer <token>`.
pub fn bearer_token(header: &str) -> (r: Result<String, AppError>)
    ensures
        r is Ok <==> (header@.len() >= 7 && header@.subrange(0, 7) == "Bearer "@),
        r matches Ok(t) ==> t@ == header@.subrange(7, header@.len() as int),
        r matches Err(e) ==> e is Auth,
{
    let prefix = "Bearer ";
    proof {
        reveal_strlit("Bearer ");
    }
    let n = header.unicode_len();
    if n < 7 {
        return Err(AppError::Auth("Invalid authorization header format".to_owned()));
    }
    let mut i: usize = 0;
    while i < 7
        invariant
            i <= 7,
            n == header@.len(),
            n >= 7,
            prefix@ == "Bearer "@,
            prefix@.len() == 7,
            forall|j: int| 0 <= j < i ==> header@[j] == prefix@[j],
        decreases 7 - i,
    {
        if header.get_char(i) != prefix.get_char(i) {
            proof {
                assert(header@.subrange(0, 7)[i as int] != "Bearer "@[i as int]);
            }
            return Err(AppError::Auth("Invalid authorization header format".to_owned()));
        }
        i = i + 1;
    }
    proof {
        assert(header@.subrange(0, 7) =~= "Bearer "@);
    }
    Ok(header.substring_char(7, n).to_owned())
}

/// The caller named by a token's subject, which must be a UUID.
pub fn subject_user_id(claims: &Claims) -> (r: Result<AuthUser, AppError>)
    ensures
        r is Ok <==> uuid_from_text(claims.sub@) is Some,
        r matches Ok(u) ==> uuid_from_text(claims.sub@) == Some(u.user_id),
        r matches Err(e) ==> e is Auth,
{
    match parse_uuid(claims.sub.as_str()) {
        Some(v) => Ok(AuthUser { user_id: v }),
        None => Err(AppError::Auth("Invalid user ID in token".to_owned())),
    }
}

/// The claims of a token for `user_id` issued at `now` (seconds since the
/// Unix epoch) and valid for `lifetime_hours`; `None` when the lifetime is
/// negative or the expiry does not fit.
pub fn claims_for(user_id: u128, now: u64, lifetime_hours: i64) -> (r: Option<Claims>)
    ensures
        r is Some <==> (lifetime_hours >= 0 && now + lifetime_hours * 3600 <= usize::MAX),
        r matches Some(c) ==> c.sub@ == uuid_text(user_id) && c.exp == now + lifetime_hours * 3600,
{
    if lifetime_hours < 0 {
        return None;
    }
    let span = lifetime_hours as u128 * 3600;
    if now as u128 + span > usize::MAX as u128 {
        return None;
    }
    Some(Claims { sub: write_uuid(user_id), exp: (now as u128 + span) as usize })
}

} // verus!
