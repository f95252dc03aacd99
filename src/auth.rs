use vstd::prelude::*;
use vstd::utf8::encode_utf8_decode_utf8;

use crate::text::{trim, trimmed};

verus! {

/// HTTP status of an accepted callback.
pub const STATUS_OK: u16 = 200;

/// HTTP status of a callback with a missing or wrong token.
pub const STATUS_UNAUTHORIZED: u16 = 401;

pub open spec fn bearer_upper() -> Seq<char> {
    seq!['B', 'e', 'a', 'r', 'e', 'r', ' ']
}

pub open spec fn bearer_lower() -> Seq<char> {
    seq!['b', 'e', 'a', 'r', 'e', 'r', ' ']
}

pub open spec fn has_prefix(s: Seq<char>, p: Seq<char>) -> bool {
    p.len() <= s.len() && s.take(p.len() as int) == p
}

/// The token of an `Authorization` value of the form `Bearer <token>` (or
/// `bearer <token>`), trimmed.
pub open spec fn bearer_token(raw: Seq<char>) -> Option<Seq<char>> {
    if has_prefix(raw, bearer_upper()) || has_prefix(raw, bearer_lower()) {
        Some(trimmed(raw.skip(7)))
    } else {
        None
    }
}

/// The token carried by the request headers: a bearer token from
/// `Authorization` first, else the trimmed `X-Access-Token` value.
pub open spec fn header_token(
    authorization: Option<Seq<char>>,
    x_access_token: Option<Seq<char>>,
) -> Option<Seq<char>> {
    match authorization {
        Some(a) if bearer_token(a) is Some => bearer_token(a),
        _ => match x_access_token {
            Some(x) => Some(trimmed(x)),
            None => None,
        },
    }
}

pub open spec fn opt_str_view(s: Option<&str>) -> Option<Seq<char>> {
    match s {
        Some(v) => Some(v@),
        None => None,
    }
}

/// Whether `s` starts with `p`.
fn starts_with(s: &str, p: &str) -> (r: bool)
    ensures
        r == has_prefix(s@, p@),
{
    let n = s.unicode_len();
    let m = p.unicode_len();
    if m > n {
        return false;
    }
    let mut i: usize = 0;
    while i < m
        invariant
            i <= m <= n,
            n == s@.len(),
            m == p@.len(),
            forall|k: int| 0 <= k < i ==> s@[k] == p@[k],
        decreases m - i,
    {
        if s.get_char(i) != p.get_char(i) {
            assert(s@.take(m as int)[i as int] != p@[i as int]);
            return false;
        }
        i = i + 1;
    }
    assert(s@.take(m as int) =~= p@);
    true
}

/// Token presented in the `Authorization` header, or failing that in the
/// `X-Access-Token` header. A header that is absent, or that could not be
/// read as text, is passed as `None`.
pub fn extract_access_token(authorization: Option<&str>, x_access_token: Option<&str>) -> (r:
    Option<String>)
    ensures
        match r {
            Some(t) => header_token(opt_str_view(authorization), opt_str_view(x_access_token))
                == Some(t@),
            None => header_token(opt_str_view(authorization), opt_str_view(x_access_token))
                is None,
        },
{
    let upper = "Bearer ";
    let lower = "bearer ";
    proof {
        reveal_strlit("Bearer ");
        reveal_strlit("bearer ");
    }
    assert(upper@ =~= bearer_upper());
    assert(lower@ =~= bearer_lower());
    if let Some(raw) = authorization {
        if starts_with(raw, upper) || starts_with(raw, lower) {
            let n = raw.unicode_len();
            let rest = raw.substring_char(7, n);
            assert(rest@ =~= raw@.skip(7));
            return Some(trim(rest));
        }
    }
    match x_access_token {
        Some(raw) => Some(trim(raw)),
        None => None,
    }
}

/// Compares two tokens in time that depends on their lengths only, never on
/// the position of the first difference.
pub fn constant_time_eq(a: &str, b: &str) -> (r: bool)
    ensures
        r == (a@ == b@),
{
    let a_bytes = a.as_bytes();
    let b_bytes = b.as_bytes();
    let a_len = a_bytes.len();
    let b_len = b_bytes.len();
    let max_len = if a_len >= b_len { a_len } else { b_len };
    let len_diff: usize = a_len ^ b_len;
    let mut diff: u8 = 0;
    let mut idx: usize = 0;
    while idx < max_len
        invariant
            idx <= max_len,
            max_len == if a_len >= b_len { a_len } else { b_len },
            a_len == a_bytes@.len(),
            b_len == b_bytes@.len(),
            diff == 0 <==> forall|j: int|
                0 <= j < idx ==> padded(a_bytes@, j) == padded(b_bytes@, j),
        decreases max_len - idx,
    {
        let left: u8 = if idx < a_len { a_bytes[idx] } else { 0 };
        let right: u8 = if idx < b_len { b_bytes[idx] } else { 0 };
        let prev = diff;
        diff = diff | (left ^ right);
        assert((prev | (left ^ right)) == 0u8 <==> (prev == 0u8 && left == right)) by (bit_vector);
        assert(left == padded(a_bytes@, idx as int));
        assert(right == padded(b_bytes@, idx as int));
        idx = idx + 1;
    }
    assert((a_len ^ b_len) == 0usize <==> a_len == b_len) by (bit_vector);
    let r = len_diff == 0 && diff == 0;
    proof {
        if r {
            assert(a_bytes@ =~= b_bytes@) by {
                assert forall|j: int| 0 <= j < a_len implies a_bytes@[j] == b_bytes@[j] by {
                    assert(padded(a_bytes@, j) == padded(b_bytes@, j));
                }
            }
            encode_utf8_decode_utf8(a@);
            encode_utf8_decode_utf8(b@);
        }
    }
    r
}

/// The byte at `j`, or zero past the end.
pub open spec fn padded(s: Seq<u8>, j: int) -> u8 {
    if 0 <= j < s.len() {
        s[j]
    } else {
        0
    }
}

/// Whether a callback carries the expected token. A header token, when
/// present, decides alone; the `access_token` query parameter is consulted
/// only without one.
pub open spec fn callback_authorized(
    authorization: Option<Seq<char>>,
    x_access_token: Option<Seq<char>>,
    query_token: Option<Seq<char>>,
    hs_token: Seq<char>,
) -> bool {
    match header_token(authorization, x_access_token) {
        Some(t) => t == hs_token,
        None => query_token == Some(hs_token),
    }
}

/// Status of an inbound transaction callback: `200` when it is authorized,
/// `401` otherwise. The response body is an empty JSON object either way.
pub fn transaction_status(
    authorization: Option<&str>,
    x_access_token: Option<&str>,
    query_token: Option<&str>,
    hs_token: &str,
) -> (r: u16)
    ensures
        r == (if callback_authorized(
            opt_str_view(authorization),
            opt_str_view(x_access_token),
            opt_str_view(query_token),
            hs_token@,
        ) {
            STATUS_OK
        } else {
            STATUS_UNAUTHORIZED
        }),
{
    let matches = match extract_access_token(authorization, x_access_token) {
        Some(token) => constant_time_eq(token.as_str(), hs_token),
        None => match query_token {
            Some(token) => constant_time_eq(token, hs_token),
            None => false,
        },
    };
    if matches {
        STATUS_OK
    } else {
        STATUS_UNAUTHORIZED
    }
}

} // verus!
