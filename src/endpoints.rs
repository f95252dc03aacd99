use vstd::prelude::*;

use crate::text::{decimal, push_decimal};

verus! {

/// `s` without its trailing `c` characters.
pub open spec fn strip_trailing(s: Seq<char>, c: char) -> Seq<char>
    decreases s.len(),
{
    if s.len() > 0 && s.last() == c {
        strip_trailing(s.drop_last(), c)
    } else {
        s
    }
}

pub open spec fn has_suffix(s: Seq<char>, p: Seq<char>) -> bool {
    p.len() <= s.len() && s.skip(s.len() - p.len()) == p
}

proof fn lemma_strip_trailing_skip(s: Seq<char>, c: char, j: int)
    requires
        0 <= j <= s.len(),
        forall|k: int| j <= k < s.len() ==> s[k] == c,
    ensures
        strip_trailing(s, c) == strip_trailing(s.subrange(0, j), c),
    decreases s.len() - j,
{
    if j < s.len() {
        lemma_strip_trailing_skip(s.drop_last(), c, j);
        assert(s.drop_last().subrange(0, j) =~= s.subrange(0, j));
    } else {
        assert(s.subrange(0, j) =~= s);
    }
}

/// Removes every trailing `c`.
fn trim_end_char(s: &str, c: char) -> (r: String)
    ensures
        r@ == strip_trailing(s@, c),
{
    let n = s.unicode_len();
    let mut hi: usize = n;
    while hi > 0 && s.get_char(hi - 1) == c
        invariant
            hi <= n,
            n == s@.len(),
            forall|k: int| hi <= k < n ==> s@[k] == c,
        decreases hi,
    {
        hi = hi - 1;
    }
    let r = String::from_str(s.substring_char(0, hi));
    proof {
        lemma_strip_trailing_skip(s@, c, hi as int);
        let head = s@.subrange(0, hi as int);
        if head.len() > 0 {
            assert(head.last() == s@[hi - 1]);
        }
    }
    r
}

/// Whether `s` ends with `p`.
fn ends_with(s: &str, p: &str) -> (r: bool)
    ensures
        r == has_suffix(s@, p@),
{
    let n = s.unicode_len();
    let m = p.unicode_len();
    if m > n {
        return false;
    }
    let off = n - m;
    let mut i: usize = 0;
    while i < m
        invariant
            i <= m <= n,
            off == n - m,
            n == s@.len(),
            m == p@.len(),
            forall|k: int| 0 <= k < i ==> s@[off + k] == p@[k],
        decreases m - i,
    {
        if s.get_char(off + i) != p.get_char(i) {
            assert(s@.skip(off as int)[i as int] != p@[i as int]);
            return false;
        }
        i = i + 1;
    }
    assert(s@.skip(off as int) =~= p@);
    true
}

/// Root of the PotatoMesh API: the base URL without trailing slashes, with
/// `/api` added unless it already ends so.
pub open spec fn api_base_of(base_url: Seq<char>) -> Seq<char> {
    let t = strip_trailing(base_url, '/');
    if has_suffix(t, "/api"@) {
        t
    } else {
        t + "/api"@
    }
}

/// Root of the PotatoMesh API for a configured base URL, which may be a bare
/// domain or already end in `/api`.
pub fn api_base(base_url: &str) -> (r: String)
    ensures
        r@ == api_base_of(base_url@),
{
    let trimmed = trim_end_char(base_url, '/');
    if ends_with(trimmed.as_str(), "/api") {
        trimmed
    } else {
        let mut r = trimmed;
        r.append("/api");
        r
    }
}

/// URL of the message list.
pub fn messages_url(base_url: &str) -> (r: String)
    ensures
        r@ == api_base_of(base_url@) + "/messages"@,
{
    let mut r = api_base(base_url);
    r.append("/messages");
    r
}

/// URL of one node's metadata.
pub fn node_url(base_url: &str, hex_id: &str) -> (r: String)
    ensures
        r@ == api_base_of(base_url@) + "/nodes/"@ + hex_id@,
{
    let mut r = api_base(base_url);
    r.append("/nodes/");
    r.append(hex_id);
    r
}

/// URL of the PotatoMesh liveness probe.
pub fn health_url(base_url: &str) -> (r: String)
    ensures
        r@ == strip_trailing(base_url@, '/') + "/version"@,
{
    let mut r = trim_end_char(base_url, '/');
    r.append("/version");
    r
}

/// Percent-encoding of `s`, as a URL path segment or query value.
pub uninterp spec fn url_encoded(s: Seq<char>) -> Seq<char>;

/// Relies on `urlencoding::encode`: percent-encodes every byte of the UTF-8
/// form of `s` except ASCII alphanumerics and `-`, `_`, `.`, `~`; the result
/// depends on `s` alone.
#[verifier::external_body]
fn encode(s: &str) -> (r: String)
    ensures
        r@ == url_encoded(s@),
{
    urlencoding::encode(s).into_owned()
}

/// Query part that authenticates the appservice.
pub open spec fn auth_query_of(as_token: Seq<char>) -> Seq<char> {
    "access_token="@ + url_encoded(as_token)
}

/// `access_token=<encoded token>`, from the encoded token.
pub fn auth_query_with(encoded_token: &str) -> (r: String)
    ensures
        r@ == "access_token="@ + encoded_token@,
{
    let mut r = String::from_str("access_token=");
    r.append(encoded_token);
    r
}

/// `access_token=<encoded token>`.
pub fn auth_query(as_token: &str) -> (r: String)
    ensures
        r@ == auth_query_of(as_token@),
{
    let enc = encode(as_token);
    auth_query_with(enc.as_str())
}

/// Registration URL, from the homeserver and the authenticating query.
pub fn register_url_with(homeserver: &str, auth: &str) -> (r: String)
    ensures
        r@ == homeserver@ + "/_matrix/client/v3/register?kind=user&"@ + auth@,
{
    let mut r = String::from_str(homeserver);
    r.append("/_matrix/client/v3/register?kind=user&");
    r.append(auth);
    r
}

/// URL that registers a puppet through the appservice.
pub fn register_url(homeserver: &str, as_token: &str) -> (r: String)
    ensures
        r@ == homeserver@ + "/_matrix/client/v3/register?kind=user&"@ + auth_query_of(as_token@),
{
    let q = auth_query(as_token);
    register_url_with(homeserver, q.as_str())
}

/// Display-name URL, from the encoded user id and the authenticating query.
pub fn display_name_url_with(homeserver: &str, encoded_user: &str, auth: &str) -> (r: String)
    ensures
        r@ == homeserver@ + "/_matrix/client/v3/profile/"@ + encoded_user@
            + "/displayname?user_id="@ + encoded_user@ + "&"@ + auth@,
{
    let mut r = String::from_str(homeserver);
    r.append("/_matrix/client/v3/profile/");
    r.append(encoded_user);
    r.append("/displayname?user_id=");
    r.append(encoded_user);
    r.append("&");
    r.append(auth);
    r
}

/// URL that sets a puppet's display name, acting as that puppet.
pub fn display_name_url(homeserver: &str, user_id: &str, as_token: &str) -> (r: String)
    ensures
        r@ == homeserver@ + "/_matrix/client/v3/profile/"@ + url_encoded(user_id@)
            + "/displayname?user_id="@ + url_encoded(user_id@) + "&"@ + auth_query_of(as_token@),
{
    let enc_user = encode(user_id);
    let q = auth_query(as_token);
    display_name_url_with(homeserver, enc_user.as_str(), q.as_str())
}

/// Room-join URL, from the encoded room and user ids and the authenticating
/// query.
pub fn join_room_url_with(homeserver: &str, encoded_room: &str, encoded_user: &str, auth: &str) -> (r:
    String)
    ensures
        r@ == homeserver@ + "/_matrix/client/v3/join/"@ + encoded_room@ + "?user_id="@
            + encoded_user@ + "&"@ + auth@,
{
    let mut r = String::from_str(homeserver);
    r.append("/_matrix/client/v3/join/");
    r.append(encoded_room);
    r.append("?user_id=");
    r.append(encoded_user);
    r.append("&");
    r.append(auth);
    r
}

/// URL through which a puppet joins the room.
pub fn join_room_url(homeserver: &str, room_id: &str, user_id: &str, as_token: &str) -> (r:
    String)
    ensures
        r@ == homeserver@ + "/_matrix/client/v3/join/"@ + url_encoded(room_id@) + "?user_id="@
            + url_encoded(user_id@) + "&"@ + auth_query_of(as_token@),
{
    let enc_room = encode(room_id);
    let enc_user = encode(user_id);
    let q = auth_query(as_token);
    join_room_url_with(homeserver, enc_room.as_str(), enc_user.as_str(), q.as_str())
}

/// Message-send URL, from the encoded room and user ids, the transaction id
/// and the authenticating query.
pub fn send_message_url_with(
    homeserver: &str,
    encoded_room: &str,
    txn_id: u64,
    encoded_user: &str,
    auth: &str,
) -> (r: String)
    ensures
        r@ == homeserver@ + "/_matrix/client/v3/rooms/"@ + encoded_room@ + "/send/m.room.message/"@
            + decimal(txn_id as nat) + "?user_id="@ + encoded_user@ + "&"@ + auth@,
{
    let mut r = String::from_str(homeserver);
    r.append("/_matrix/client/v3/rooms/");
    r.append(encoded_room);
    r.append("/send/m.room.message/");
    push_decimal(&mut r, txn_id);
    r.append("?user_id=");
    r.append(encoded_user);
    r.append("&");
    r.append(auth);
    r
}

/// URL that sends a room message as a puppet, under transaction id `txn_id`.
pub fn send_message_url(
    homeserver: &str,
    room_id: &str,
    txn_id: u64,
    user_id: &str,
    as_token: &str,
) -> (r: String)
    ensures
        r@ == homeserver@ + "/_matrix/client/v3/rooms/"@ + url_encoded(room_id@)
            + "/send/m.room.message/"@ + decimal(txn_id as nat) + "?user_id="@ + url_encoded(
            user_id@,
        ) + "&"@ + auth_query_of(as_token@),
{
    let enc_room = encode(room_id);
    let enc_user = encode(user_id);
    let q = auth_query(as_token);
    send_message_url_with(homeserver, enc_room.as_str(), txn_id, enc_user.as_str(), q.as_str())
}

/// URL of the homeserver's supported-versions probe.
pub fn versions_url(homeserver: &str) -> (r: String)
    ensures
        r@ == homeserver@ + "/_matrix/client/versions"@,
{
    let mut r = String::from_str(homeserver);
    r.append("/_matrix/client/versions");
    r
}

} // verus!
