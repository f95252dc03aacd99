use vstd::prelude::*;

use crate::potatomesh::PotatoNode;
use crate::text::{strip_leading, trim, trim_start_char, trimmed};

verus! {

/// Namespace that keeps puppet accounts apart from other users.
pub open spec fn puppet_prefix() -> Seq<char> {
    seq!['p', 'o', 't', 'a', 't', 'o', '_']
}

/// The node's hex id: `node_id` without its leading `!` sigils.
pub fn node_hex_id(node_id: &str) -> (r: String)
    ensures
        r@ == strip_leading(node_id@, '!'),
{
    trim_start_char(node_id, '!')
}

/// Matrix localpart of the puppet for a mesh node: `potato_` and the node's
/// hex id.
pub fn localpart_from_node_id(node_id: &str) -> (r: String)
    ensures
        r@ == puppet_prefix() + strip_leading(node_id@, '!'),
{
    let prefix = "potato_";
    proof {
        reveal_strlit("potato_");
    }
    assert(prefix@ =~= puppet_prefix());
    let mut r = String::from_str(prefix);
    let hex = node_hex_id(node_id);
    r.append(hex.as_str());
    r
}

/// Full Matrix user id `@<localpart>:<server_name>`.
pub fn user_id(localpart: &str, server_name: &str) -> (r: String)
    ensures
        r@ == seq!['@'] + localpart@ + seq![':'] + server_name@,
{
    let at = "@";
    let colon = ":";
    proof {
        reveal_strlit("@");
        reveal_strlit(":");
    }
    let mut r = String::from_str(at);
    r.append(localpart);
    r.append(colon);
    r.append(server_name);
    assert(at@ =~= seq!['@']);
    assert(colon@ =~= seq![':']);
    r
}

/// The name shown for a node with these names: the long name, followed by the
/// trimmed short name in parentheses when that is non-empty and differs from
/// the long name.
pub open spec fn display_name_of(long_name: Seq<char>, short_name: Option<Seq<char>>) -> Seq<char> {
    match short_name {
        Some(s) if trimmed(s).len() > 0 && trimmed(s) != long_name => long_name + seq![' ', '(']
            + trimmed(s) + seq![')'],
        _ => long_name,
    }
}

pub open spec fn opt_view(s: Option<String>) -> Option<Seq<char>> {
    match s {
        Some(v) => Some(v@),
        None => None,
    }
}

/// Display name for the puppet of `node`.
pub fn display_name(node: &PotatoNode) -> (r: String)
    ensures
        r@ == display_name_of(node.long_name@, opt_view(node.short_name)),
{
    let long = node.long_name.clone();
    match &node.short_name {
        Some(short) => {
            let t = trim(short.as_str());
            if t.unicode_len() > 0 && !(t == long) {
                let open = " (";
                let close = ")";
                proof {
                    reveal_strlit(" (");
                    reveal_strlit(")");
                }
                let mut r = String::from_str(long.as_str());
                r.append(open);
                r.append(t.as_str());
                r.append(close);
                assert(open@ =~= seq![' ', '(']);
                assert(close@ =~= seq![')']);
                r
            } else {
                long
            }
        },
        None => long,
    }
}

} // verus!
