use vstd::prelude::*;

use crate::text::{decimal, push_decimal};

verus! {

/// HTML rendering of one character.
pub open spec fn escape_char(c: char) -> Seq<char> {
    if c == '&' {
        seq!['&', 'a', 'm', 'p', ';']
    } else if c == '<' {
        seq!['&', 'l', 't', ';']
    } else if c == '>' {
        seq!['&', 'g', 't', ';']
    } else if c == '"' {
        seq!['&', 'q', 'u', 'o', 't', ';']
    } else if c == '\'' {
        seq!['&', '#', '3', '9', ';']
    } else {
        seq![c]
    }
}

/// `s` with `&`, `<`, `>`, `"` and `'` replaced by HTML entities.
pub open spec fn html_escaped(s: Seq<char>) -> Seq<char>
    decreases s.len(),
{
    if s.len() == 0 {
        Seq::empty()
    } else {
        html_escaped(s.drop_last()) + escape_char(s.last())
    }
}

/// Appends the HTML-escaped form of `s` to `out`.
pub fn push_html_escaped(out: &mut String, s: &str)
    ensures
        final(out)@ == old(out)@ + html_escaped(s@),
{
    let n = s.unicode_len();
    let amp = "&amp;";
    let lt = "&lt;";
    let gt = "&gt;";
    let quot = "&quot;";
    let apos = "&#39;";
    proof {
        reveal_strlit("&amp;");
        reveal_strlit("&lt;");
        reveal_strlit("&gt;");
        reveal_strlit("&quot;");
        reveal_strlit("&#39;");
    }
    assert(amp@ =~= escape_char('&'));
    assert(lt@ =~= escape_char('<'));
    assert(gt@ =~= escape_char('>'));
    assert(quot@ =~= escape_char('"'));
    assert(apos@ =~= escape_char('\''));
    let ghost start = out@;
    let mut i: usize = 0;
    while i < n
        invariant
            i <= n,
            n == s@.len(),
            out@ == start + html_escaped(s@.subrange(0, i as int)),
            amp@ == escape_char('&'),
            lt@ == escape_char('<'),
            gt@ == escape_char('>'),
            quot@ == escape_char('"'),
            apos@ == escape_char('\''),
        decreases n - i,
    {
        let c = s.get_char(i);
        if c == '&' {
            out.append(amp);
        } else if c == '<' {
            out.append(lt);
        } else if c == '>' {
            out.append(gt);
        } else if c == '"' {
            out.append(quot);
        } else if c == '\'' {
            out.append(apos);
        } else {
            let one = s.substring_char(i, i + 1);
            assert(one@ =~= seq![c]);
            out.append(one);
        }
        assert(s@.subrange(0, i + 1).drop_last() =~= s@.subrange(0, i as int));
        i = i + 1;
    }
    assert(s@.subrange(0, n as int) =~= s@);
}

/// Plain-text body: the prefix as inline code, a space, then the text.
pub open spec fn plain_body(prefix: Seq<char>, text: Seq<char>) -> Seq<char> {
    seq!['`'] + prefix + seq!['`', ' '] + text
}

/// Rich body: the escaped prefix in a `<code>` element, a space, then the
/// escaped text.
pub open spec fn rich_body(prefix: Seq<char>, text: Seq<char>) -> Seq<char> {
    seq!['<', 'c', 'o', 'd', 'e', '>'] + html_escaped(prefix) + seq![
        '<',
        '/',
        'c',
        'o',
        'd',
        'e',
        '>',
        ' ',
    ] + html_escaped(text)
}

/// Renders a relayed message as a plain body and an HTML body.
pub fn format_message(prefix: &str, text: &str) -> (r: (String, String))
    ensures
        r.0@ == plain_body(prefix@, text@),
        r.1@ == rich_body(prefix@, text@),
{
    let tick = "`";
    let tick_space = "` ";
    let code_open = "<code>";
    let code_close = "</code> ";
    proof {
        reveal_strlit("`");
        reveal_strlit("` ");
        reveal_strlit("<code>");
        reveal_strlit("</code> ");
    }
    let mut plain = String::from_str(tick);
    plain.append(prefix);
    plain.append(tick_space);
    plain.append(text);
    let mut rich = String::from_str(code_open);
    push_html_escaped(&mut rich, prefix);
    rich.append(code_close);
    push_html_escaped(&mut rich, text);
    assert(plain@ =~= plain_body(prefix@, text@));
    assert(rich@ =~= rich_body(prefix@, text@));
    (plain, rich)
}

pub open spec fn is_upper(c: char) -> bool {
    'A' <= c <= 'Z'
}

/// The uppercase ASCII letters of `s`, in order.
pub open spec fn upper_letters(s: Seq<char>) -> Seq<char>
    decreases s.len(),
{
    if s.len() == 0 {
        Seq::empty()
    } else if is_upper(s.last()) {
        upper_letters(s.drop_last()).push(s.last())
    } else {
        upper_letters(s.drop_last())
    }
}

/// Compact name of a modem preset: its uppercase letters (`LongFast` gives
/// `LF`), or its first two characters when it has none.
pub open spec fn preset_abbreviation_of(preset: Seq<char>) -> Seq<char> {
    if upper_letters(preset).len() > 0 {
        upper_letters(preset)
    } else if preset.len() < 2 {
        preset
    } else {
        preset.take(2)
    }
}

/// Compact name of a modem preset.
pub fn preset_abbreviation(preset: &str) -> (r: String)
    ensures
        r@ == preset_abbreviation_of(preset@),
{
    let n = preset.unicode_len();
    let mut r = String::new();
    let mut i: usize = 0;
    while i < n
        invariant
            i <= n,
            n == preset@.len(),
            r@ == upper_letters(preset@.subrange(0, i as int)),
        decreases n - i,
    {
        let c = preset.get_char(i);
        if 'A' <= c && c <= 'Z' {
            let one = preset.substring_char(i, i + 1);
            assert(one@ =~= seq![c]);
            r.append(one);
        }
        assert(preset@.subrange(0, i + 1).drop_last() =~= preset@.subrange(0, i as int));
        assert(r@ =~= upper_letters(preset@.subrange(0, i + 1)));
        i = i + 1;
    }
    assert(preset@.subrange(0, n as int) =~= preset@);
    if r.unicode_len() > 0 {
        r
    } else if n < 2 {
        String::from_str(preset)
    } else {
        String::from_str(preset.substring_char(0, 2))
    }
}

/// The routing prefix `[<frequency>][<preset>][<channel>]` of a relayed
/// message.
pub open spec fn message_prefix_of(lora_freq: nat, preset: Seq<char>, channel_name: Seq<char>) -> Seq<
    char,
> {
    seq!['['] + decimal(lora_freq) + seq![']', '['] + preset_abbreviation_of(preset) + seq![']', '[']
        + channel_name + seq![']']
}

/// Builds the routing prefix from a message's frequency, modem preset and
/// channel name.
pub fn message_prefix(lora_freq: u32, modem_preset: &str, channel_name: &str) -> (r: String)
    ensures
        r@ == message_prefix_of(lora_freq as nat, modem_preset@, channel_name@),
{
    let open = "[";
    let between = "][";
    let close = "]";
    proof {
        reveal_strlit("[");
        reveal_strlit("][");
        reveal_strlit("]");
    }
    let mut r = String::from_str(open);
    push_decimal(&mut r, lora_freq as u64);
    r.append(between);
    let abbr = preset_abbreviation(modem_preset);
    r.append(abbr.as_str());
    r.append(between);
    r.append(channel_name);
    r.append(close);
    assert(r@ =~= message_prefix_of(lora_freq as nat, modem_preset@, channel_name@));
    r
}

} // verus!
