//! A verified encoder for the two fixed JSON shapes the bot sends: the sync
//! filter object and the notice-message content object.
//!
//! Both shapes are tiny and fixed, so the crate encodes them itself and
//! proves the output character-exact, including JSON string escaping.

use vstd::prelude::*;
use vstd::string::StrSliceExecFns;
use vstd::string::StringExecFns;

verus! {

/// The lowercase hexadecimal digit for a value below 16.
pub open spec fn hex_digit_char(n: nat) -> char {
    if n == 0 {
        '0'
    } else if n == 1 {
        '1'
    } else if n == 2 {
        '2'
    } else if n == 3 {
        '3'
    } else if n == 4 {
        '4'
    } else if n == 5 {
        '5'
    } else if n == 6 {
        '6'
    } else if n == 7 {
        '7'
    } else if n == 8 {
        '8'
    } else if n == 9 {
        '9'
    } else if n == 10 {
        'a'
    } else if n == 11 {
        'b'
    } else if n == 12 {
        'c'
    } else if n == 13 {
        'd'
    } else if n == 14 {
        'e'
    } else {
        'f'
    }
}

/// How one character is written inside a JSON string: quote and backslash get
/// a backslash escape, the named control characters get their short escapes,
/// any other control character gets a `\u00..` escape, and everything else
/// stands as itself.
pub open spec fn json_escaped_char(c: char) -> Seq<char> {
    if c == '"' {
        seq!['\\', '"']
    } else if c == '\\' {
        seq!['\\', '\\']
    } else if c == '\u{8}' {
        seq!['\\', 'b']
    } else if c == '\u{c}' {
        seq!['\\', 'f']
    } else if c == '\n' {
        seq!['\\', 'n']
    } else if c == '\r' {
        seq!['\\', 'r']
    } else if c == '\t' {
        seq!['\\', 't']
    } else if (c as u32) < 0x20 {
        seq![
            '\\',
            'u',
            '0',
            '0',
            hex_digit_char(((c as u32) / 16) as nat),
            hex_digit_char(((c as u32) % 16) as nat),
        ]
    } else {
        seq![c]
    }
}

/// The body of a JSON string: every character of `s` escaped, in order.
pub open spec fn json_escape(s: Seq<char>) -> Seq<char>
    decreases s.len(),
{
    if s.len() == 0 {
        Seq::empty()
    } else {
        json_escape(s.drop_last()) + json_escaped_char(s.last())
    }
}

/// A complete JSON string literal: escaped body between double quotes.
pub open spec fn json_string(s: Seq<char>) -> Seq<char> {
    seq!['"'] + json_escape(s) + seq!['"']
}

/// One lowercase hexadecimal digit as a one-character string slice.
fn hex_digit(n: u8) -> (r: &'static str)
    requires
        n < 16,
    ensures
        r@ =~= seq![hex_digit_char(n as nat)],
{
    let digits = "0123456789abcdef";
    proof {
        reveal_strlit("0123456789abcdef");
    }
    digits.substring_char(n as usize, n as usize + 1)
}

/// Append the escape sequence of a character that needs escaping.
fn push_escape_sequence(out: &mut String, c: char)
    requires
        c == '"' || c == '\\' || (c as u32) < 0x20,
    ensures
        final(out)@ == old(out)@ + json_escaped_char(c),
{
    if c == '"' {
        proof {
            reveal_strlit("\\\"");
        }
        out.append("\\\"");
    } else if c == '\\' {
        proof {
            reveal_strlit("\\\\");
        }
        out.append("\\\\");
    } else if c == '\u{8}' {
        proof {
            reveal_strlit("\\b");
        }
        out.append("\\b");
    } else if c == '\u{c}' {
        proof {
            reveal_strlit("\\f");
        }
        out.append("\\f");
    } else if c == '\n' {
        proof {
            reveal_strlit("\\n");
        }
        out.append("\\n");
    } else if c == '\r' {
        proof {
            reveal_strlit("\\r");
        }
        out.append("\\r");
    } else if c == '\t' {
        proof {
            reveal_strlit("\\t");
        }
        out.append("\\t");
    } else {
        proof {
            reveal_strlit("\\u00");
        }
        out.append("\\u00");
        let code = c as u32;
        let hi = hex_digit((code / 16) as u8);
        out.append(hi);
        let lo = hex_digit((code % 16) as u8);
        out.append(lo);
        proof {
            assert(final(out)@ =~= old(out)@ + json_escaped_char(c));
        }
    }
}

/// Escape every character of `s` for use inside a JSON string literal.
pub fn json_escape_str(s: &str) -> (r: String)
    ensures
        r@ == json_escape(s@),
{
    let n = s.unicode_len();
    let mut out = String::new();
    let mut i: usize = 0;
    while i < n
        invariant
            n == s@.len(),
            i <= n,
            out@ == json_escape(s@.subrange(0, i as int)),
        decreases n - i,
    {
        let c = s.get_char(i);
        if c == '"' || c == '\\' || (c as u32) < 0x20 {
            push_escape_sequence(&mut out, c);
        } else {
            let one = s.substring_char(i, i + 1);
            out.append(one);
            proof {
                assert(s@.subrange(i as int, i + 1) =~= seq![s@[i as int]]);
            }
        }
        proof {
            assert(s@.subrange(0, i + 1).drop_last() =~= s@.subrange(0, i as int));
            assert(s@.subrange(0, i + 1).last() == s@[i as int]);
        }
        i += 1;
    }
    proof {
        assert(s@.subrange(0, s@.len() as int) =~= s@);
    }
    out
}

/// The JSON content of the notice message the bot sends back to the room:
/// a body string and the notice message type, in that field order.
pub open spec fn spec_notice_content_json(body: Seq<char>) -> Seq<char> {
    "{\"body\":"@ + json_string(body) + ",\"msgtype\":\"m.notice\"}"@
}

/// Encode the content object of an outgoing notice message.
pub fn notice_content_json(body: &str) -> (r: String)
    ensures
        r@ == spec_notice_content_json(body@),
{
    let mut out = String::from_str("{\"body\":\"");
    let escaped = json_escape_str(body);
    out.append(escaped.as_str());
    out.append("\",\"msgtype\":\"m.notice\"}");
    proof {
        reveal_strlit("{\"body\":\"");
        reveal_strlit("{\"body\":");
        reveal_strlit("\"");
        reveal_strlit("\",\"msgtype\":\"m.notice\"}");
        reveal_strlit(",\"msgtype\":\"m.notice\"}");
        assert(out@ =~= spec_notice_content_json(body@));
    }
    out
}

/// The JSON filter object sent with every poll request: restrict returned
/// event fields to the content, and the timeline to message events of the
/// target room.
pub open spec fn spec_filter_json(room_id: Seq<char>) -> Seq<char> {
    "{\"event_fields\":[\"content\"],\"room\":{\"timeline\":{\"rooms\":["@ + json_string(room_id)
        + "],\"types\":[\"m.room.message\"]}}}"@
}

/// Encode the sync filter object for a room.
pub fn filter_json(room_id: &str) -> (r: String)
    ensures
        r@ == spec_filter_json(room_id@),
{
    let mut out = String::from_str("{\"event_fields\":[\"content\"],\"room\":{\"timeline\":{\"rooms\":[\"");
    let escaped = json_escape_str(room_id);
    out.append(escaped.as_str());
    out.append("\"],\"types\":[\"m.room.message\"]}}}");
    proof {
        reveal_strlit("{\"event_fields\":[\"content\"],\"room\":{\"timeline\":{\"rooms\":[\"");
        reveal_strlit("{\"event_fields\":[\"content\"],\"room\":{\"timeline\":{\"rooms\":[");
        reveal_strlit("\"");
        reveal_strlit("\"],\"types\":[\"m.room.message\"]}}}");
        reveal_strlit("],\"types\":[\"m.room.message\"]}}}");
        assert(out@ =~= spec_filter_json(room_id@));
    }
    out
}

} // verus!
