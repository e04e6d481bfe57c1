//! JSON string framing: the escaping rules for characters inside a JSON
//! string literal, and an encoder proven to follow them. Quotation marks,
//! backslashes and control characters are escaped; every other character
//! passes through unchanged.

use vstd::prelude::*;

use crate::strings::push_char;

verus! {

/// The lowercase hexadecimal digit of a value below sixteen.
pub open spec fn hex_nibble(n: int) -> char {
    if n == 0 {
        '0'
    } else if n == 1 {
        '1'
    } else if n == 2 {
        '2'
    } else if n == 3 {
        '3'
    } else if n == 4 {
        '4'
    } else if n == 5 {
        '5'
    } else if n == 6 {
        '6'
    } else if n == 7 {
        '7'
    } else if n == 8 {
        '8'
    } else if n == 9 {
        '9'
    } else if n == 10 {
        'a'
    } else if n == 11 {
        'b'
    } else if n == 12 {
        'c'
    } else if n == 13 {
        'd'
    } else if n == 14 {
        'e'
    } else {
        'f'
    }
}

/// What one character contributes to the body of a JSON string literal:
/// itself, a two-character escape, or a `\u00..` escape for the control
/// characters without a short form.
pub open spec fn json_escape_char(c: char) -> Seq<char> {
    if c == '"' {
        seq!['\\', '"']
    } else if c == '\\' {
        seq!['\\', '\\']
    } else if c == '\u{08}' {
        seq!['\\', 'b']
    } else if c == '\u{0C}' {
        seq!['\\', 'f']
    } else if c == '\n' {
        seq!['\\', 'n']
    } else if c == '\r' {
        seq!['\\', 'r']
    } else if c == '\t' {
        seq!['\\', 't']
    } else if (c as u32) < 0x20 {
        seq!['\\', 'u', '0', '0', hex_nibble((c as u32) as int / 16), hex_nibble((c as u32) as int % 16)]
    } else {
        seq![c]
    }
}

/// The body of the JSON string literal that encodes a text: each character's
/// contribution, in order.
pub open spec fn json_escaped(s: Seq<char>) -> Seq<char>
    decreases s.len(),
{
    if s.len() == 0 {
        Seq::empty()
    } else {
        json_escaped(s.drop_last()) + json_escape_char(s.last())
    }
}

/// The complete JSON string literal that encodes a text: the escaped body
/// between quotation marks.
pub open spec fn json_string(s: Seq<char>) -> Seq<char> {
    seq!['"'] + json_escaped(s) + seq!['"']
}

/// The lowercase hexadecimal digit of a value below sixteen.
fn hex_nibble_char(n: u32) -> (c: char)
    requires
        n < 16,
    ensures
        c == hex_nibble(n as int),
{
    if n == 0 {
        '0'
    } else if n == 1 {
        '1'
    } else if n == 2 {
        '2'
    } else if n == 3 {
        '3'
    } else if n == 4 {
        '4'
    } else if n == 5 {
        '5'
    } else if n == 6 {
        '6'
    } else if n == 7 {
        '7'
    } else if n == 8 {
        '8'
    } else if n == 9 {
        '9'
    } else if n == 10 {
        'a'
    } else if n == 11 {
        'b'
    } else if n == 12 {
        'c'
    } else if n == 13 {
        'd'
    } else if n == 14 {
        'e'
    } else {
        'f'
    }
}

/// Appends one character's escape contribution to the output.
fn append_escaped_char(out: &mut String, c: char)
    ensures
        final(out)@ == old(out)@ + json_escape_char(c),
{
    if c == '"' {
        out.append("\\\"");
        proof {
            reveal_strlit("\\\"");
            assert(("\\\"")@ =~= seq!['\\', '"']);
        }
    } else if c == '\\' {
        out.append("\\\\");
        proof {
            reveal_strlit("\\\\");
            assert(("\\\\")@ =~= seq!['\\', '\\']);
        }
    } else if c == '\u{08}' {
        out.append("\\b");
        proof {
            reveal_strlit("\\b");
            assert(("\\b")@ =~= seq!['\\', 'b']);
        }
    } else if c == '\u{0C}' {
        out.append("\\f");
        proof {
            reveal_strlit("\\f");
            assert(("\\f")@ =~= seq!['\\', 'f']);
        }
    } else if c == '\n' {
        out.append("\\n");
        proof {
            reveal_strlit("\\n");
            assert(("\\n")@ =~= seq!['\\', 'n']);
        }
    } else if c == '\r' {
        out.append("\\r");
        proof {
            reveal_strlit("\\r");
            assert(("\\r")@ =~= seq!['\\', 'r']);
        }
    } else if c == '\t' {
        out.append("\\t");
        proof {
            reveal_strlit("\\t");
            assert(("\\t")@ =~= seq!['\\', 't']);
        }
    } else if (c as u32) < 0x20 {
        let n = c as u32;
        out.append("\\u00");
        push_char(out, hex_nibble_char(n / 16));
        push_char(out, hex_nibble_char(n % 16));
        proof {
            reveal_strlit("\\u00");
            assert(("\\u00")@ =~= seq!['\\', 'u', '0', '0']);
            assert(out@ =~= old(out)@ + json_escape_char(c));
        }
    } else {
        push_char(out, c);
        proof {
            assert(out@ =~= old(out)@ + json_escape_char(c));
        }
    }
}

/// Appends the escaped body of a text to the output.
fn append_escaped(out: &mut String, s: &str)
    ensures
        final(out)@ == old(out)@ + json_escaped(s@),
{
    let len = s.unicode_len();
    let mut i: usize = 0;
    while i < len
        invariant
            i <= len,
            len == s@.len(),
            out@ == old(out)@ + json_escaped(s@.subrange(0, i as int)),
        decreases len - i,
    {
        let c = s.get_char(i);
        append_escaped_char(out, c);
        proof {
            let pre = s@.subrange(0, i as int);
            let post = s@.subrange(0, i as int + 1);
            assert(post.drop_last() =~= pre);
            assert(post.last() == s@[i as int]);
        }
        i = i + 1;
    }
    proof {
        assert(s@.subrange(0, len as int) =~= s@);
    }
}

/// Appends the complete JSON string literal that encodes a text.
pub fn append_json_string(out: &mut String, s: &str)
    ensures
        final(out)@ == old(out)@ + json_string(s@),
{
    out.append("\"");
    append_escaped(out, s);
    out.append("\"");
    proof {
        reveal_strlit("\"");
        assert(("\"")@ =~= seq!['"']);
        assert(out@ =~= old(out)@ + json_string(s@));
    }
}

/// Appends the JSON rendering of a boolean.
pub fn append_json_bool(out: &mut String, b: bool)
    ensures
        final(out)@ == old(out)@ + json_bool(b),
{
    if b {
        out.append("true");
    } else {
        out.append("false");
    }
}

/// The JSON rendering of a boolean.
pub open spec fn json_bool(b: bool) -> Seq<char> {
    if b {
        "true"@
    } else {
        "false"@
    }
}

} // verus!
