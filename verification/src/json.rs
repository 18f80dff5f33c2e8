//! Exact JSON rendering for the two pieces of JSON this pipeline emits: the
//! error body and the timing header. Matches serde_json's compact output for
//! an object of sorted keys: no spaces, `"` and `\` escaped, named control
//! escapes where they exist, `\u00XX` for the remaining control characters.

use vstd::prelude::*;
use vstd::string::StrSliceExecFns;
use vstd::string::StringExecFns;
use crate::text;

verus! {

/// The lower-case hexadecimal digit for `d` in `0 ..= 15`.
pub open spec fn hex_char(d: int) -> char {
    if d < 10 {
        text::digit_char(d)
    } else if d == 10 {
        'a'
    } else if d == 11 {
        'b'
    } else if d == 12 {
        'c'
    } else if d == 13 {
        'd'
    } else if d == 14 {
        'e'
    } else {
        'f'
    }
}

/// How one character is written inside a JSON string.
pub open spec fn json_escape_char(c: char) -> Seq<char> {
    if c == '"' {
        seq!['\\', '"']
    } else if c == '\\' {
        seq!['\\', '\\']
    } else if c == '\u{08}' {
        seq!['\\', 'b']
    } else if c == '\u{09}' {
        seq!['\\', 't']
    } else if c == '\u{0a}' {
        seq!['\\', 'n']
    } else if c == '\u{0c}' {
        seq!['\\', 'f']
    } else if c == '\u{0d}' {
        seq!['\\', 'r']
    } else if (c as u32) < 32 {
        seq!['\\', 'u', '0', '0', hex_char((c as u32 / 16) as int), hex_char((c as u32 % 16) as int)]
    } else {
        seq![c]
    }
}

/// The body of a JSON string holding `s`.
pub open spec fn json_escaped(s: Seq<char>) -> Seq<char>
    decreases s.len(),
{
    if s.len() == 0 {
        Seq::empty()
    } else {
        json_escaped(s.drop_last()) + json_escape_char(s.last())
    }
}

fn hex_str(d: u32) -> (r: &'static str)
    requires
        d < 16,
    ensures
        r@ =~= seq![hex_char(d as int)],
{
    proof {
        reveal_strlit("0");
        reveal_strlit("1");
        reveal_strlit("2");
        reveal_strlit("3");
        reveal_strlit("4");
        reveal_strlit("5");
        reveal_strlit("6");
        reveal_strlit("7");
        reveal_strlit("8");
        reveal_strlit("9");
        reveal_strlit("a");
        reveal_strlit("b");
        reveal_strlit("c");
        reveal_strlit("d");
        reveal_strlit("e");
        reveal_strlit("f");
    }
    if d == 0 {
        "0"
    } else if d == 1 {
        "1"
    } else if d == 2 {
        "2"
    } else if d == 3 {
        "3"
    } else if d == 4 {
        "4"
    } else if d == 5 {
        "5"
    } else if d == 6 {
        "6"
    } else if d == 7 {
        "7"
    } else if d == 8 {
        "8"
    } else if d == 9 {
        "9"
    } else if d == 10 {
        "a"
    } else if d == 11 {
        "b"
    } else if d == 12 {
        "c"
    } else if d == 13 {
        "d"
    } else if d == 14 {
        "e"
    } else {
        "f"
    }
}

fn append_escaped_char(out: &mut String, c: char)
    requires
        c == '"' || c == '\\' || (c as u32) < 32,
    ensures
        final(out)@ == old(out)@ + json_escape_char(c),
{
    proof {
        reveal_strlit("\\\"");
        reveal_strlit("\\\\");
        reveal_strlit("\\b");
        reveal_strlit("\\t");
        reveal_strlit("\\n");
        reveal_strlit("\\f");
        reveal_strlit("\\r");
        reveal_strlit("\\u00");
    }
    let u = c as u32;
    if c == '"' {
        out.append("\\\"");
        proof {
            assert(out@ =~= old(out)@ + json_escape_char(c));
        }
    } else if c == '\\' {
        out.append("\\\\");
        proof {
            assert(out@ =~= old(out)@ + json_escape_char(c));
        }
    } else if u == 8 {
        out.append("\\b");
        proof {
            assert(out@ =~= old(out)@ + json_escape_char(c));
        }
    } else if u == 9 {
        out.append("\\t");
        proof {
            assert(out@ =~= old(out)@ + json_escape_char(c));
        }
    } else if u == 10 {
        out.append("\\n");
        proof {
            assert(out@ =~= old(out)@ + json_escape_char(c));
        }
    } else if u == 12 {
        out.append("\\f");
        proof {
            assert(out@ =~= old(out)@ + json_escape_char(c));
        }
    } else if u == 13 {
        out.append("\\r");
        proof {
            assert(out@ =~= old(out)@ + json_escape_char(c));
        }
    } else {
        out.append("\\u00");
        out.append(hex_str(u / 16));
        out.append(hex_str(u % 16));
        proof {
            assert(out@ =~= old(out)@ + json_escape_char(c));
        }
    }
}

fn append_json_escaped(out: &mut String, s: &str)
    ensures
        final(out)@ == old(out)@ + json_escaped(s@),
{
    let len = s.unicode_len();
    let mut i: usize = 0;
    while i < len
        invariant
            len == s@.len(),
            i <= len,
            out@ == old(out)@ + json_escaped(s@.take(i as int)),
        decreases len - i,
    {
        let c = s.get_char(i);
        let u = c as u32;
        if c == '"' || c == '\\' || u < 32 {
            append_escaped_char(out, c);
        } else {
            out.append(s.substring_char(i, i + 1));
            proof {
                assert(s@.subrange(i as int, i + 1) =~= seq![s@[i as int]]);
                assert(seq![s@[i as int]] =~= json_escape_char(c));
            }
        }
        proof {
            assert(s@.take(i + 1).drop_last() =~= s@.take(i as int));
            assert(s@.take(i + 1).last() == s@[i as int]);
        }
        i += 1;
    }
    proof {
        assert(s@.take(len as int) =~= s@);
    }
}

/// The exact error body this pipeline returns: what serde_json renders for
/// an object with the two keys `detail` and `error` (sorted, compact).
pub open spec fn json_error_body(error: Seq<char>, detail: Seq<char>) -> Seq<char> {
    "{\"detail\":\""@ + json_escaped(detail) + "\",\"error\":\""@ + json_escaped(error) + "\"}"@
}

/// Renders the error body for an error kind and its detail text.
pub fn error_body(error: &str, detail: &str) -> (r: String)
    ensures
        r@ == json_error_body(error@, detail@),
{
    let mut out = String::from_str("{\"detail\":\"");
    append_json_escaped(&mut out, detail);
    out.append("\",\"error\":\"");
    append_json_escaped(&mut out, error);
    out.append("\"}");
    out
}

} // verus!
