//! Response Composer: the JSON envelope returned for every success.
//!
//! Both fields are rendered as JSON string literals: quote, backslash and
//! control characters are escaped (the named short escapes where JSON has
//! them, `\u00XX` otherwise), everything else is copied verbatim.

use vstd::prelude::*;

verus! {

/// The sixteen lower-case hex digits.
pub open spec fn hex_digits() -> Seq<char> {
    seq!['0', '1', '2', '3', '4', '5', '6', '7', '8', '9', 'a', 'b', 'c', 'd', 'e', 'f']
}

/// The escape of one character inside a JSON string literal.
pub open spec fn escape_char(c: char) -> Seq<char> {
    if c == '"' {
        seq!['\\', '"']
    } else if c == '\\' {
        seq!['\\', '\\']
    } else if c == '\u{8}' {
        seq!['\\', 'b']
    } else if c == '\t' {
        seq!['\\', 't']
    } else if c == '\n' {
        seq!['\\', 'n']
    } else if c == '\u{c}' {
        seq!['\\', 'f']
    } else if c == '\r' {
        seq!['\\', 'r']
    } else if (c as u32) < 0x20 {
        seq!['\\', 'u', '0', '0', hex_digits()[c as u32 as int / 16], hex_digits()[c as u32 as int % 16]]
    } else {
        seq![c]
    }
}

/// A text escaped for inclusion in a JSON string literal.
pub open spec fn json_escape(s: Seq<char>) -> Seq<char>
    decreases s.len(),
{
    if s.len() == 0 {
        Seq::empty()
    } else {
        escape_char(s[0]) + json_escape(s.drop_first())
    }
}

proof fn lemma_json_escape_push(t: Seq<char>, c: char)
    ensures
        json_escape(t.push(c)) == json_escape(t) + escape_char(c),
    decreases t.len(),
{
    let p = t.push(c);
    if t.len() == 0 {
        assert(p.len() == 1);
        assert(p[0] == c);
        assert(p.drop_first() =~= Seq::<char>::empty());
        assert(json_escape(p.drop_first()) =~= Seq::<char>::empty());
        assert(json_escape(p) == escape_char(p[0]) + json_escape(p.drop_first()));
        assert(json_escape(p) =~= escape_char(c));
        assert(json_escape(t) + escape_char(c) =~= escape_char(c));
    } else {
        lemma_json_escape_push(t.drop_first(), c);
        assert(p.drop_first() =~= t.drop_first().push(c));
        assert(p[0] == t[0]);
        assert(escape_char(t[0]) + (json_escape(t.drop_first()) + escape_char(c)) =~= (escape_char(
            t[0],
        ) + json_escape(t.drop_first())) + escape_char(c));
    }
}

/// The one-character string of a lower-case hex digit.
fn hex_digit_str(n: u32) -> (r: &'static str)
    requires
        n < 16,
    ensures
        r@.len() == 1,
        r@[0] == hex_digits()[n as int],
{
    proof {
        reveal_strlit("0");
        reveal_strlit("1");
        reveal_strlit("2");
        reveal_strlit("3");
        reveal_strlit("4");
        reveal_strlit("5");
        reveal_strlit("6");
        reveal_strlit("7");
        reveal_strlit("8");
        reveal_strlit("9");
        reveal_strlit("a");
        reveal_strlit("b");
        reveal_strlit("c");
        reveal_strlit("d");
        reveal_strlit("e");
        reveal_strlit("f");
    }
    match n {
        0 => "0",
        1 => "1",
        2 => "2",
        3 => "3",
        4 => "4",
        5 => "5",
        6 => "6",
        7 => "7",
        8 => "8",
        9 => "9",
        10 => "a",
        11 => "b",
        12 => "c",
        13 => "d",
        14 => "e",
        _ => "f",
    }
}

/// Append the escaped form of `s` to `out`.
fn escape_into(out: &mut String, s: &str)
    ensures
        final (out)@ == old(out)@ + json_escape(s@),
{
    proof {
        reveal_strlit("\\\"");
        reveal_strlit("\\\\");
        reveal_strlit("\\b");
        reveal_strlit("\\t");
        reveal_strlit("\\n");
        reveal_strlit("\\f");
        reveal_strlit("\\r");
        reveal_strlit("\\u00");
        assert("\\\""@ =~= seq!['\\', '"']);
        assert("\\\\"@ =~= seq!['\\', '\\']);
        assert("\\b"@ =~= seq!['\\', 'b']);
        assert("\\t"@ =~= seq!['\\', 't']);
        assert("\\n"@ =~= seq!['\\', 'n']);
        assert("\\f"@ =~= seq!['\\', 'f']);
        assert("\\r"@ =~= seq!['\\', 'r']);
        assert("\\u00"@ =~= seq!['\\', 'u', '0', '0']);
    }
    let len = s.unicode_len();
    let mut i: usize = 0;
    while i < len
        invariant
            i <= len,
            len == s@.len(),
            out@ == old(out)@ + json_escape(s@.take(i as int)),
            "\\\""@ == seq!['\\', '"'],
            "\\\\"@ == seq!['\\', '\\'],
            "\\b"@ == seq!['\\', 'b'],
            "\\t"@ == seq!['\\', 't'],
            "\\n"@ == seq!['\\', 'n'],
            "\\f"@ == seq!['\\', 'f'],
            "\\r"@ == seq!['\\', 'r'],
            "\\u00"@ == seq!['\\', 'u', '0', '0'],
        decreases len - i,
    {
        let c = s.get_char(i);
        if c == '"' {
            out.append("\\\"");
        } else if c == '\\' {
            out.append("\\\\");
        } else if c == '\u{8}' {
            out.append("\\b");
        } else if c == '\t' {
            out.append("\\t");
        } else if c == '\n' {
            out.append("\\n");
        } else if c == '\u{c}' {
            out.append("\\f");
        } else if c == '\r' {
            out.append("\\r");
        } else if (c as u32) < 0x20 {
            let n = c as u32;
            let h1 = hex_digit_str(n / 16);
            let h2 = hex_digit_str(n % 16);
            out.append("\\u00");
            out.append(h1);
            out.append(h2);
            proof {
                assert("\\u00"@ + h1@ + h2@ =~= escape_char(c));
            }
        } else {
            let piece = s.substring_char(i, i + 1);
            proof {
                assert(piece@ =~= seq![s@[i as int]]);
            }
            out.append(piece);
        }
        proof {
            lemma_json_escape_push(s@.take(i as int), s@[i as int]);
            assert(s@.take(i as int + 1) =~= s@.take(i as int).push(s@[i as int]));
        }
        i = i + 1;
    }
    proof {
        assert(s@.take(len as int) =~= s@);
    }
}

/// The JSON response envelope with both fields as JSON string literals:
/// `{"itinerary":<text>,"tag":<tag>}`.
pub open spec fn envelope_json(itinerary: Seq<char>, tag: Seq<char>) -> Seq<char> {
    "{\"itinerary\":\""@ + json_escape(itinerary) + "\",\"tag\":\""@ + json_escape(tag) + "\"}"@
}

/// Compose the JSON envelope `{"itinerary": ..., "tag": ...}` returned for
/// every successful retrieval or generation.
pub fn create_json_response(itinerary: &str, tag: &str) -> (r: String)
    ensures
        r@ == envelope_json(itinerary@, tag@),
{
    let mut out = String::from_str("{\"itinerary\":\"");
    escape_into(&mut out, itinerary);
    out.append("\",\"tag\":\"");
    escape_into(&mut out, tag);
    out.append("\"}");
    proof {
        assert(out@ =~= envelope_json(itinerary@, tag@));
    }
    out
}

} // verus!
