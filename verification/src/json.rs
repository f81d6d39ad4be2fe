//! JSON text of the values that generated patches carry.
//!
//! Strings escape `"`, `\` and control characters; objects keep their members in the order
//! given; numbers, booleans and nested values are written as the text handed in.
use vstd::prelude::*;

use crate::text::chars_of;

verus! {

/// The lower-case hexadecimal digit of `d` (for `d < 16`).
pub open spec fn hex_char(d: nat) -> char {
    if d < 10 {
        (('0' as u32) + d) as char
    } else {
        (('a' as u32) + d - 10) as char
    }
}

/// The JSON text of one character inside a string.
pub open spec fn escape_char(c: char) -> Seq<char> {
    if c == '"' {
        seq!['\\', '"']
    } else if c == '\\' {
        seq!['\\', '\\']
    } else if c == '\n' {
        seq!['\\', 'n']
    } else if c == '\r' {
        seq!['\\', 'r']
    } else if c == '\t' {
        seq!['\\', 't']
    } else if (c as u32) < 0x20 {
        seq!['\\', 'u', '0', '0', hex_char((c as u32 / 16) as nat), hex_char((c as u32 % 16) as nat)]
    } else {
        seq![c]
    }
}

/// The escaped characters of a string.
pub open spec fn escape(s: Seq<char>) -> Seq<char>
    decreases s.len(),
{
    if s.len() == 0 {
        Seq::empty()
    } else {
        escape(s.drop_last()) + escape_char(s.last())
    }
}

/// A JSON string.
#[verifier::opaque]
pub open spec fn json_string(s: Seq<char>) -> Seq<char> {
    seq!['"'] + escape(s) + seq!['"']
}

/// The members of a JSON object, `"key":value` separated by commas.
pub open spec fn json_members(fields: Seq<(Seq<char>, Seq<char>)>) -> Seq<char>
    decreases fields.len(),
{
    if fields.len() == 0 {
        Seq::empty()
    } else if fields.len() == 1 {
        json_string(fields[0].0) + seq![':'] + fields[0].1
    } else {
        json_members(fields.drop_last()) + seq![','] + json_string(fields.last().0) + seq![':']
            + fields.last().1
    }
}

/// A JSON object with the given members, in order.
#[verifier::opaque]
pub open spec fn json_object(fields: Seq<(Seq<char>, Seq<char>)>) -> Seq<char> {
    seq!['{'] + json_members(fields) + seq!['}']
}

/// The elements of a JSON array, separated by commas.
pub open spec fn json_elements(items: Seq<Seq<char>>) -> Seq<char>
    decreases items.len(),
{
    if items.len() == 0 {
        Seq::empty()
    } else if items.len() == 1 {
        items[0]
    } else {
        json_elements(items.drop_last()) + seq![','] + items.last()
    }
}

/// A JSON array with the given elements, in order.
#[verifier::opaque]
pub open spec fn json_array(items: Seq<Seq<char>>) -> Seq<char> {
    seq!['['] + json_elements(items) + seq![']']
}

/// The texts of a list of strings.
pub open spec fn texts(items: Seq<String>) -> Seq<Seq<char>> {
    items.map_values(|x: String| x@)
}

/// The texts of a list of members.
pub open spec fn member_texts(fields: Seq<(&str, String)>) -> Seq<(Seq<char>, Seq<char>)> {
    fields.map_values(|f: (&str, String)| (f.0@, f.1@))
}

fn hex_str(d: u32) -> (r: &'static str)
    requires
        d < 16,
    ensures
        r@ == seq![hex_char(d as nat)],
{
    let r = if d == 0 { "0" } else if d == 1 { "1" } else if d == 2 { "2" } else if d == 3 { "3" }
    else if d == 4 { "4" } else if d == 5 { "5" } else if d == 6 { "6" } else if d == 7 { "7" }
    else if d == 8 { "8" } else if d == 9 { "9" } else if d == 10 { "a" } else if d == 11 { "b" }
    else if d == 12 { "c" } else if d == 13 { "d" } else if d == 14 { "e" } else { "f" };
    proof {
        reveal_strlit("0");
        reveal_strlit("1");
        reveal_strlit("2");
        reveal_strlit("3");
        reveal_strlit("4");
        reveal_strlit("5");
        reveal_strlit("6");
        reveal_strlit("7");
        reveal_strlit("8");
        reveal_strlit("9");
        reveal_strlit("a");
        reveal_strlit("b");
        reveal_strlit("c");
        reveal_strlit("d");
        reveal_strlit("e");
        reveal_strlit("f");
    }
    r
}

/// Appends the JSON text of one character of `s`, at position `i`.
fn push_escaped(out: &mut String, s: &str, c: char, i: usize)
    requires
        i < s@.len(),
        i < usize::MAX,
        s@[i as int] == c,
    ensures
        final(out)@ == old(out)@ + escape_char(c),
{
    proof {
        reveal_strlit("\\\"");
        reveal_strlit("\\\\");
        reveal_strlit("\\n");
        reveal_strlit("\\r");
        reveal_strlit("\\t");
        reveal_strlit("\\u00");
    }
    if c == '"' {
        out.append("\\\"");
    } else if c == '\\' {
        out.append("\\\\");
    } else if c == '\n' {
        out.append("\\n");
    } else if c == '\r' {
        out.append("\\r");
    } else if c == '\t' {
        out.append("\\t");
    } else if (c as u32) < 0x20 {
        let u = c as u32;
        out.append("\\u00");
        out.append(hex_str(u / 16));
        out.append(hex_str(u % 16));
        assert(out@ =~= old(out)@ + escape_char(c));
    } else {
        out.append(s.substring_char(i, i + 1));
    }
}

/// The JSON string of `s`.
pub fn json_string_text(s: &str) -> (r: String)
    ensures
        r@ == json_string(s@),
{
    reveal(json_string);
    let chars = chars_of(s);
    let mut out = String::from_str("\"");
    proof {
        reveal_strlit("\"");
    }
    let mut i: usize = 0;
    while i < chars.len()
        invariant
            chars@ == s@,
            i <= chars@.len(),
            out@ == seq!['"'] + escape(s@.subrange(0, i as int)),
        decreases chars@.len() - i,
    {
        proof {
            assert(s@.subrange(0, i + 1).drop_last() =~= s@.subrange(0, i as int));
        }
        push_escaped(&mut out, s, chars[i], i);
        proof {
            assert(out@ =~= seq!['"'] + escape(s@.subrange(0, i + 1)));
        }
        i = i + 1;
    }
    assert(s@.subrange(0, chars@.len() as int) =~= s@);
    out.append("\"");
    out
}

/// The JSON object with the given members, in order.
pub fn json_object_text(fields: &Vec<(&str, String)>) -> (r: String)
    ensures
        r@ == json_object(member_texts(fields@)),
{
    reveal(json_object);
    let ghost all = member_texts(fields@);
    let mut out = String::from_str("{");
    proof {
        reveal_strlit("{");
        reveal_strlit(",");
        reveal_strlit(":");
        reveal_strlit("}");
        assert(","@ =~= seq![',']);
        assert(":"@ =~= seq![':']);
        assert("{"@ =~= seq!['{']);
        assert("}"@ =~= seq!['}']);
    }
    let mut i: usize = 0;
    while i < fields.len()
        invariant
            all == member_texts(fields@),
            i <= fields@.len(),
            out@ == seq!['{'] + json_members(all.take(i as int)),
        decreases fields@.len() - i,
    {
        let ghost before = out@;
        proof {
            reveal_strlit(",");
            reveal_strlit(":");
            assert(","@ =~= seq![',']);
            assert(":"@ =~= seq![':']);
        }
        if i > 0 {
            out.append(",");
        }
        let key = json_string_text(fields[i].0);
        out.append(key.as_str());
        out.append(":");
        out.append(fields[i].1.as_str());
        proof {
            assert(all[i as int] == (fields@[i as int].0@, fields@[i as int].1@));
            assert(all.take(i + 1).drop_last() =~= all.take(i as int));
            assert(all.take(i + 1).last() == all[i as int]);
            if i == 0 {
                assert(all.take(1)[0] == all[0]);
            }
            if i == 0 {
                assert(out@ =~= before + json_string(all[0].0) + seq![':'] + all[0].1);
            } else {
                assert(out@ =~= before + seq![','] + json_string(all[i as int].0) + seq![':']
                    + all[i as int].1);
            }
            assert(out@ =~= seq!['{'] + json_members(all.take(i + 1)));
        }
        i = i + 1;
    }
    assert(all.take(fields@.len() as int) =~= all);
    out.append("}");
    out
}

/// The JSON array with the given elements, in order.
pub fn json_array_text(items: &Vec<String>) -> (r: String)
    ensures
        r@ == json_array(texts(items@)),
{
    reveal(json_array);
    let ghost all = texts(items@);
    let mut out = String::from_str("[");
    proof {
        reveal_strlit("[");
        reveal_strlit(",");
        reveal_strlit("]");
        assert(","@ =~= seq![',']);
        assert("["@ =~= seq!['[']);
        assert("]"@ =~= seq![']']);
    }
    let mut i: usize = 0;
    while i < items.len()
        invariant
            all == texts(items@),
            i <= items@.len(),
            out@ == seq!['['] + json_elements(all.take(i as int)),
        decreases items@.len() - i,
    {
        let ghost before = out@;
        proof {
            reveal_strlit(",");
            assert(","@ =~= seq![',']);
        }
        if i > 0 {
            out.append(",");
        }
        out.append(items[i].as_str());
        proof {
            assert(all[i as int] == items@[i as int]@);
            assert(all.take(i + 1).drop_last() =~= all.take(i as int));
            assert(all.take(i + 1).last() == all[i as int]);
            if i == 0 {
                assert(all.take(1)[0] == all[0]);
            }
            if i == 0 {
                assert(out@ =~= before + all[0]);
            } else {
                assert(out@ =~= before + seq![','] + all[i as int]);
            }
            assert(out@ =~= seq!['['] + json_elements(all.take(i + 1)));
        }
        i = i + 1;
    }
    assert(all.take(items@.len() as int) =~= all);
    out.append("]");
    out
}

} // verus!
