//! JSON text for flat objects whose values are strings or booleans.
//!
//! An encoded object is modelled as an ordered sequence of entries; the text
//! is the entries, in order, separated by commas and enclosed in braces.

use vstd::prelude::*;

verus! {

/// A value of an encoded entry.
pub ghost enum WireValue {
    Str(Seq<char>),
    Bool(bool),
}

/// One `"key":value` member of an encoded object.
pub type Entry = (Seq<char>, WireValue);

/// The hexadecimal digit that stands for `d`, for `d < 16`.
pub open spec fn hex_char(d: nat) -> char {
    if d < 10 {
        crate::convert::digit_char(d)
    } else if d == 10 {
        'a'
    } else if d == 11 {
        'b'
    } else if d == 12 {
        'c'
    } else if d == 13 {
        'd'
    } else if d == 14 {
        'e'
    } else {
        'f'
    }
}

/// How one character is written inside a JSON string.
pub open spec fn escape_char(c: char) -> Seq<char> {
    if c == '"' {
        seq!['\\', '"']
    } else if c == '\\' {
        seq!['\\', '\\']
    } else if c == '\n' {
        seq!['\\', 'n']
    } else if c == '\r' {
        seq!['\\', 'r']
    } else if c == '\t' {
        seq!['\\', 't']
    } else if c == '\u{8}' {
        seq!['\\', 'b']
    } else if c == '\u{c}' {
        seq!['\\', 'f']
    } else if (c as u32) < 0x20 {
        seq!['\\', 'u', '0', '0', hex_char((c as u32 / 16) as nat), hex_char((c as u32 % 16) as nat)]
    } else {
        seq![c]
    }
}

/// The characters of `s`, each escaped.
pub open spec fn escaped(s: Seq<char>) -> Seq<char>
    decreases s.len(),
{
    if s.len() == 0 {
        Seq::empty()
    } else {
        escaped(s.drop_last()) + escape_char(s.last())
    }
}

/// `s` as a JSON string literal.
pub open spec fn quoted(s: Seq<char>) -> Seq<char> {
    seq!['"'] + escaped(s) + seq!['"']
}

/// The JSON text of a value.
pub open spec fn value_text(v: WireValue) -> Seq<char> {
    match v {
        WireValue::Str(s) => quoted(s),
        WireValue::Bool(b) => if b {
            seq!['t', 'r', 'u', 'e']
        } else {
            seq!['f', 'a', 'l', 's', 'e']
        },
    }
}

/// The JSON text of one member.
pub open spec fn entry_text(e: Entry) -> Seq<char> {
    quoted(e.0) + seq![':'] + value_text(e.1)
}

/// The members' text, in order, separated by commas.
pub open spec fn entries_text(es: Seq<Entry>) -> Seq<char>
    decreases es.len(),
{
    if es.len() == 0 {
        Seq::empty()
    } else if es.len() == 1 {
        entry_text(es[0])
    } else {
        entries_text(es.drop_last()) + seq![','] + entry_text(es.last())
    }
}

/// The JSON text of an object with the given members.
pub open spec fn object_text(es: Seq<Entry>) -> Seq<char> {
    seq!['{'] + entries_text(es) + seq!['}']
}

/// Does some member carry the key `k`?
pub open spec fn has_key(es: Seq<Entry>, k: Seq<char>) -> bool {
    exists|i: int| 0 <= i < es.len() && (#[trigger] es[i]).0 == k
}

/// Appends `e` to `es` when there is a value, and leaves `es` alone otherwise.
pub open spec fn push_opt(es: Seq<Entry>, k: Seq<char>, v: Option<WireValue>) -> Seq<Entry> {
    match v {
        Some(x) => es.push((k, x)),
        None => es,
    }
}

fn hex_str(d: u32) -> (r: &'static str)
    requires
        d < 16,
    ensures
        r@ == seq![hex_char(d as nat)],
{
    proof {
        reveal_strlit("0");
        reveal_strlit("1");
        reveal_strlit("2");
        reveal_strlit("3");
        reveal_strlit("4");
        reveal_strlit("5");
        reveal_strlit("6");
        reveal_strlit("7");
        reveal_strlit("8");
        reveal_strlit("9");
        reveal_strlit("a");
        reveal_strlit("b");
        reveal_strlit("c");
        reveal_strlit("d");
        reveal_strlit("e");
        reveal_strlit("f");
    }
    match d {
        0 => "0",
        1 => "1",
        2 => "2",
        3 => "3",
        4 => "4",
        5 => "5",
        6 => "6",
        7 => "7",
        8 => "8",
        9 => "9",
        10 => "a",
        11 => "b",
        12 => "c",
        13 => "d",
        14 => "e",
        _ => "f",
    }
}

fn push_escaped_char(out: &mut String, s: &str, i: usize)
    requires
        i < s@.len() <= usize::MAX,
    ensures
        final(out)@ == old(out)@ + escape_char(s@[i as int]),
{
    let c = s.get_char(i);
    proof {
        reveal_strlit("\\\"");
        reveal_strlit("\\\\");
        reveal_strlit("\\n");
        reveal_strlit("\\r");
        reveal_strlit("\\t");
        reveal_strlit("\\b");
        reveal_strlit("\\f");
        reveal_strlit("\\u00");
    }
    if c == '"' {
        out.append("\\\"");
    } else if c == '\\' {
        out.append("\\\\");
    } else if c == '\n' {
        out.append("\\n");
    } else if c == '\r' {
        out.append("\\r");
    } else if c == '\t' {
        out.append("\\t");
    } else if c == '\u{8}' {
        out.append("\\b");
    } else if c == '\u{c}' {
        out.append("\\f");
    } else if (c as u32) < 0x20 {
        out.append("\\u00");
        out.append(hex_str(c as u32 / 16));
        out.append(hex_str(c as u32 % 16));
    } else {
        let one = s.substring_char(i, i + 1);
        assert(one@ =~= seq![c]);
        out.append(one);
    }
}

/// Appends `s` as a JSON string literal.
pub fn push_quoted(out: &mut String, s: &str)
    ensures
        final(out)@ == old(out)@ + quoted(s@),
{
    proof {
        reveal_strlit("\"");
    }
    let ghost start = out@;
    out.append("\"");
    let n: usize = s.unicode_len();
    let mut i: usize = 0;
    while i < n
        invariant
            n == s@.len(),
            0 <= i <= n,
            out@ == start + seq!['"'] + escaped(s@.subrange(0, i as int)),
        decreases n - i,
    {
        push_escaped_char(out, s, i);
        proof {
            let p = s@.subrange(0, i as int + 1);
            assert(p.drop_last() =~= s@.subrange(0, i as int));
            assert(p.last() == s@[i as int]);
        }
        i = i + 1;
    }
    assert(s@.subrange(0, n as int) =~= s@);
    out.append("\"");
    assert(out@ =~= start + quoted(s@));
}

/// Appends a member: a comma first unless it is the object's first member.
pub fn push_member_key(out: &mut String, first: bool, key: &str)
    ensures
        final(out)@ == old(out)@ + (if first {
            Seq::<char>::empty()
        } else {
            seq![',']
        }) + quoted(key@) + seq![':'],
{
    proof {
        reveal_strlit(",");
        reveal_strlit(":");
    }
    let ghost start = out@;
    if !first {
        out.append(",");
    }
    push_quoted(out, key);
    out.append(":");
    assert(out@ =~= start + (if first {
        Seq::<char>::empty()
    } else {
        seq![',']
    }) + quoted(key@) + seq![':']);
}

/// Appends a JSON boolean.
pub fn push_bool(out: &mut String, b: bool)
    ensures
        final(out)@ == old(out)@ + value_text(WireValue::Bool(b)),
{
    proof {
        reveal_strlit("true");
        reveal_strlit("false");
    }
    if b {
        out.append("true");
    } else {
        out.append("false");
    }
}

/// A key is present after an optional push exactly when it was present
/// before, or the push added a member under it.
pub proof fn lemma_has_key_push_opt(es: Seq<Entry>, k: Seq<char>, v: Option<WireValue>, k2: Seq<char>)
    ensures
        has_key(push_opt(es, k, v), k2) <==> (has_key(es, k2) || (v is Some && k == k2)),
        v matches Some(x) ==> push_opt(es, k, v).last() == (k, x),
        v is None ==> push_opt(es, k, v) == es,
{
    match v {
        Some(x) => {
            let es2 = es.push((k, x));
            if has_key(es2, k2) {
                let i = choose|i: int| 0 <= i < es2.len() && (#[trigger] es2[i]).0 == k2;
                if i < es.len() {
                    assert(es[i] == es2[i]);
                }
            }
            if has_key(es, k2) {
                let i = choose|i: int| 0 <= i < es.len() && (#[trigger] es[i]).0 == k2;
                assert(es2[i] == es[i]);
            }
            if k == k2 {
                assert(es2[es.len() as int].0 == k2);
            }
        },
        None => {},
    }
}

/// Adding a member to a non-empty object's members adds a comma and its text.
pub proof fn lemma_entries_text_push(es: Seq<Entry>, e: Entry)
    ensures
        entries_text(es.push(e)) == if es.len() == 0 {
            entry_text(e)
        } else {
            entries_text(es) + seq![','] + entry_text(e)
        },
{
    assert(es.push(e).drop_last() =~= es);
    assert(es.push(e).last() == e);
    if es.len() == 0 {
        assert(es.push(e)[0] == e);
    }
}

} // verus!
