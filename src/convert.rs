//! Field-level conversions between wire scalars and in-memory values.
//!
//! The upstream API sends some numeric fields sometimes as a JSON string and
//! sometimes as a JSON number. A `Scalar` holds either shape, and the
//! conversions here normalize both to one in-memory value.

use crate::error::DecodeError;
use vstd::prelude::*;

verus! {

/// A scalar wire token: a JSON string or a JSON (unsigned integer) number.
#[derive(Debug, PartialEq, Eq)]
pub enum Scalar {
    Text(String),
    Number(u64),
}

/// Is `c` an ASCII decimal digit?
pub open spec fn is_digit(c: char) -> bool {
    '0' <= c && c <= '9'
}

/// The value of an ASCII decimal digit.
pub open spec fn digit_value(c: char) -> nat {
    ((c as u32) - ('0' as u32)) as nat
}

/// The digit character that stands for `d`, for `d < 10`.
pub open spec fn digit_char(d: nat) -> char {
    if d == 0 {
        '0'
    } else if d == 1 {
        '1'
    } else if d == 2 {
        '2'
    } else if d == 3 {
        '3'
    } else if d == 4 {
        '4'
    } else if d == 5 {
        '5'
    } else if d == 6 {
        '6'
    } else if d == 7 {
        '7'
    } else if d == 8 {
        '8'
    } else {
        '9'
    }
}

/// Is `s` a non-empty run of decimal digits?
pub open spec fn is_decimal(s: Seq<char>) -> bool {
    s.len() > 0 && forall|i: int| 0 <= i < s.len() ==> is_digit(#[trigger] s[i])
}

/// The number that a run of decimal digits denotes.
pub open spec fn decimal_value(s: Seq<char>) -> nat
    decreases s.len(),
{
    if s.len() == 0 {
        0
    } else {
        decimal_value(s.drop_last()) * 10 + digit_value(s.last())
    }
}

/// The canonical decimal text of `n`: no sign, no leading zeros.
pub open spec fn decimal(n: nat) -> Seq<char>
    decreases n,
{
    if n < 10 {
        seq![digit_char(n)]
    } else {
        decimal(n / 10).push(digit_char(n % 10))
    }
}

/// The number that a scalar token denotes, or why it denotes none.
pub open spec fn scalar_u64(w: Scalar) -> Result<u64, DecodeError> {
    match w {
        Scalar::Number(n) => Ok(n),
        Scalar::Text(s) => if is_decimal(s@) && decimal_value(s@) <= u64::MAX {
            Ok(decimal_value(s@) as u64)
        } else {
            Err(DecodeError::InvalidNumber)
        },
    }
}

/// The text that a scalar token denotes: a number stands for its decimal text.
pub open spec fn scalar_text(w: Scalar) -> Seq<char> {
    match w {
        Scalar::Number(n) => decimal(n as nat),
        Scalar::Text(s) => s@,
    }
}

proof fn lemma_digit_char(d: nat)
    requires
        d < 10,
    ensures
        is_digit(digit_char(d)),
        digit_value(digit_char(d)) == d,
{
}

proof fn lemma_decimal_value_monotone(s: Seq<char>, j: int)
    requires
        0 <= j <= s.len(),
    ensures
        decimal_value(s.subrange(0, j)) <= decimal_value(s),
    decreases s.len(),
{
    if j < s.len() {
        assert(s.drop_last() == s.subrange(0, s.len() - 1));
        lemma_decimal_value_monotone(s.drop_last(), j);
        assert(s.drop_last().subrange(0, j) == s.subrange(0, j));
    } else {
        assert(s.subrange(0, j) == s);
    }
}

/// The decimal text of a number is a run of digits that denotes that number.
pub proof fn lemma_decimal_round_trip(n: nat)
    ensures
        is_decimal(decimal(n)),
        decimal_value(decimal(n)) == n,
    decreases n,
{
    if n < 10 {
        lemma_digit_char(n);
        assert(decimal(n).drop_last() =~= Seq::<char>::empty());
        assert(decimal_value(Seq::<char>::empty()) == 0);
        assert(decimal_value(decimal(n)) == decimal_value(decimal(n).drop_last()) * 10
            + digit_value(decimal(n).last()));
    } else {
        lemma_decimal_round_trip(n / 10);
        lemma_digit_char(n % 10);
        let s = decimal(n);
        assert(s.drop_last() =~= decimal(n / 10));
        assert forall|i: int| 0 <= i < s.len() implies is_digit(#[trigger] s[i]) by {
            if i < s.len() - 1 {
                assert(s[i] == decimal(n / 10)[i]);
            }
        }
        assert(s.last() == digit_char(n % 10));
        assert(decimal_value(s) == decimal_value(s.drop_last()) * 10 + digit_value(s.last()));
        assert((n / 10) * 10 + n % 10 == n);
    }
}

/// A number sent as text and the same number sent as a JSON number decode to
/// the same value.
pub proof fn lemma_tolerant_number(n: u64, as_text: Scalar, as_number: Scalar)
    requires
        as_text is Text,
        scalar_text(as_text) == decimal(n as nat),
        as_number == Scalar::Number(n),
    ensures
        scalar_u64(as_text) == scalar_u64(as_number),
        scalar_u64(as_number) == Ok::<u64, DecodeError>(n),
{
    lemma_decimal_round_trip(n as nat);
}

/// Reads a number sent either as decimal text or as a JSON number.
pub fn tolerant_u64(w: &Scalar) -> (r: Result<u64, DecodeError>)
    ensures
        r == scalar_u64(*w),
{
    match w {
        Scalar::Number(n) => Ok(*n),
        Scalar::Text(s) => match parse_decimal(s.as_str()) {
            Some(v) => Ok(v),
            None => Err(DecodeError::InvalidNumber),
        },
    }
}

/// Reads a value that is text on the wire but that some servers send as a
/// JSON number; a number becomes its decimal text.
pub fn tolerant_text(w: &Scalar) -> (r: String)
    ensures
        r@ == scalar_text(*w),
{
    match w {
        Scalar::Number(n) => decimal_string(*n),
        Scalar::Text(s) => s.clone(),
    }
}

/// Parses a non-empty run of decimal digits that fits in 64 bits.
pub fn parse_decimal(s: &str) -> (r: Option<u64>)
    ensures
        r is Some <==> (is_decimal(s@) && decimal_value(s@) <= u64::MAX),
        r matches Some(v) ==> v == decimal_value(s@),
{
    let n: usize = s.unicode_len();
    if n == 0 {
        return None;
    }
    let mut acc: u64 = 0;
    let mut i: usize = 0;
    while i < n
        invariant
            n == s@.len(),
            0 <= i <= n,
            forall|k: int| 0 <= k < i ==> is_digit(#[trigger] s@[k]),
            acc == decimal_value(s@.subrange(0, i as int)),
        decreases n - i,
    {
        let c = s.get_char(i);
        if !('0' <= c && c <= '9') {
            return None;
        }
        let d: u64 = (c as u32 - '0' as u32) as u64;
        proof {
            let p = s@.subrange(0, i as int + 1);
            assert(p.drop_last() =~= s@.subrange(0, i as int));
            assert(p.last() == c);
        }
        if acc > (u64::MAX - d) / 10 {
            proof {
                assert(decimal_value(s@.subrange(0, i as int + 1)) > u64::MAX);
                lemma_decimal_value_monotone(s@, i as int + 1);
            }
            return None;
        }
        acc = acc * 10 + d;
        i = i + 1;
    }
    proof {
        assert(s@.subrange(0, n as int) =~= s@);
    }
    Some(acc)
}

fn digit_str(d: u64) -> (r: &'static str)
    requires
        d < 10,
    ensures
        r@ == seq![digit_char(d as nat)],
{
    proof {
        reveal_strlit("0");
        reveal_strlit("1");
        reveal_strlit("2");
        reveal_strlit("3");
        reveal_strlit("4");
        reveal_strlit("5");
        reveal_strlit("6");
        reveal_strlit("7");
        reveal_strlit("8");
        reveal_strlit("9");
    }
    if d == 0 {
        "0"
    } else if d == 1 {
        "1"
    } else if d == 2 {
        "2"
    } else if d == 3 {
        "3"
    } else if d == 4 {
        "4"
    } else if d == 5 {
        "5"
    } else if d == 6 {
        "6"
    } else if d == 7 {
        "7"
    } else if d == 8 {
        "8"
    } else {
        "9"
    }
}

/// The canonical decimal text of `n`.
pub fn decimal_string(n: u64) -> (r: String)
    ensures
        r@ == decimal(n as nat),
    decreases n,
{
    if n < 10 {
        String::from_str(digit_str(n))
    } else {
        let mut s = decimal_string(n / 10);
        s.append(digit_str(n % 10));
        s
    }
}

} // verus!

verus! {

/// How an optional member appears in a decoded object.
pub enum Member<T> {
    /// The key is absent.
    Missing,
    /// The key holds an explicit null.
    Null,
    /// The key holds a value.
    Present(T),
}

/// What an optional member decodes to: a missing key and an explicit null
/// both mean "no value".
pub open spec fn member_value<T>(m: Member<T>) -> Option<T> {
    match m {
        Member::Present(v) => Some(v),
        _ => None,
    }
}

/// Decodes an optional member.
pub fn optional_member<T>(m: Member<T>) -> (r: Option<T>)
    ensures
        r == member_value(m),
        m is Missing ==> r is None,
        m is Null ==> r is None,
{
    match m {
        Member::Present(v) => Some(v),
        _ => None,
    }
}

/// Decodes a collection member that the server may leave out: an absent
/// collection is an empty one.
pub fn vec_or_empty<T>(m: Option<Vec<T>>) -> (r: Vec<T>)
    ensures
        r@ == match m {
            Some(v) => v@,
            None => Seq::<T>::empty(),
        },
{
    match m {
        Some(v) => v,
        None => Vec::new(),
    }
}

} // verus!
