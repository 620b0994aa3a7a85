//! Text helpers shared by the wrappers: decimal rendering of status codes and
//! the NUL-terminated argument buffers handed to the C layer.

use vstd::prelude::*;

use vstd::string::StringExecFns;
use vstd::string::StringSliceAdditionalSpecFns;

use crate::error::NetworkError;

verus! {

/// The character of a decimal digit.
pub open spec fn digit_char(d: nat) -> char {
    if d == 0 { '0' }
    else if d == 1 { '1' }
    else if d == 2 { '2' }
    else if d == 3 { '3' }
    else if d == 4 { '4' }
    else if d == 5 { '5' }
    else if d == 6 { '6' }
    else if d == 7 { '7' }
    else if d == 8 { '8' }
    else { '9' }
}

/// Decimal rendering of a natural number, most significant digit first.
pub open spec fn decimal(n: nat) -> Seq<char>
    decreases n,
{
    if n < 10 {
        seq![digit_char(n)]
    } else {
        decimal(n / 10) + seq![digit_char(n % 10)]
    }
}

/// Decimal rendering of an integer, with a leading `-` when negative.
pub open spec fn signed_decimal(i: int) -> Seq<char> {
    if i < 0 {
        seq!['-'] + decimal((-i) as nat)
    } else {
        decimal(i as nat)
    }
}

/// The value of a decimal digit character.
pub open spec fn digit_value(c: char) -> int {
    c as int - '0' as int
}

/// The number that a string of decimal digits spells, most significant first.
pub open spec fn parse_decimal(s: Seq<char>) -> int
    decreases s.len(),
{
    if s.len() == 0 {
        0
    } else {
        parse_decimal(s.drop_last()) * 10 + digit_value(s.last())
    }
}

proof fn lemma_digit_value(d: nat)
    requires
        d < 10,
    ensures
        digit_value(digit_char(d)) == d,
        '0' <= digit_char(d) <= '9',
{
    assert('0' as int == 48);
    if d == 0 { assert('0' as int == 48); }
    else if d == 1 { assert('1' as int == 49); }
    else if d == 2 { assert('2' as int == 50); }
    else if d == 3 { assert('3' as int == 51); }
    else if d == 4 { assert('4' as int == 52); }
    else if d == 5 { assert('5' as int == 53); }
    else if d == 6 { assert('6' as int == 54); }
    else if d == 7 { assert('7' as int == 55); }
    else if d == 8 { assert('8' as int == 56); }
    else { assert('9' as int == 57); }
}

/// Every character of a decimal rendering is a digit, and reading the
/// rendering back gives the number.
pub proof fn lemma_decimal_round_trip(n: nat)
    ensures
        parse_decimal(decimal(n)) == n,
        forall|i: int| 0 <= i < decimal(n).len() ==> '0' <= #[trigger] decimal(n)[i] <= '9',
        decimal(n).len() >= 1,
    decreases n,
{
    if n < 10 {
        lemma_digit_value(n);
        assert(decimal(n) == seq![digit_char(n)]);
        assert(seq![digit_char(n)].drop_last() =~= Seq::<char>::empty());
        assert(parse_decimal(Seq::<char>::empty()) == 0);
        assert(parse_decimal(seq![digit_char(n)]) == digit_value(digit_char(n)));
    } else {
        lemma_decimal_round_trip(n / 10);
        let prefix = decimal(n / 10);
        let d = digit_char(n % 10);
        assert(decimal(n) == prefix + seq![d]);
        assert((prefix + seq![d]).drop_last() =~= prefix);
        assert((prefix + seq![d]).last() == d);
        lemma_digit_value(n % 10);
        assert(parse_decimal(decimal(n)) == parse_decimal(prefix) * 10 + digit_value(d));
        assert((n / 10) * 10 + n % 10 == n);
        assert forall|i: int| 0 <= i < decimal(n).len() implies '0' <= #[trigger] decimal(n)[i] <= '9' by {
            if i < prefix.len() {
                assert(decimal(n)[i] == prefix[i]);
            }
        }
    }
}

fn digit_str(d: u64) -> (s: &'static str)
    requires
        d < 10,
    ensures
        s@ == seq![digit_char(d as nat)],
{
    if d == 0 {
        proof { reveal_strlit("0"); }
        "0"
    } else if d == 1 {
        proof { reveal_strlit("1"); }
        "1"
    } else if d == 2 {
        proof { reveal_strlit("2"); }
        "2"
    } else if d == 3 {
        proof { reveal_strlit("3"); }
        "3"
    } else if d == 4 {
        proof { reveal_strlit("4"); }
        "4"
    } else if d == 5 {
        proof { reveal_strlit("5"); }
        "5"
    } else if d == 6 {
        proof { reveal_strlit("6"); }
        "6"
    } else if d == 7 {
        proof { reveal_strlit("7"); }
        "7"
    } else if d == 8 {
        proof { reveal_strlit("8"); }
        "8"
    } else {
        proof { reveal_strlit("9"); }
        "9"
    }
}

/// Append the decimal rendering of `n` to `s`.
pub fn append_decimal(s: &mut String, n: u64)
    ensures
        final(s)@ == old(s)@ + decimal(n as nat),
    decreases n,
{
    if n >= 10 {
        append_decimal(s, n / 10);
    }
    let d = digit_str(n % 10);
    s.append(d);
    proof {
        assert(decimal(n as nat) == if n < 10 {
            seq![digit_char(n as nat)]
        } else {
            decimal((n / 10) as nat) + seq![digit_char((n % 10) as nat)]
        });
    }
}

/// Append the signed decimal rendering of `i` to `s`.
pub fn append_signed_decimal(s: &mut String, i: i64)
    requires
        i > i64::MIN,
    ensures
        final(s)@ == old(s)@ + signed_decimal(i as int),
{
    if i < 0 {
        proof { reveal_strlit("-"); }
        s.append("-");
        append_decimal(s, (-i) as u64);
    } else {
        append_decimal(s, i as u64);
    }
}

/// Whether a byte string holds a zero byte.
pub open spec fn has_nul(bytes: Seq<u8>) -> bool {
    exists|i: int| 0 <= i < bytes.len() && bytes[i] == 0
}

/// `p` is the position of the first zero byte of `bytes`.
pub open spec fn first_nul_at(bytes: Seq<u8>, p: int) -> bool {
    &&& 0 <= p < bytes.len()
    &&& bytes[p] == 0
    &&& forall|j: int| 0 <= j < p ==> bytes[j] != 0
}

/// The message that reports a NUL byte at position `p`, after `label`.
pub open spec fn nul_message(label: Seq<char>, p: nat) -> Seq<char> {
    label + ": nul byte found in provided data at position: "@ + decimal(p)
}

/// The label under which a NUL byte in the argument `field` is reported.
pub open spec fn nul_byte_label(field: Seq<char>) -> Seq<char> {
    field + " NUL byte"@
}

/// The outcome of turning `value` into a NUL-terminated argument whose NUL
/// bytes are reported after `label`.
pub open spec fn c_string_labeled_outcome(value: Seq<u8>, label: Seq<char>, r: Result<Vec<u8>, NetworkError>) -> bool {
    match r {
        Ok(v) => !has_nul(value) && v@ == value.push(0u8),
        Err(e) => exists|p: int| first_nul_at(value, p)
            && (e matches NetworkError::InvalidArgument(m) && m@ == nul_message(label, p as nat)),
    }
}

/// The outcome of turning `value` into a NUL-terminated argument named `field`.
pub open spec fn c_string_outcome(value: Seq<u8>, field: Seq<char>, r: Result<Vec<u8>, NetworkError>) -> bool {
    c_string_labeled_outcome(value, nul_byte_label(field), r)
}

/// Turn `value` into the NUL-terminated bytes of a C string argument, or
/// report its first interior NUL byte as an invalid argument after `label`.
pub fn c_string_labeled(value: &str, label: &str) -> (r: Result<Vec<u8>, NetworkError>)
    ensures
        c_string_labeled_outcome(value.spec_bytes(), label@, r),
        r is Ok <==> !has_nul(value.spec_bytes()),
{
    let bytes = value.as_bytes();
    let mut out: Vec<u8> = Vec::new();
    let mut i: usize = 0;
    while i < bytes.len()
        invariant
            bytes@ == value.spec_bytes(),
            i <= bytes.len(),
            out@ == bytes@.take(i as int),
            forall|j: int| 0 <= j < i ==> bytes@[j] != 0,
        decreases bytes.len() - i,
    {
        if bytes[i] == 0 {
            let mut message = String::from_str(label);
            proof { reveal_strlit(": nul byte found in provided data at position: "); }
            message.append(": nul byte found in provided data at position: ");
            append_decimal(&mut message, i as u64);
            assert(first_nul_at(bytes@, i as int));
            return Err(NetworkError::InvalidArgument(message));
        }
        out.push(bytes[i]);
        i = i + 1;
        assert(out@ == bytes@.take(i as int));
    }
    out.push(0u8);
    assert(bytes@.take(i as int) == bytes@);
    Ok(out)
}

/// Turn `value` into the NUL-terminated bytes of a C string argument, or
/// report its first interior NUL byte as an invalid argument named `field`.
pub fn c_string_bytes(value: &str, field: &str) -> (r: Result<Vec<u8>, NetworkError>)
    ensures
        c_string_outcome(value.spec_bytes(), field@, r),
        r is Ok <==> !has_nul(value.spec_bytes()),
{
    let mut label = String::from_str(field);
    proof { reveal_strlit(" NUL byte"); }
    label.append(" NUL byte");
    c_string_labeled(value, label.as_str())
}

/// A C string made from a value is the value's bytes followed by a single
/// terminating zero: the terminator is its last byte and no byte before it
/// is zero, so the C side reads back exactly the value.
pub proof fn lemma_c_string_single_terminator(value: Seq<u8>, label: Seq<char>, v: Vec<u8>)
    requires
        c_string_labeled_outcome(value, label, Ok(v)),
    ensures
        v@.len() == value.len() + 1,
        v@.last() == 0u8,
        forall|i: int| 0 <= i < v@.len() - 1 ==> v@[i] != 0u8,
        v@.drop_last() == value,
{
    assert(v@.drop_last() =~= value);
    assert forall|i: int| 0 <= i < v@.len() - 1 implies v@[i] != 0u8 by {
        assert(v@[i] == value[i]);
        if value[i] == 0 {
            assert(has_nul(value));
        }
    }
}

/// The view of an optional string argument.
pub open spec fn optional_str_bytes(value: Option<&str>) -> Option<Seq<u8>> {
    match value {
        Some(v) => Some(v.spec_bytes()),
        None => None,
    }
}

/// The outcome of turning an optional argument named `field` into an
/// optional C string.
pub open spec fn optional_c_string_outcome(
    value: Option<Seq<u8>>,
    field: Seq<char>,
    r: Result<Option<Vec<u8>>, NetworkError>,
) -> bool {
    match value {
        None => r == Ok::<Option<Vec<u8>>, NetworkError>(None),
        Some(v) => match r {
            Ok(Some(b)) => c_string_outcome(v, field, Ok(b)),
            Ok(None) => false,
            Err(e) => c_string_outcome(v, field, Err(e)),
        },
    }
}

/// Turn an optional argument named `field` into an optional C string: no
/// value stays no value.
pub fn optional_c_string(value: Option<&str>, field: &str) -> (r: Result<Option<Vec<u8>>, NetworkError>)
    ensures
        optional_c_string_outcome(optional_str_bytes(value), field@, r),
{
    match value {
        None => Ok(None),
        Some(v) => match c_string_bytes(v, field) {
            Ok(b) => Ok(Some(b)),
            Err(e) => Err(e),
        },
    }
}

} // verus!
