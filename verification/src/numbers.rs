//! Decimal rendering of the numeric fields that appear in emitted rows:
//! machine integers, and unsigned big integers carried as big-endian bytes.

use vstd::prelude::*;
use vstd::string::StringExecFns;

verus! {

/// Decimal digit character for a value below ten.
pub open spec fn dec_digit(d: nat) -> char {
    if d == 0 {
        '0'
    } else if d == 1 {
        '1'
    } else if d == 2 {
        '2'
    } else if d == 3 {
        '3'
    } else if d == 4 {
        '4'
    } else if d == 5 {
        '5'
    } else if d == 6 {
        '6'
    } else if d == 7 {
        '7'
    } else if d == 8 {
        '8'
    } else {
        '9'
    }
}

/// Decimal representation of a natural number, without leading zeroes
/// (zero itself is the single digit `0`).
pub open spec fn dec_of(n: nat) -> Seq<char>
    decreases n,
{
    if n < 10 {
        seq![dec_digit(n)]
    } else {
        dec_of(n / 10).push(dec_digit(n % 10))
    }
}

/// Decimal representation of a signed value: a leading minus sign for a
/// negative value, the plain digits otherwise.
pub open spec fn dec_of_int(n: int) -> Seq<char> {
    if n >= 0 {
        dec_of(n as nat)
    } else {
        seq!['-'] + dec_of((-n) as nat)
    }
}

/// The unsigned value of a big-endian byte string; an empty string is zero.
pub open spec fn be_value(b: Seq<u8>) -> nat
    decreases b.len(),
{
    if b.len() == 0 {
        0
    } else {
        be_value(b.drop_last()) * 256 + b.last() as nat
    }
}

/// Decimal form of an optional big integer: the exact decimal value when
/// present, the given default when absent.
pub open spec fn opt_bigint_dec(v: Option<Vec<u8>>, default: Seq<char>) -> Seq<char> {
    match v {
        Some(b) => dec_of(be_value(b@)),
        None => default,
    }
}

/// Relies on the decimal `Display` of `u64` in std, through `ToString`.
#[verifier::external_body]
pub(crate) fn u64_to_string(n: u64) -> (r: String)
    ensures
        r@ == dec_of(n as nat),
{
    n.to_string()
}

/// Relies on the decimal `Display` of `i64` in std, through `ToString`.
#[verifier::external_body]
pub(crate) fn i64_to_string(n: i64) -> (r: String)
    ensures
        r@ == dec_of_int(n as int),
{
    n.to_string()
}

/// Relies on `substreams::scalar::BigInt::from_unsigned_bytes_be`, which reads
/// the bytes as an unsigned big-endian integer, and on its decimal `Display`.
#[verifier::external_body]
pub(crate) fn bigint_decimal(b: &Vec<u8>) -> (r: String)
    ensures
        r@ == dec_of(be_value(b@)),
{
    substreams::scalar::BigInt::from_unsigned_bytes_be(&b[..]).to_string()
}

/// Decimal form of an optional unsigned big integer carried as big-endian
/// bytes: the exact decimal value when present, the default literal unchanged
/// when absent.
pub fn optional_bigint_to_string(v: &Option<Vec<u8>>, default: &str) -> (r: String)
    ensures
        r@ == opt_bigint_dec(*v, default@),
        v is None ==> r@ == default@,
        v matches Some(b) ==> r@ == dec_of(be_value(b@)),
{
    match v {
        Some(b) => bigint_decimal(b),
        None => String::from_str(default),
    }
}

/// The fixed rendering of a boolean as a column value.
pub open spec fn bool_label(b: bool) -> Seq<char> {
    if b {
        "true"@
    } else {
        "false"@
    }
}

/// Renders a boolean as its fixed column value.
pub fn bool_to_string(b: bool) -> (r: String)
    ensures
        r@ == bool_label(b),
{
    if b {
        String::from_str("true")
    } else {
        String::from_str("false")
    }
}

} // verus!
