//! Order keys: the integers by which this crate knows a real number.
//!
//! A double-precision number is handed over as a signed 64-bit key made from its
//! IEEE 754 bit pattern. A pattern with a clear sign bit is its own key; one
//! with the sign bit set has the key `-1 - m`, where `m` is the pattern without
//! the sign bit. Keys therefore grow with the numbers they stand for: the
//! comparisons of IEEE 754 become integer comparisons, with the two zeros and
//! the patterns that are no number (NaN) as the only special cases.
//!
//! ```text
//!   key                      number
//!   KEY_INFINITY + 1 ..      NaN
//!   KEY_INFINITY             +infinity
//!   1 .. KEY_INFINITY - 1    the positive finite numbers, ascending
//!   0                        +0
//!   -1                       -0
//!   -KEY_INFINITY .. -2      the negative finite numbers, ascending
//!   -1 - KEY_INFINITY        -infinity
//!   .. -2 - KEY_INFINITY     NaN
//! ```

use vstd::prelude::*;

verus! {

/// The sign bit of a bit pattern.
pub const SIGN_BIT: u64 = 0x8000_0000_0000_0000;

/// The key of positive infinity.
pub const KEY_INFINITY: i64 = 0x7FF0_0000_0000_0000;

/// The key of positive zero.
pub const KEY_ZERO: i64 = 0;

/// The key of negative zero.
pub const KEY_NEGATIVE_ZERO: i64 = -1;

/// The key of the number whose bit pattern is `bits`.
pub open spec fn key_of_bits(bits: u64) -> int {
    if bits < SIGN_BIT {
        bits as int
    } else {
        SIGN_BIT - 1 - bits
    }
}

/// The bit pattern of the number whose key is `key`.
pub open spec fn bits_of_key(key: i64) -> int {
    if key >= 0 {
        key as int
    } else {
        SIGN_BIT - 1 - key
    }
}

/// The key of the absolute value: the bit pattern without its sign.
pub open spec fn magnitude(key: i64) -> int {
    if key >= 0 {
        key as int
    } else {
        -1 - key
    }
}

/// The key stands for a number: it is not one of the NaN patterns.
pub open spec fn is_number(key: i64) -> bool {
    magnitude(key) <= KEY_INFINITY
}

/// `a < b` as IEEE 754 compares: false when either is NaN, and the two zeros
/// are equal.
pub open spec fn less_than(a: i64, b: i64) -> bool {
    &&& is_number(a)
    &&& is_number(b)
    &&& a < b
    &&& !(a == KEY_NEGATIVE_ZERO && b == KEY_ZERO)
}

/// `a <= b` as IEEE 754 compares: false when either is NaN, and the two zeros
/// are equal.
pub open spec fn less_equal(a: i64, b: i64) -> bool {
    &&& is_number(a)
    &&& is_number(b)
    &&& (a <= b || (a == KEY_ZERO && b == KEY_NEGATIVE_ZERO))
}

/// `0 < key` as IEEE 754 compares.
pub open spec fn is_positive(key: i64) -> bool {
    0 < key <= KEY_INFINITY
}

/// `0 <= key` as IEEE 754 compares: negative zero is not below zero.
pub open spec fn is_non_negative(key: i64) -> bool {
    KEY_NEGATIVE_ZERO <= key <= KEY_INFINITY
}

/// Makes the key of a bit pattern.
pub fn from_bits(bits: u64) -> (key: i64)
    ensures
        key == key_of_bits(bits),
        bits_of_key(key) == bits,
{
    if bits < SIGN_BIT {
        bits as i64
    } else {
        -1 - ((bits - SIGN_BIT) as i64)
    }
}

/// Gives back the bit pattern of a key.
pub fn to_bits(key: i64) -> (bits: u64)
    ensures
        bits == bits_of_key(key),
        key_of_bits(bits) == key,
{
    if key >= 0 {
        key as u64
    } else {
        ((-1 - key) as u64) + SIGN_BIT
    }
}

/// The key of the absolute value of the number behind `key`.
pub fn abs(key: i64) -> (r: i64)
    ensures
        r == magnitude(key),
{
    if key >= 0 {
        key
    } else {
        -1 - key
    }
}

/// Whether the key stands for no number.
pub fn is_nan(key: i64) -> (r: bool)
    ensures
        r == !is_number(key),
{
    abs(key) > KEY_INFINITY
}

/// `a < b` on the numbers behind two keys.
pub fn lt(a: i64, b: i64) -> (r: bool)
    ensures
        r == less_than(a, b),
{
    !is_nan(a) && !is_nan(b) && a < b && !(a == KEY_NEGATIVE_ZERO && b == KEY_ZERO)
}

/// `a <= b` on the numbers behind two keys.
pub fn le(a: i64, b: i64) -> (r: bool)
    ensures
        r == less_equal(a, b),
{
    !is_nan(a) && !is_nan(b) && (a <= b || (a == KEY_ZERO && b == KEY_NEGATIVE_ZERO))
}

/// `0 < x` on the number behind a key.
pub fn positive(key: i64) -> (r: bool)
    ensures
        r == is_positive(key),
{
    0 < key && key <= KEY_INFINITY
}

/// `0 <= x` on the number behind a key.
pub fn non_negative(key: i64) -> (r: bool)
    ensures
        r == is_non_negative(key),
{
    KEY_NEGATIVE_ZERO <= key && key <= KEY_INFINITY
}

/// A key reads the two fields of its bit pattern: it is negative exactly when
/// the sign bit is set, and its magnitude is the pattern without that bit.
pub proof fn lemma_key_reads_sign_and_magnitude(bits: u64)
    ensures
        key_of_bits(bits) < 0 <==> bits >> 63 == 1,
        key_of_bits(bits) >= 0 ==> key_of_bits(bits) == bits & 0x7FFF_FFFF_FFFF_FFFF,
        key_of_bits(bits) < 0 ==> -1 - key_of_bits(bits) == bits & 0x7FFF_FFFF_FFFF_FFFF,
{
    assert(bits < 0x8000_0000_0000_0000 ==> bits >> 63 == 0 && bits & 0x7FFF_FFFF_FFFF_FFFF == bits)
        by (bit_vector);
    assert(bits >= 0x8000_0000_0000_0000 ==> bits >> 63 == 1 && bits & 0x7FFF_FFFF_FFFF_FFFF == bits
        - 0x8000_0000_0000_0000) by (bit_vector);
}

/// Keys and bit patterns correspond one to one.
pub proof fn lemma_key_round_trip(bits: u64, key: i64)
    ensures
        i64::MIN <= key_of_bits(bits) <= i64::MAX,
        0 <= bits_of_key(key) <= u64::MAX,
        bits_of_key(key_of_bits(bits) as i64) == bits,
        key_of_bits(bits_of_key(key) as u64) == key,
{
}

/// Keys order as the numbers do: of two numbers the smaller has the smaller
/// key, and two numbers whose keys stand in order stand in order themselves.
/// The converse of the second fails only for the two zeros, which are equal as
/// numbers and differ as keys.
pub proof fn lemma_key_order_is_number_order(a: i64, b: i64)
    requires
        is_number(a),
        is_number(b),
    ensures
        less_than(a, b) ==> a < b,
        a <= b ==> less_equal(a, b) && !less_than(b, a),
        less_equal(a, b) ==> a <= b || (a == KEY_ZERO && b == KEY_NEGATIVE_ZERO),
        less_equal(a, b) <==> !less_than(b, a),
        is_positive(a) <==> less_than(KEY_ZERO, a),
        is_non_negative(a) <==> less_equal(KEY_ZERO, a),
{
}

} // verus!
