//! Machine-integer helpers whose results are stated over mathematical integers.
use vstd::prelude::*;

verus! {

/// The value of a 32-bit pattern read as a two's complement number.
pub open spec fn wrap_i32(value: u32) -> int {
    if value < 0x8000_0000 {
        value as int
    } else {
        value - 0x1_0000_0000
    }
}

/// `value` brought into the range of `i32`.
pub open spec fn sat_i32(value: int) -> int {
    clamp_int(value, i32::MIN as int, i32::MAX as int)
}

/// `value` brought into the range of `u32`.
pub open spec fn sat_u32(value: int) -> int {
    clamp_int(value, 0, u32::MAX as int)
}

/// `value` brought between `low` and `high`.
pub open spec fn clamp_int(value: int, low: int, high: int) -> int {
    if value < low {
        low
    } else if value > high {
        high
    } else {
        value
    }
}

/// The smaller of two numbers.
pub open spec fn min_int(a: int, b: int) -> int {
    if a <= b {
        a
    } else {
        b
    }
}

/// The larger of two numbers.
pub open spec fn max_int(a: int, b: int) -> int {
    if a >= b {
        a
    } else {
        b
    }
}

/// The absolute value of a number.
pub open spec fn abs_int(a: int) -> int {
    if a < 0 {
        -a
    } else {
        a
    }
}

/// -1, 0 or 1, as a number is negative, zero or positive.
pub open spec fn sign_int(a: int) -> int {
    if a < 0 {
        -1
    } else if a > 0 {
        1
    } else {
        0
    }
}

/// The end of an extent of `length` units that starts at `start`: the length is read as a signed
/// number and the sum saturates.
pub open spec fn far_edge(start: i32, length: u32) -> int {
    sat_i32(start + wrap_i32(length))
}

/// Reads a 32-bit pattern as a signed number.
pub fn u32_as_i32(value: u32) -> (r: i32)
    ensures
        r == wrap_i32(value),
{
    assert(value < 0x8000_0000u32 ==> (value as i32) == value) by (bit_vector);
    assert(value >= 0x8000_0000u32 ==> (value as i32) == value - 0x1_0000_0000) by (bit_vector);
    value as i32
}

/// Adds two numbers and saturates at the ends of the range of `i32`.
pub fn saturating_add_i32(a: i32, b: i32) -> (r: i32)
    ensures
        r == sat_i32(a + b),
{
    narrow_i32(a as i64 + b as i64)
}

/// Subtracts two numbers and saturates at the ends of the range of `i32`.
pub fn saturating_sub_i32(a: i32, b: i32) -> (r: i32)
    ensures
        r == sat_i32(a - b),
{
    narrow_i32(a as i64 - b as i64)
}

/// Brings a number into the range of `i32`.
pub fn narrow_i32(value: i64) -> (r: i32)
    ensures
        r == sat_i32(value as int),
{
    if value < i32::MIN as i64 {
        i32::MIN
    } else if value > i32::MAX as i64 {
        i32::MAX
    } else {
        value as i32
    }
}

/// Computes [`far_edge`].
pub fn far_edge_of(start: i32, length: u32) -> (r: i32)
    ensures
        r == far_edge(start, length),
{
    saturating_add_i32(start, u32_as_i32(length))
}

/// The absolute value of a number.
pub fn abs_i64(value: i64) -> (r: i64)
    requires
        value > i64::MIN,
    ensures
        r == abs_int(value as int),
{
    if value < 0 {
        -value
    } else {
        value
    }
}

/// The sign of a number.
pub fn sign_i64(value: i64) -> (r: i64)
    ensures
        r == sign_int(value as int),
{
    if value < 0 {
        -1
    } else if value > 0 {
        1
    } else {
        0
    }
}

} // verus!
