//! Binary floating point numbers held as their bit patterns.
//!
//! Positions, velocities and angles are kept as the bits of their IEEE 754
//! representation.  Everything that only compares, copies or clips such a
//! number is done here, on the bits.  Arithmetic is described by the terms of
//! [`crate::term`].

use vstd::prelude::*;

verus! {

/// The bits of a double precision number.
pub type Double = u64;

/// The bits of a single precision number.
pub type Single = u32;

/// The weight of the sign bit of a double.
pub const DOUBLE_SIGN: Double = 0x8000_0000_0000_0000;

/// The bits of positive infinity, the largest magnitude that is a number.
pub const DOUBLE_INFINITY: Double = 0x7ff0_0000_0000_0000;

/// The weight of the sign bit of a single.
pub const SINGLE_SIGN: Single = 0x8000_0000;

/// The bits of positive infinity, the largest magnitude that is a number.
pub const SINGLE_INFINITY: Single = 0x7f80_0000;

/// The bits of `1.0`.
pub const SINGLE_ONE: Single = 0x3f80_0000;

/// The bits of `90.0`.
pub const SINGLE_NINETY: Single = 0x42b4_0000;

/// The bits of `-90.0`.
pub const SINGLE_MINUS_NINETY: Single = 0xc2b4_0000;

/// The magnitude of a double: its bits without the sign bit.
pub open spec fn double_magnitude(a: Double) -> int {
    if a < DOUBLE_SIGN {
        a as int
    } else {
        a - DOUBLE_SIGN
    }
}

/// Whether the bits are no number at all.
pub open spec fn double_is_nan(a: Double) -> bool {
    double_magnitude(a) > DOUBLE_INFINITY
}

/// A double's place in the order of all doubles that are numbers.  The two
/// zeros share place 0.
pub open spec fn double_place(a: Double) -> int {
    if a < DOUBLE_SIGN {
        double_magnitude(a)
    } else {
        -double_magnitude(a)
    }
}

/// `a < b`; never true of something that is no number.
pub open spec fn double_lt(a: Double, b: Double) -> bool {
    !double_is_nan(a) && !double_is_nan(b) && double_place(a) < double_place(b)
}

/// `a <= b`; never true of something that is no number.
pub open spec fn double_le(a: Double, b: Double) -> bool {
    !double_is_nan(a) && !double_is_nan(b) && double_place(a) <= double_place(b)
}

/// Whether `a` and `b` are the same number; the two zeros are.
pub open spec fn double_same(a: Double, b: Double) -> bool {
    double_le(a, b) && double_le(b, a)
}

/// The magnitude of a single: its bits without the sign bit.
pub open spec fn single_magnitude(a: Single) -> int {
    if a < SINGLE_SIGN {
        a as int
    } else {
        a - SINGLE_SIGN
    }
}

/// Whether the bits are no number at all.
pub open spec fn single_is_nan(a: Single) -> bool {
    single_magnitude(a) > SINGLE_INFINITY
}

/// A single's place in the order of all singles that are numbers.
pub open spec fn single_place(a: Single) -> int {
    if a < SINGLE_SIGN {
        single_magnitude(a)
    } else {
        -single_magnitude(a)
    }
}

/// `a < b`; never true of something that is no number.
pub open spec fn single_lt(a: Single, b: Single) -> bool {
    !single_is_nan(a) && !single_is_nan(b) && single_place(a) < single_place(b)
}

/// `a <= b`; never true of something that is no number.
pub open spec fn single_le(a: Single, b: Single) -> bool {
    !single_is_nan(a) && !single_is_nan(b) && single_place(a) <= single_place(b)
}

/// The smaller of `a` and `1.0`, and `1.0` where `a` is no number.
pub open spec fn single_capped(a: Single) -> Single {
    if single_lt(a, SINGLE_ONE) {
        a
    } else {
        SINGLE_ONE
    }
}

/// `a` clipped to the range from `-90.0` to `90.0`; what is no number stays.
pub open spec fn single_clipped(a: Single) -> Single {
    if single_lt(a, SINGLE_MINUS_NINETY) {
        SINGLE_MINUS_NINETY
    } else if single_lt(SINGLE_NINETY, a) {
        SINGLE_NINETY
    } else {
        a
    }
}

/// The bits of a double with its sign bit cleared.
pub fn abs_double(a: Double) -> (r: Double)
    ensures
        r == double_magnitude(a),
{
    if a < DOUBLE_SIGN {
        a
    } else {
        a - DOUBLE_SIGN
    }
}

/// The bits of a single with its sign bit cleared.
pub fn abs_single(a: Single) -> (r: Single)
    ensures
        r == single_magnitude(a),
{
    if a < SINGLE_SIGN {
        a
    } else {
        a - SINGLE_SIGN
    }
}

/// Compares two doubles given by their bits.
pub fn lt_double(a: Double, b: Double) -> (r: bool)
    ensures
        r == double_lt(a, b),
{
    let x: Double = abs_double(a);
    let y: Double = abs_double(b);
    if x > DOUBLE_INFINITY || y > DOUBLE_INFINITY {
        false
    } else if a < DOUBLE_SIGN {
        b < DOUBLE_SIGN && x < y
    } else if b < DOUBLE_SIGN {
        x > 0 || y > 0
    } else {
        y < x
    }
}

/// Compares two doubles given by their bits.
pub fn le_double(a: Double, b: Double) -> (r: bool)
    ensures
        r == double_le(a, b),
{
    abs_double(a) <= DOUBLE_INFINITY && abs_double(b) <= DOUBLE_INFINITY && !lt_double(b, a)
}

/// Compares two singles given by their bits.
pub fn lt_single(a: Single, b: Single) -> (r: bool)
    ensures
        r == single_lt(a, b),
{
    let x: Single = abs_single(a);
    let y: Single = abs_single(b);
    if x > SINGLE_INFINITY || y > SINGLE_INFINITY {
        false
    } else if a < SINGLE_SIGN {
        b < SINGLE_SIGN && x < y
    } else if b < SINGLE_SIGN {
        x > 0 || y > 0
    } else {
        y < x
    }
}

/// Compares two singles given by their bits.
pub fn le_single(a: Single, b: Single) -> (r: bool)
    ensures
        r == single_le(a, b),
{
    abs_single(a) <= SINGLE_INFINITY && abs_single(b) <= SINGLE_INFINITY && !lt_single(b, a)
}

/// Caps a single at `1.0`.
pub fn cap_single(a: Single) -> (r: Single)
    ensures
        r == single_capped(a),
{
    if lt_single(a, SINGLE_ONE) {
        a
    } else {
        SINGLE_ONE
    }
}

/// Clips a single to the range from `-90.0` to `90.0`.
pub fn clip_single(a: Single) -> (r: Single)
    ensures
        r == single_clipped(a),
{
    if lt_single(a, SINGLE_MINUS_NINETY) {
        SINGLE_MINUS_NINETY
    } else if lt_single(SINGLE_NINETY, a) {
        SINGLE_NINETY
    } else {
        a
    }
}

} // verus!
