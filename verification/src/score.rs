//! Similarity scores, held as IEEE-754 binary64 bit patterns and compared
//! the way the floating-point operators compare them.

use vstd::prelude::*;

verus! {

/// Bit pattern of the sign bit of a binary64 value.
pub const SIGN_BIT: u64 = 0x8000_0000_0000_0000u64;

/// Bit pattern of an infinite magnitude: every exponent bit set, no
/// mantissa bit set. A larger magnitude is a NaN.
pub const INFINITE_MAGNITUDE: u64 = 0x7ff0_0000_0000_0000u64;

/// Whether the sign bit of `bits` is set.
pub open spec fn spec_sign(bits: u64) -> bool {
    bits >= SIGN_BIT
}

/// The bits of `bits` below the sign bit: exponent and mantissa.
pub open spec fn spec_magnitude(bits: u64) -> int {
    if spec_sign(bits) {
        bits - SIGN_BIT
    } else {
        bits as int
    }
}

/// Whether `bits` encodes a NaN.
pub open spec fn spec_is_nan(bits: u64) -> bool {
    spec_magnitude(bits) > INFINITE_MAGNITUDE
}

/// A key whose integer order is the order of the (non-NaN) values encoded by
/// the bits: magnitudes grow with the value for a clear sign bit and shrink
/// with it for a set one, and both zeros get the key 0.
pub open spec fn spec_order_key(bits: u64) -> int {
    if spec_sign(bits) {
        -spec_magnitude(bits)
    } else {
        spec_magnitude(bits)
    }
}

/// `a < b` on the binary64 values encoded by `a` and `b`: false when either
/// is a NaN.
pub open spec fn spec_float_lt(a: u64, b: u64) -> bool {
    !spec_is_nan(a) && !spec_is_nan(b) && spec_order_key(a) < spec_order_key(b)
}

/// `a >= b` on the binary64 values encoded by `a` and `b`: false when either
/// is a NaN.
pub open spec fn spec_float_ge(a: u64, b: u64) -> bool {
    !spec_is_nan(a) && !spec_is_nan(b) && spec_order_key(a) >= spec_order_key(b)
}

/// `a == b` on the binary64 values encoded by `a` and `b`: false when either
/// is a NaN, true for the two zeros.
pub open spec fn spec_float_eq(a: u64, b: u64) -> bool {
    !spec_is_nan(a) && !spec_is_nan(b) && spec_order_key(a) == spec_order_key(b)
}

/// A score of a hit, kept as the bit pattern of its binary64 value
/// (`f64::to_bits`).
#[derive(Clone, Copy, Debug)]
pub struct Score {
    pub bits: u64,
}

impl Score {
    /// The score whose binary64 bit pattern is `bits`.
    pub fn from_bits(bits: u64) -> (s: Score)
        ensures
            s.bits == bits,
    {
        Score { bits }
    }

    /// The binary64 bit pattern of this score.
    pub fn to_bits(&self) -> (bits: u64)
        ensures
            bits == self.bits,
    {
        self.bits
    }

    /// The score 0.0.
    pub fn zero() -> (s: Score)
        ensures
            s.bits == 0,
    {
        Score { bits: 0 }
    }

    /// Whether this score is a NaN.
    pub fn is_nan(&self) -> (r: bool)
        ensures
            r == spec_is_nan(self.bits),
    {
        magnitude(self.bits) > INFINITE_MAGNITUDE
    }

    /// `self < other` as binary64 values.
    pub fn lt(&self, other: &Score) -> (r: bool)
        ensures
            r == spec_float_lt(self.bits, other.bits),
    {
        if self.is_nan() || other.is_nan() {
            return false;
        }
        let m1 = magnitude(self.bits);
        let m2 = magnitude(other.bits);
        let s1 = self.bits >= SIGN_BIT;
        let s2 = other.bits >= SIGN_BIT;
        if s1 && s2 {
            m2 < m1
        } else if s1 {
            m1 != 0 || m2 != 0
        } else if s2 {
            false
        } else {
            m1 < m2
        }
    }

    /// `self >= other` as binary64 values.
    pub fn ge(&self, other: &Score) -> (r: bool)
        ensures
            r == spec_float_ge(self.bits, other.bits),
    {
        !self.is_nan() && !other.is_nan() && !self.lt(other)
    }
}

/// The exponent and mantissa bits of `bits`.
fn magnitude(bits: u64) -> (m: u64)
    ensures
        m == spec_magnitude(bits),
{
    if bits >= SIGN_BIT {
        bits - SIGN_BIT
    } else {
        bits
    }
}

impl PartialEq for Score {
    fn eq(&self, other: &Score) -> (r: bool) {
        if self.is_nan() || other.is_nan() {
            return false;
        }
        let m1 = magnitude(self.bits);
        let m2 = magnitude(other.bits);
        if m1 == 0 && m2 == 0 {
            true
        } else {
            self.bits == other.bits
        }
    }
}

impl vstd::std_specs::cmp::PartialEqSpecImpl for Score {
    open spec fn obeys_eq_spec() -> bool {
        true
    }

    open spec fn eq_spec(&self, other: &Score) -> bool {
        spec_float_eq(self.bits, other.bits)
    }
}

} // verus!
