//! Binary floating-point values, held as their bit patterns.
//!
//! The tools compare, order and pass on floating-point values but leave arithmetic on them to
//! their callers. A value is therefore kept as its IEEE 754 bits, and the comparisons are integer
//! comparisons of those bits.

use vstd::prelude::*;

verus! {

/// A 64-bit floating-point value.
#[derive(Clone, Copy, Debug, PartialEq, Eq, Structural)]
pub struct Real64 {
    pub bits: u64,
}

/// A 32-bit floating-point value.
#[derive(Clone, Copy, Debug, PartialEq, Eq, Structural)]
pub struct Real32 {
    pub bits: u32,
}

/// The sign bit of a 64-bit value.
pub const SIGN_64: u64 = 0x8000_0000_0000_0000;

/// The bits of 64-bit infinity.
pub const INFINITY_64: u64 = 0x7ff0_0000_0000_0000;

/// The bits of the 64-bit one.
pub const ONE_64: u64 = 0x3ff0_0000_0000_0000;

/// The sign bit of a 32-bit value.
pub const SIGN_32: u32 = 0x8000_0000;

/// The bits of 32-bit infinity.
pub const INFINITY_32: u32 = 0x7f80_0000;

/// The bits of the 32-bit one.
pub const ONE_32: u32 = 0x3f80_0000;

impl Real64 {
    /// The bits without the sign.
    pub open spec fn magnitude(self) -> int {
        if self.bits >= SIGN_64 {
            self.bits - SIGN_64
        } else {
            self.bits as int
        }
    }

    pub open spec fn is_nan(self) -> bool {
        self.magnitude() > INFINITY_64
    }

    pub open spec fn is_finite(self) -> bool {
        self.magnitude() < INFINITY_64
    }

    /// An integer that orders the values that are numbers: magnitudes of the same sign are
    /// ordered as their bits, and both zeros share a rank.
    pub open spec fn rank(self) -> int {
        if self.bits >= SIGN_64 {
            -self.magnitude()
        } else {
            self.magnitude()
        }
    }

    /// IEEE `<`: false where either side is not a number.
    pub open spec fn is_less(self, other: Real64) -> bool {
        !self.is_nan() && !other.is_nan() && self.rank() < other.rank()
    }

    /// IEEE `<=`: false where either side is not a number.
    pub open spec fn is_at_most(self, other: Real64) -> bool {
        !self.is_nan() && !other.is_nan() && self.rank() <= other.rank()
    }

    /// IEEE `==`: false where either side is not a number, and true of the two zeros.
    pub open spec fn is_same(self, other: Real64) -> bool {
        !self.is_nan() && !other.is_nan() && self.rank() == other.rank()
    }

    pub fn from_bits(bits: u64) -> (r: Real64)
        ensures
            r.bits == bits,
    {
        Real64 { bits }
    }

    fn rank_of(self) -> (r: i128)
        ensures
            r == self.rank(),
    {
        if self.bits >= SIGN_64 {
            -((self.bits - SIGN_64) as i128)
        } else {
            self.bits as i128
        }
    }

    /// Whether the value is not a number.
    pub fn nan(self) -> (r: bool)
        ensures
            r == self.is_nan(),
    {
        let magnitude: u64 = if self.bits >= SIGN_64 {
            self.bits - SIGN_64
        } else {
            self.bits
        };
        magnitude > INFINITY_64
    }

    /// Whether the value is a finite number.
    pub fn finite(self) -> (r: bool)
        ensures
            r == self.is_finite(),
    {
        let magnitude: u64 = if self.bits >= SIGN_64 {
            self.bits - SIGN_64
        } else {
            self.bits
        };
        magnitude < INFINITY_64
    }

    /// IEEE `<`.
    pub fn less(self, other: Real64) -> (r: bool)
        ensures
            r == self.is_less(other),
    {
        !self.nan() && !other.nan() && self.rank_of() < other.rank_of()
    }

    /// IEEE `<=`.
    pub fn at_most(self, other: Real64) -> (r: bool)
        ensures
            r == self.is_at_most(other),
    {
        !self.nan() && !other.nan() && self.rank_of() <= other.rank_of()
    }

    /// IEEE `==`.
    pub fn same(self, other: Real64) -> (r: bool)
        ensures
            r == self.is_same(other),
    {
        !self.nan() && !other.nan() && self.rank_of() == other.rank_of()
    }
}

impl Real32 {
    /// The bits without the sign.
    pub open spec fn magnitude(self) -> int {
        if self.bits >= SIGN_32 {
            self.bits - SIGN_32
        } else {
            self.bits as int
        }
    }

    pub open spec fn is_nan(self) -> bool {
        self.magnitude() > INFINITY_32
    }

    pub open spec fn is_finite(self) -> bool {
        self.magnitude() < INFINITY_32
    }

    /// An integer that orders the values that are numbers.
    pub open spec fn rank(self) -> int {
        if self.bits >= SIGN_32 {
            -self.magnitude()
        } else {
            self.magnitude()
        }
    }

    /// The place of a value in the IEEE total order: below zero come the values with a sign, the
    /// greater magnitude first, and each bit pattern has a place of its own.
    pub open spec fn total_rank(self) -> int {
        if self.bits >= SIGN_32 {
            -self.magnitude() - 1
        } else {
            self.magnitude()
        }
    }

    /// IEEE `<`: false where either side is not a number.
    pub open spec fn is_less(self, other: Real32) -> bool {
        !self.is_nan() && !other.is_nan() && self.rank() < other.rank()
    }

    pub fn from_bits(bits: u32) -> (r: Real32)
        ensures
            r.bits == bits,
    {
        Real32 { bits }
    }

    fn rank_of(self) -> (r: i64)
        ensures
            r == self.rank(),
    {
        if self.bits >= SIGN_32 {
            -((self.bits - SIGN_32) as i64)
        } else {
            self.bits as i64
        }
    }

    /// The place of the value in the IEEE total order.
    pub fn total_rank_of(self) -> (r: i64)
        ensures
            r == self.total_rank(),
    {
        if self.bits >= SIGN_32 {
            -((self.bits - SIGN_32) as i64) - 1
        } else {
            self.bits as i64
        }
    }

    /// Whether the value is not a number.
    pub fn nan(self) -> (r: bool)
        ensures
            r == self.is_nan(),
    {
        let magnitude: u32 = if self.bits >= SIGN_32 {
            self.bits - SIGN_32
        } else {
            self.bits
        };
        magnitude > INFINITY_32
    }

    /// Whether the value is a finite number.
    pub fn finite(self) -> (r: bool)
        ensures
            r == self.is_finite(),
    {
        let magnitude: u32 = if self.bits >= SIGN_32 {
            self.bits - SIGN_32
        } else {
            self.bits
        };
        magnitude < INFINITY_32
    }

    /// IEEE `<`.
    pub fn less(self, other: Real32) -> (r: bool)
        ensures
            r == self.is_less(other),
    {
        !self.nan() && !other.nan() && self.rank_of() < other.rank_of()
    }
}

// ---------------------------------------------------------------------------------------------
// Laws
// ---------------------------------------------------------------------------------------------

/// Among numbers exactly one of less, same and greater holds.
pub proof fn law_numbers_are_trichotomous(a: Real64, b: Real64)
    requires
        !a.is_nan(),
        !b.is_nan(),
    ensures
        a.is_less(b) || a.is_same(b) || b.is_less(a),
        !(a.is_less(b) && a.is_same(b)),
        !(a.is_less(b) && b.is_less(a)),
        !(a.is_same(b) && b.is_less(a)),
        a.is_at_most(b) == (a.is_less(b) || a.is_same(b)),
{
}

/// The total order tells any two different bit patterns apart.
pub proof fn law_total_order_separates(a: Real32, b: Real32)
    ensures
        a.total_rank() == b.total_rank() <==> a.bits == b.bits,
{
}

/// The numbers that are no numbers are those whose bits, but for the sign, are above infinity's; and
/// the finite ones those below it.
pub proof fn law_bits_tell_what_is_a_number(a: Real64, nan: bool, finite: bool)
    requires
        call_ensures(Real64::nan, (a,), nan),
        call_ensures(Real64::finite, (a,), finite),
    ensures
        nan <==> (0x7ff0_0000_0000_0000 < a.bits < 0x8000_0000_0000_0000 || 0xfff0_0000_0000_0000
            < a.bits),
        finite <==> (a.bits < 0x7ff0_0000_0000_0000 || 0x8000_0000_0000_0000 <= a.bits
            < 0xfff0_0000_0000_0000),
{
}

/// Of two numbers without a sign the one with the smaller bits is less, of two with a sign the one with
/// the greater; one with a sign is less than one without, unless both are zero. Nothing is less, at
/// most or the same as what is no number.
pub proof fn law_bits_tell_what_is_less(
    a: Real64,
    b: Real64,
    less: bool,
    at_most: bool,
    same: bool,
    a_nan: bool,
    b_nan: bool,
)
    requires
        call_ensures(Real64::less, (a, b), less),
        call_ensures(Real64::at_most, (a, b), at_most),
        call_ensures(Real64::same, (a, b), same),
        call_ensures(Real64::nan, (a,), a_nan),
        call_ensures(Real64::nan, (b,), b_nan),
    ensures
        a_nan || b_nan ==> !less && !at_most && !same,
        !a_nan && !b_nan && a.bits < 0x8000_0000_0000_0000 && b.bits < 0x8000_0000_0000_0000 ==> (
        less <==> a.bits < b.bits) && (at_most <==> a.bits <= b.bits) && (same <==> a.bits
            == b.bits),
        !a_nan && !b_nan && a.bits >= 0x8000_0000_0000_0000 && b.bits >= 0x8000_0000_0000_0000 ==> (
        less <==> a.bits > b.bits) && (at_most <==> a.bits >= b.bits) && (same <==> a.bits
            == b.bits),
        !a_nan && !b_nan && a.bits >= 0x8000_0000_0000_0000 && b.bits < 0x8000_0000_0000_0000
            ==> at_most && (less <==> a.bits > 0x8000_0000_0000_0000 || b.bits > 0) && (same
            <==> a.bits == 0x8000_0000_0000_0000 && b.bits == 0),
        !a_nan && !b_nan && a.bits < 0x8000_0000_0000_0000 && b.bits >= 0x8000_0000_0000_0000
            ==> !less && (at_most <==> same) && (same <==> b.bits == 0x8000_0000_0000_0000 && a.bits
            == 0),
{
}

/// The same of numbers of single width.
pub proof fn law_bits_tell_what_is_less_in_single_width(
    a: Real32,
    b: Real32,
    less: bool,
    a_nan: bool,
    b_nan: bool,
    finite: bool,
)
    requires
        call_ensures(Real32::less, (a, b), less),
        call_ensures(Real32::nan, (a,), a_nan),
        call_ensures(Real32::nan, (b,), b_nan),
        call_ensures(Real32::finite, (a,), finite),
    ensures
        a_nan <==> (0x7f80_0000 < a.bits < 0x8000_0000 || 0xff80_0000 < a.bits),
        finite <==> (a.bits < 0x7f80_0000 || 0x8000_0000 <= a.bits < 0xff80_0000),
        a_nan || b_nan ==> !less,
        !a_nan && !b_nan && a.bits < 0x8000_0000 && b.bits < 0x8000_0000 ==> (less <==> a.bits
            < b.bits),
        !a_nan && !b_nan && a.bits >= 0x8000_0000 && b.bits >= 0x8000_0000 ==> (less <==> a.bits
            > b.bits),
        !a_nan && !b_nan && a.bits >= 0x8000_0000 && b.bits < 0x8000_0000 ==> (less <==> a.bits
            > 0x8000_0000 || b.bits > 0),
        !a_nan && !b_nan && a.bits < 0x8000_0000 && b.bits >= 0x8000_0000 ==> !less,
{
}

/// In the total order any value with a sign comes before any without; without a sign the greater bits
/// come later, with one earlier.
pub proof fn law_total_order_goes_by_the_bits(a: Real32, b: Real32, x: i64, y: i64)
    requires
        call_ensures(Real32::total_rank_of, (a,), x),
        call_ensures(Real32::total_rank_of, (b,), y),
    ensures
        a.bits >= 0x8000_0000 && b.bits < 0x8000_0000 ==> x < y,
        a.bits < 0x8000_0000 && b.bits < 0x8000_0000 ==> (x < y <==> a.bits < b.bits),
        a.bits >= 0x8000_0000 && b.bits >= 0x8000_0000 ==> (x < y <==> a.bits > b.bits),
{
}

} // verus!
