use vstd::prelude::*;

verus! {

/// Thousandths in one world unit.
pub const MILLI_PER_UNIT: i64 = 1000;

/// Clamps a mathematical integer into the range of `i64`.
pub open spec fn saturate(v: int) -> int {
    if v < i64::MIN {
        i64::MIN as int
    } else if v > i64::MAX {
        i64::MAX as int
    } else {
        v
    }
}

/// Division rounded toward zero, for a positive divisor.
pub open spec fn div_toward_zero(a: int, b: int) -> int
    recommends
        b > 0,
{
    if a >= 0 {
        a / b
    } else {
        -((-a) / b)
    }
}

/// Sum of two quantities given in thousandths, saturated.
pub open spec fn fx_add(a: int, b: int) -> int {
    saturate(a + b)
}

/// Difference of two quantities given in thousandths, saturated.
pub open spec fn fx_sub(a: int, b: int) -> int {
    saturate(a - b)
}

/// Negation, saturated.
pub open spec fn fx_neg(a: int) -> int {
    saturate(-a)
}

/// Product of two quantities given in thousandths: rounded toward zero, saturated.
pub open spec fn fx_mul(a: int, b: int) -> int {
    saturate(div_toward_zero(a * b, 1000))
}

/// Quotient of two quantities given in thousandths: rounded toward zero, saturated.
pub open spec fn fx_div(a: int, b: int) -> int
    recommends
        b > 0,
{
    saturate(div_toward_zero(a * 1000, b))
}

/// The whole units of a quantity given in thousandths, the fraction cut off toward zero.
pub open spec fn whole_units(a: int) -> int {
    div_toward_zero(a, 1000)
}

/// A signed fixed-point number, counted in thousandths of a unit.
/// Every operation saturates at the bounds of `i64` instead of overflowing.
#[derive(Clone, Copy, Debug, PartialEq, Eq, Structural)]
pub struct Fixed {
    pub milli: i64,
}

impl View for Fixed {
    type V = int;

    open spec fn view(&self) -> int {
        self.milli as int
    }
}

fn saturate_i128(v: i128) -> (r: i64)
    ensures
        r as int == saturate(v as int),
{
    if v < i64::MIN as i128 {
        i64::MIN
    } else if v > i64::MAX as i128 {
        i64::MAX
    } else {
        v as i64
    }
}

pub(crate) fn div_toward_zero_i128(a: i128, b: i128) -> (r: i128)
    requires
        a > i128::MIN,
        b > 0,
    ensures
        r as int == div_toward_zero(a as int, b as int),
{
    if a >= 0 {
        a / b
    } else {
        -((-a) / b)
    }
}

impl Fixed {
    pub fn from_milli(milli: i64) -> (r: Fixed)
        ensures
            r@ == milli as int,
    {
        Fixed { milli }
    }

    /// A whole number of units.
    pub fn from_units(units: i32) -> (r: Fixed)
        ensures
            r@ == units as int * 1000,
    {
        Fixed { milli: units as i64 * MILLI_PER_UNIT }
    }

    /// A non-negative whole number of units, such as a width.
    pub fn from_length(units: u32) -> (r: Fixed)
        ensures
            r@ == units as int * 1000,
    {
        Fixed { milli: units as i64 * MILLI_PER_UNIT }
    }

    pub fn zero() -> (r: Fixed)
        ensures
            r@ == 0,
    {
        Fixed { milli: 0 }
    }

    pub fn one() -> (r: Fixed)
        ensures
            r@ == 1000,
    {
        Fixed { milli: MILLI_PER_UNIT }
    }

    pub fn add(self, other: Fixed) -> (r: Fixed)
        ensures
            r@ == fx_add(self@, other@),
    {
        Fixed { milli: saturate_i128(self.milli as i128 + other.milli as i128) }
    }

    pub fn sub(self, other: Fixed) -> (r: Fixed)
        ensures
            r@ == fx_sub(self@, other@),
    {
        Fixed { milli: saturate_i128(self.milli as i128 - other.milli as i128) }
    }

    pub fn neg(self) -> (r: Fixed)
        ensures
            r@ == fx_neg(self@),
    {
        Fixed { milli: saturate_i128(-(self.milli as i128)) }
    }

    pub fn mul(self, other: Fixed) -> (r: Fixed)
        ensures
            r@ == fx_mul(self@, other@),
    {
        let a = self.milli as i128;
        let b = other.milli as i128;
        assert(-0x8000_0000_0000_0000 * 0x8000_0000_0000_0000 <= a * b
            <= 0x8000_0000_0000_0000 * 0x8000_0000_0000_0000) by (nonlinear_arith)
            requires
                -0x8000_0000_0000_0000 <= a <= 0x7fff_ffff_ffff_ffff,
                -0x8000_0000_0000_0000 <= b <= 0x7fff_ffff_ffff_ffff,
        ;
        let q = div_toward_zero_i128(a * b, 1000);
        Fixed { milli: saturate_i128(q) }
    }

    pub fn div(self, other: Fixed) -> (r: Fixed)
        requires
            other@ > 0,
        ensures
            r@ == fx_div(self@, other@),
    {
        let q = div_toward_zero_i128(self.milli as i128 * 1000, other.milli as i128);
        Fixed { milli: saturate_i128(q) }
    }

    pub fn max(self, other: Fixed) -> (r: Fixed)
        ensures
            r@ == if self@ >= other@ {
                self@
            } else {
                other@
            },
    {
        if self.milli >= other.milli {
            self
        } else {
            other
        }
    }

    /// The whole units, the fraction cut off toward zero.
    pub fn whole(self) -> (r: i64)
        ensures
            r as int == whole_units(self@),
    {
        if self.milli >= 0 {
            self.milli / MILLI_PER_UNIT
        } else {
            -((-(self.milli as i128)) / 1000) as i64
        }
    }
}

} // verus!
