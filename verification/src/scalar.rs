//! Fixed-point scalars: the one numeric type every geometric rule is stated
//! over. A `Scalar` stores a signed count of millionths of a unit, so sums
//! and differences are exact and products round toward zero by one division.

use vstd::prelude::*;

use vstd::arithmetic::div_mod::lemma_div_multiples_vanish;
use vstd::arithmetic::div_mod::lemma_div_pos_is_pos;
use vstd::arithmetic::mul::lemma_mul_nonnegative;

verus! {

/// Fixed-point resolution: micro-units per whole unit.
pub const MICROS_PER_UNIT: i64 = 1_000_000;

/// A scalar quantity (a coordinate, an angle in radians, a duration in
/// seconds, a sensitivity), stored as micro-units.
#[derive(Clone, Copy, Debug, PartialEq, Eq, Structural)]
pub struct Scalar {
    pub micros: i64,
}

impl View for Scalar {
    type V = int;

    open spec fn view(&self) -> int {
        self.micros as int
    }
}

/// Absolute value over the mathematical integers.
pub open spec fn abs_val(a: int) -> int {
    if a < 0 {
        -a
    } else {
        a
    }
}

/// Maximum over the mathematical integers.
pub open spec fn max_val(a: int, b: int) -> int {
    if a < b {
        b
    } else {
        a
    }
}

/// The fixed-point product of two scalars (both in micro-units): the exact
/// product scaled back down, rounded toward zero.
pub open spec fn fixed_mul(a: int, b: int) -> int {
    let magnitude = (abs_val(a) * abs_val(b)) / (MICROS_PER_UNIT as int);
    if (a < 0) != (b < 0) {
        -magnitude
    } else {
        magnitude
    }
}

/// The `Scalar` whose view is `v`, meaningful when `v` fits in `i64`.
pub open spec fn scalar(v: int) -> Scalar {
    Scalar { micros: v as i64 }
}

impl Scalar {
    /// The scalar of `micros` micro-units.
    pub fn from_micros(micros: i64) -> (r: Scalar)
        ensures
            r@ == micros,
    {
        Scalar { micros }
    }

    /// The scalar worth `units` whole units.
    pub fn from_int(units: i64) -> (r: Scalar)
        requires
            i64::MIN <= units * MICROS_PER_UNIT <= i64::MAX,
        ensures
            r@ == units * MICROS_PER_UNIT,
    {
        Scalar { micros: units * MICROS_PER_UNIT }
    }

    /// Exact difference.
    pub fn sub(self, other: Scalar) -> (r: Scalar)
        requires
            i64::MIN <= self@ - other@ <= i64::MAX,
        ensures
            r@ == self@ - other@,
    {
        Scalar { micros: self.micros - other.micros }
    }

    /// The larger of two scalars.
    pub fn max(self, other: Scalar) -> (r: Scalar)
        ensures
            r@ == max_val(self@, other@),
    {
        if self.micros < other.micros {
            other
        } else {
            self
        }
    }

    /// Fixed-point product, rounded toward zero.
    pub fn mul(self, other: Scalar) -> (r: Scalar)
        requires
            i64::MIN <= fixed_mul(self@, other@) <= i64::MAX,
        ensures
            r@ == fixed_mul(self@, other@),
    {
        let negative = (self.micros < 0) != (other.micros < 0);
        let a_wide: i128 = self.micros as i128;
        let b_wide: i128 = other.micros as i128;
        let abs_a: u128 = (if a_wide < 0 { -a_wide } else { a_wide }) as u128;
        let abs_b: u128 = (if b_wide < 0 { -b_wide } else { b_wide }) as u128;
        assert(abs_a * abs_b <= 0x8000_0000_0000_0000u128 * 0x8000_0000_0000_0000u128)
            by (nonlinear_arith)
            requires
                abs_a <= 0x8000_0000_0000_0000u128,
                abs_b <= 0x8000_0000_0000_0000u128,
        ;
        let product: u128 = abs_a * abs_b;
        let magnitude: u128 = product / (MICROS_PER_UNIT as u128);
        if negative {
            Scalar { micros: (-(magnitude as i128)) as i64 }
        } else {
            Scalar { micros: magnitude as i64 }
        }
    }
}

/// Scaling by exactly plus or minus one unit is exact.
pub proof fn lemma_fixed_mul_unit(b: int)
    ensures
        fixed_mul(MICROS_PER_UNIT as int, b) == b,
        fixed_mul(-(MICROS_PER_UNIT as int), b) == -b,
{
    lemma_div_multiples_vanish(abs_val(b), MICROS_PER_UNIT as int);
}

/// The fixed-point product of non-negative factors is non-negative.
pub proof fn lemma_fixed_mul_nonneg(a: int, b: int)
    requires
        a >= 0,
        b >= 0,
    ensures
        fixed_mul(a, b) >= 0,
{
    lemma_mul_nonnegative(a, b);
    lemma_div_pos_is_pos(a * b, MICROS_PER_UNIT as int);
}

/// Negating one factor negates the fixed-point product.
pub proof fn lemma_fixed_mul_neg(a: int, b: int)
    ensures
        fixed_mul(-a, b) == -fixed_mul(a, b),
{
    assert(abs_val(-a) == abs_val(a));
    if a == 0 {
        assert(abs_val(a) * abs_val(b) == 0) by (nonlinear_arith)
            requires
                abs_val(a) == 0,
        ;
        assert((0int) / (MICROS_PER_UNIT as int) == 0);
    }
}

} // verus!
