//! Plain 2- and 3-component vectors over fixed-point scalars.

use vstd::prelude::*;

use vstd::arithmetic::div_mod::lemma_div_is_ordered;
use vstd::arithmetic::div_mod::lemma_fundamental_div_mod;
use vstd::arithmetic::div_mod::lemma_fundamental_div_mod_converse;
use vstd::arithmetic::mul::lemma_mul_inequality;

use crate::scalar::abs_val;
use crate::scalar::Scalar;

verus! {

/// A 2D input delta (pointer motion, scroll).
#[derive(Clone, Copy, Debug, PartialEq, Eq, Structural)]
pub struct Vec2 {
    pub x: Scalar,
    pub y: Scalar,
}

/// A 3D point or offset in world space.
#[derive(Clone, Copy, Debug, PartialEq, Eq, Structural)]
pub struct Vec3 {
    pub x: Scalar,
    pub y: Scalar,
    pub z: Scalar,
}

/// The squared distance between two points, over the mathematical integers
/// (in squared micro-units).
pub open spec fn dist_sq(a: Vec3, b: Vec3) -> int {
    (a.x@ - b.x@) * (a.x@ - b.x@) + (a.y@ - b.y@) * (a.y@ - b.y@) + (a.z@ - b.z@) * (a.z@ - b.z@)
}

impl Vec2 {
    /// The vector with the given components.
    pub fn new(x: Scalar, y: Scalar) -> (r: Vec2)
        ensures
            r.x == x,
            r.y == y,
    {
        Vec2 { x, y }
    }
}

impl Vec3 {
    /// The vector with the given components.
    pub fn new(x: Scalar, y: Scalar, z: Scalar) -> (r: Vec3)
        ensures
            r.x == x,
            r.y == y,
            r.z == z,
    {
        Vec3 { x, y, z }
    }
}

/// The largest coordinate magnitude the squared-distance arithmetic admits.
pub const COORD_LIMIT: i64 = 0x2000_0000_0000_0000;

/// Whether every coordinate of the point is within the admitted range.
pub open spec fn in_coord_range(v: Vec3) -> bool {
    &&& -COORD_LIMIT <= v.x@ <= COORD_LIMIT
    &&& -COORD_LIMIT <= v.y@ <= COORD_LIMIT
    &&& -COORD_LIMIT <= v.z@ <= COORD_LIMIT
}

/// The squared distance between two in-range points.
pub fn dist_sq_u128(a: &Vec3, b: &Vec3) -> (r: u128)
    requires
        in_coord_range(*a),
        in_coord_range(*b),
    ensures
        r as int == dist_sq(*a, *b),
{
    let dx: i128 = a.x.micros as i128 - b.x.micros as i128;
    let dy: i128 = a.y.micros as i128 - b.y.micros as i128;
    let dz: i128 = a.z.micros as i128 - b.z.micros as i128;
    let ax: u128 = (if dx < 0 { -dx } else { dx }) as u128;
    let ay: u128 = (if dy < 0 { -dy } else { dy }) as u128;
    let az: u128 = (if dz < 0 { -dz } else { dz }) as u128;
    proof {
        assert(ax * ax == dx * dx && ax * ax <= 0x4000_0000_0000_0000 * 0x4000_0000_0000_0000)
            by (nonlinear_arith)
            requires
                ax as int == abs_val(dx as int),
                ax <= 0x4000_0000_0000_0000u128,
        ;
        assert(ay * ay == dy * dy && ay * ay <= 0x4000_0000_0000_0000 * 0x4000_0000_0000_0000)
            by (nonlinear_arith)
            requires
                ay as int == abs_val(dy as int),
                ay <= 0x4000_0000_0000_0000u128,
        ;
        assert(az * az == dz * dz && az * az <= 0x4000_0000_0000_0000 * 0x4000_0000_0000_0000)
            by (nonlinear_arith)
            requires
                az as int == abs_val(dz as int),
                az <= 0x4000_0000_0000_0000u128,
        ;
    }
    ax * ax + ay * ay + az * az
}

/// `value` scaled by `num / den` with the magnitude rounded upward (away
/// from zero), keeping the sign of `value`.
pub open spec fn scale_away(value: int, num: int, den: int) -> int {
    let scaled = (abs_val(value) * num + den - 1) / den;
    if value < 0 {
        -scaled
    } else {
        scaled
    }
}

/// One repositioned coordinate: `target + scale_away(coordinate - target,
/// num, den)`.
pub fn scale_component(coordinate: Scalar, target: Scalar, num: Scalar, den: u128) -> (r: Scalar)
    requires
        0 < den <= 0x1_0000_0000_0000_0000u128,
        num@ >= 0,
        i64::MIN <= scale_away(coordinate@ - target@, num@, den as int) <= i64::MAX,
        i64::MIN <= target@ + scale_away(coordinate@ - target@, num@, den as int) <= i64::MAX,
    ensures
        r@ == target@ + scale_away(coordinate@ - target@, num@, den as int),
{
    proof {
        lemma_scale_away_bounds(coordinate@ - target@, num@, den as int);
    }
    let offset: i128 = coordinate.micros as i128 - target.micros as i128;
    let negative = offset < 0;
    let magnitude: u128 = (if negative { -offset } else { offset }) as u128;
    proof {
        assert(magnitude * (num.micros as u128) <= 0x1_0000_0000_0000_0000u128
            * 0x8000_0000_0000_0000u128) by (nonlinear_arith)
            requires
                magnitude <= 0x1_0000_0000_0000_0000u128,
                num.micros as u128 <= 0x8000_0000_0000_0000u128,
        ;
    }
    let scaled_mag: u128 = (magnitude * (num.micros as u128) + (den - 1)) / den;
    let signed: i128 = if negative {
        -(scaled_mag as i128)
    } else {
        scaled_mag as i128
    };
    let repositioned: i128 = target.micros as i128 + signed;
    Scalar { micros: repositioned as i64 }
}

/// The two sides of the directed rounding: the scaled magnitude is at least
/// the exact ratio, and, when the ratio does not exceed one, at most the
/// original magnitude; the sign of `value` is kept.
pub proof fn lemma_scale_away_bounds(value: int, num: int, den: int)
    requires
        den > 0,
        num >= 0,
    ensures
        abs_val(scale_away(value, num, den)) == (abs_val(value) * num + den - 1) / den,
        abs_val(scale_away(value, num, den)) * den >= abs_val(value) * num,
        num <= den ==> abs_val(scale_away(value, num, den)) <= abs_val(value),
        value >= 0 ==> scale_away(value, num, den) >= 0,
        value < 0 ==> scale_away(value, num, den) <= 0,
{
    let magnitude = abs_val(value);
    let numerator = magnitude * num + den - 1;
    let scaled = numerator / den;
    assert(magnitude * num >= 0) by (nonlinear_arith)
        requires
            magnitude >= 0,
            num >= 0,
    ;
    lemma_fundamental_div_mod(numerator, den);
    assert(scaled * den == numerator - numerator % den);
    assert(scaled * den >= magnitude * num);
    assert(scaled >= 0) by {
        lemma_div_is_ordered(0, numerator, den);
    }
    if num <= den {
        assert(magnitude * num <= magnitude * den) by {
            lemma_mul_inequality(num, den, magnitude);
        }
        lemma_div_is_ordered(numerator, magnitude * den + den - 1, den);
        lemma_fundamental_div_mod_converse(magnitude * den + den - 1, den, magnitude, den - 1);
        assert((magnitude * den + den - 1) / den == magnitude);
    }
}

} // verus!
