//! Two-dimensional vectors.

use vstd::prelude::*;
use crate::fixed::{
    clamp, diff_products, difference, difference_of_products, fx_mul, isqrt, lemma_trunc_div_one,
    magnitude, product, sat_add, sat_sub, saturate, sqrt_floor, sum, sum_of_products,
    sum_products, SCALE,
};

verus! {

/// A pair of coordinates.
#[derive(Clone, Copy, Debug, PartialEq, Eq)]
pub struct Vec2<T> {
    pub x: T,
    pub y: T,
}

/// A rotation, given by the cosine and sine of its angle as fixed-point
/// counts. The caller evaluates them; nothing in this crate computes a
/// trigonometric function.
#[derive(Clone, Copy, Debug, PartialEq, Eq, Structural)]
pub struct Rotation {
    pub cos: i64,
    pub sin: i64,
}

/// How far the squared length of a rotation's cosine and sine may be from
/// one, as a count of millionths of a millionth, for the pair to pass as a
/// rotation. It leaves room for the rounding of both to the nearest count.
pub const UNIT_TOLERANCE: i64 = 4_000_000;

/// Whether a pair of counts can be the cosine and sine of an angle: the sum
/// of their squares is one, give or take [`UNIT_TOLERANCE`].
pub open spec fn is_unit(r: Rotation) -> bool {
    magnitude(r.cos * r.cos + r.sin * r.sin - SCALE * SCALE) <= UNIT_TOLERANCE as int
}

/// The Euclidean length of `(x, y)`, rounded down and saturated.
pub open spec fn norm(x: int, y: int) -> int {
    clamp(sqrt_floor((x * x + y * y) as nat) as int)
}

/// The cross product `ax * by - ay * bx`, saturated.
pub open spec fn cross_of(ax: int, ay: int, bx: int, by: int) -> int {
    clamp(ax * by - ay * bx)
}

/// The dot product `ax * bx + ay * by`, saturated.
pub open spec fn dot_of(ax: int, ay: int, bx: int, by: int) -> int {
    clamp(ax * bx + ay * by)
}

/// The first coordinate of `(x, y)` turned by `r`.
pub open spec fn rotated_x(x: int, y: int, r: Rotation) -> int {
    difference_of_products(x, r.cos as int, y, r.sin as int, SCALE as int)
}

/// The second coordinate of `(x, y)` turned by `r`.
pub open spec fn rotated_y(x: int, y: int, r: Rotation) -> int {
    sum_of_products(x, r.sin as int, y, r.cos as int, SCALE as int)
}

/// The square of a count, widened so that it cannot overflow.
fn square(x: i64) -> (r: u128)
    ensures
        r as int == x as int * x as int,
        r <= 0x4000_0000_0000_0000_0000_0000_0000_0000,
{
    let a: u128 = if x >= 0 {
        x as u128
    } else {
        (-(x as i128)) as u128
    };
    assert(a * a <= 0x4000_0000_0000_0000_0000_0000_0000_0000 && a * a == x * x)
        by (nonlinear_arith)
        requires
            0 <= a <= 0x8000_0000_0000_0000,
            a == x || a == -x,
    ;
    a * a
}

impl Rotation {
    /// The rotation by no angle.
    pub fn identity() -> (r: Rotation)
        ensures
            r == (Rotation { cos: SCALE, sin: 0 }),
            is_unit(r),
    {
        assert(1_000_000int * 1_000_000 + 0int * 0 - 1_000_000int * 1_000_000 == 0);
        Rotation { cos: SCALE, sin: 0 }
    }

    /// Whether the pair can be the cosine and sine of an angle.
    pub fn is_unit(&self) -> (ok: bool)
        ensures
            ok == is_unit(*self),
    {
        let norm: u128 = square(self.cos) + square(self.sin);
        let one: u128 = 1_000_000_000_000;
        assert(SCALE * SCALE == 1_000_000_000_000) by (nonlinear_arith)
            requires
                SCALE == 1_000_000,
        ;
        let off: u128 = if norm >= one {
            norm - one
        } else {
            one - norm
        };
        off <= UNIT_TOLERANCE as u128
    }
}

impl<T> Vec2<T> {
    /// The vector with the given coordinates.
    pub fn new(x: T, y: T) -> (v: Vec2<T>)
        ensures
            v.x == x,
            v.y == y,
    {
        Vec2 { x, y }
    }
}

impl<T: Copy> Vec2<T> {
    /// The first coordinate.
    pub fn x(&self) -> (r: T)
        ensures
            r == self.x,
    {
        self.x
    }

    /// The second coordinate.
    pub fn y(&self) -> (r: T)
        ensures
            r == self.y,
    {
        self.y
    }
}

impl Vec2<i64> {
    /// The Euclidean length, rounded down.
    pub fn length(&self) -> (r: i64)
        ensures
            r as int == norm(self.x as int, self.y as int),
            r >= 0,
    {
        self.magnitude()
    }

    /// The Euclidean length, rounded down.
    pub fn magnitude(&self) -> (r: i64)
        ensures
            r as int == norm(self.x as int, self.y as int),
            r >= 0,
    {
        let root: u64 = isqrt(square(self.x) + square(self.y));
        saturate(root as i128)
    }

    /// The vector with both coordinates multiplied by `scalar`, a fixed-point
    /// count.
    pub fn scaled(&self, scalar: i64) -> (r: Vec2<i64>)
        ensures
            r.x as int == product(self.x as int, scalar as int),
            r.y as int == product(self.y as int, scalar as int),
    {
        Vec2 { x: fx_mul(self.x, scalar), y: fx_mul(self.y, scalar) }
    }

    /// The length of the vector from `other` to `self`.
    pub fn distance(&self, other: Vec2<i64>) -> (r: i64)
        ensures
            r as int == norm(
                difference(self.x as int, other.x as int),
                difference(self.y as int, other.y as int),
            ),
            r >= 0,
    {
        (*self - other).length()
    }

    /// The cross product with `other`.
    pub fn cross(&self, other: Vec2<i64>) -> (r: i64)
        ensures
            r as int == cross_of(self.x as int, self.y as int, other.x as int, other.y as int),
    {
        proof {
            lemma_trunc_div_one(self.x as int * other.y as int - self.y as int * other.x as int);
        }
        diff_products(self.x, other.y, self.y, other.x, 1)
    }

    /// The dot product with `other`.
    pub fn dot(&self, other: Vec2<i64>) -> (r: i64)
        ensures
            r as int == dot_of(self.x as int, self.y as int, other.x as int, other.y as int),
    {
        proof {
            lemma_trunc_div_one(self.x as int * other.x as int + self.y as int * other.y as int);
        }
        sum_products(self.x, other.x, self.y, other.y, 1)
    }

    /// The vector turned by `rotation`.
    pub fn rotated(&self, rotation: Rotation) -> (r: Vec2<i64>)
        ensures
            r.x as int == rotated_x(self.x as int, self.y as int, rotation),
            r.y as int == rotated_y(self.x as int, self.y as int, rotation),
    {
        Vec2 {
            x: diff_products(self.x, rotation.cos, self.y, rotation.sin, SCALE),
            y: sum_products(self.x, rotation.sin, self.y, rotation.cos, SCALE),
        }
    }
}

impl core::ops::Add for Vec2<i64> {
    type Output = Vec2<i64>;

    /// The component-wise saturating sum.
    fn add(self, rhs: Vec2<i64>) -> (r: Vec2<i64>) {
        Vec2 { x: sat_add(self.x, rhs.x), y: sat_add(self.y, rhs.y) }
    }
}

impl vstd::std_specs::ops::AddSpecImpl for Vec2<i64> {
    open spec fn obeys_add_spec() -> bool {
        true
    }

    open spec fn add_req(self, rhs: Vec2<i64>) -> bool {
        true
    }

    open spec fn add_spec(self, rhs: Vec2<i64>) -> Vec2<i64> {
        Vec2 {
            x: sum(self.x as int, rhs.x as int) as i64,
            y: sum(self.y as int, rhs.y as int) as i64,
        }
    }
}

impl core::ops::Sub for Vec2<i64> {
    type Output = Vec2<i64>;

    /// The component-wise saturating difference.
    fn sub(self, rhs: Vec2<i64>) -> (r: Vec2<i64>) {
        Vec2 { x: sat_sub(self.x, rhs.x), y: sat_sub(self.y, rhs.y) }
    }
}

impl vstd::std_specs::ops::SubSpecImpl for Vec2<i64> {
    open spec fn obeys_sub_spec() -> bool {
        true
    }

    open spec fn sub_req(self, rhs: Vec2<i64>) -> bool {
        true
    }

    open spec fn sub_spec(self, rhs: Vec2<i64>) -> Vec2<i64> {
        Vec2 {
            x: difference(self.x as int, rhs.x as int) as i64,
            y: difference(self.y as int, rhs.y as int) as i64,
        }
    }
}

impl core::ops::Add<i64> for Vec2<i64> {
    type Output = Vec2<i64>;

    /// The vector with `scalar` added to both coordinates, with saturation.
    fn add(self, scalar: i64) -> (r: Vec2<i64>) {
        Vec2 { x: sat_add(self.x, scalar), y: sat_add(self.y, scalar) }
    }
}

impl vstd::std_specs::ops::AddSpecImpl<i64> for Vec2<i64> {
    open spec fn obeys_add_spec() -> bool {
        true
    }

    open spec fn add_req(self, scalar: i64) -> bool {
        true
    }

    open spec fn add_spec(self, scalar: i64) -> Vec2<i64> {
        Vec2 {
            x: sum(self.x as int, scalar as int) as i64,
            y: sum(self.y as int, scalar as int) as i64,
        }
    }
}

impl core::ops::Sub<i64> for Vec2<i64> {
    type Output = Vec2<i64>;

    /// The vector with `scalar` taken from both coordinates, with saturation.
    fn sub(self, scalar: i64) -> (r: Vec2<i64>) {
        Vec2 { x: sat_sub(self.x, scalar), y: sat_sub(self.y, scalar) }
    }
}

impl vstd::std_specs::ops::SubSpecImpl<i64> for Vec2<i64> {
    open spec fn obeys_sub_spec() -> bool {
        true
    }

    open spec fn sub_req(self, scalar: i64) -> bool {
        true
    }

    open spec fn sub_spec(self, scalar: i64) -> Vec2<i64> {
        Vec2 {
            x: difference(self.x as int, scalar as int) as i64,
            y: difference(self.y as int, scalar as int) as i64,
        }
    }
}

impl core::ops::Mul<i64> for Vec2<i64> {
    type Output = Vec2<i64>;

    /// The vector with both coordinates multiplied by `scalar`, a fixed-point
    /// count.
    fn mul(self, scalar: i64) -> (r: Vec2<i64>) {
        self.scaled(scalar)
    }
}

impl vstd::std_specs::ops::MulSpecImpl<i64> for Vec2<i64> {
    open spec fn obeys_mul_spec() -> bool {
        true
    }

    open spec fn mul_req(self, scalar: i64) -> bool {
        true
    }

    open spec fn mul_spec(self, scalar: i64) -> Vec2<i64> {
        Vec2 {
            x: product(self.x as int, scalar as int) as i64,
            y: product(self.y as int, scalar as int) as i64,
        }
    }
}

impl From<(i64, i64)> for Vec2<i64> {
    /// The vector whose coordinates are the two members of the pair.
    fn from(tuple: (i64, i64)) -> (r: Vec2<i64>) {
        Vec2 { x: tuple.0, y: tuple.1 }
    }
}

impl vstd::std_specs::convert::FromSpecImpl<(i64, i64)> for Vec2<i64> {
    open spec fn obeys_from_spec() -> bool {
        true
    }

    open spec fn from_spec(tuple: (i64, i64)) -> Vec2<i64> {
        Vec2 { x: tuple.0, y: tuple.1 }
    }
}

} // verus!
