//! Typed quantities.
//!
//! Each type wraps one fixed-point count and names its unit, so that a length
//! cannot be handed to a function that expects an angle. Conversions between
//! representations are explicit and round toward zero.

use vstd::prelude::*;
use crate::fixed::{
    clamp, difference, mul_div, negation, ratio, sat_add, sat_mul, sat_neg, sat_sub, sum,
};

verus! {

/// Micrometres in one inch.
pub const MICROMETERS_PER_INCH: i64 = 25_400;

/// Micrometres in one millimetre.
pub const MICROMETERS_PER_MILLIMETER: i64 = 1_000;

/// Micrometres in one metre.
pub const MICROMETERS_PER_METER: i64 = 1_000_000;

/// Micrometres in one field tile, which is 24 inches on a side.
pub const MICROMETERS_PER_TILE: i64 = 609_600;

/// Microradians in half a turn.
pub const HALF_TURN: i64 = 3_141_593;

/// Microradians in a full turn: exactly two half turns, so that wrapping is
/// symmetric.
pub const FULL_TURN: i64 = 6_283_186;

/// A length, in micrometres.
#[derive(Clone, Copy, Debug, PartialEq, Eq, Structural)]
pub struct Length {
    pub um: i64,
}

/// An angle, in microradians.
#[derive(Clone, Copy, Debug, PartialEq, Eq, Structural)]
pub struct Angle {
    pub urad: i64,
}

/// A linear velocity, in micrometres per second.
#[derive(Clone, Copy, Debug, PartialEq, Eq, Structural)]
pub struct Velocity {
    pub um_per_s: i64,
}

/// An angular velocity, in microradians per second.
#[derive(Clone, Copy, Debug, PartialEq, Eq, Structural)]
pub struct AngularVelocity {
    pub urad_per_s: i64,
}

/// A span of time, in microseconds.
#[derive(Clone, Copy, Debug, PartialEq, Eq, Structural)]
pub struct Time {
    pub us: i64,
}

/// The representative of the angle `a` in the half-open interval
/// `(-HALF_TURN, HALF_TURN]`.
pub open spec fn wrapped_angle(a: int) -> int {
    HALF_TURN as int - (HALF_TURN as int - a) % (FULL_TURN as int)
}

/// Wrapping lands in `(-HALF_TURN, HALF_TURN]` and moves an angle by a whole
/// number of turns only.
pub proof fn wrapped_angle_is_in_range(a: int)
    ensures
        -(HALF_TURN as int) < wrapped_angle(a) <= HALF_TURN as int,
        (a - wrapped_angle(a)) % (FULL_TURN as int) == 0,
{
    let f = FULL_TURN as int;
    let t = HALF_TURN as int - a;
    assert(0 <= t % f < f);
    assert(t == f * (t / f) + t % f) by (nonlinear_arith)
        requires
            f == 6_283_186,
    ;
    let w = wrapped_angle(a);
    assert(a - w == f * (-(t / f)));
    assert((f * (-(t / f))) % f == 0) by (nonlinear_arith)
        requires
            f == 6_283_186,
    ;
}

/// An angle that already lies in `(-HALF_TURN, HALF_TURN]` is left alone.
pub proof fn wrapped_angle_keeps_what_is_in_range(a: int)
    requires
        -(HALF_TURN as int) < a <= HALF_TURN as int,
    ensures
        wrapped_angle(a) == a,
{
    let f = FULL_TURN as int;
    let t = HALF_TURN as int - a;
    assert(0 <= t < f);
    assert(t % f == t) by (nonlinear_arith)
        requires
            0 <= t < f,
    ;
}

impl Length {
    /// The length of no extent.
    pub fn zero() -> (r: Length)
        ensures
            r.um == 0,
    {
        Length { um: 0 }
    }

    /// A length of `um` micrometres.
    pub fn from_micrometers(um: i64) -> (r: Length)
        ensures
            r.um == um,
    {
        Length { um }
    }

    /// A length of `mm` millimetres.
    pub fn from_millimeters(mm: i64) -> (r: Length)
        ensures
            r.um as int == clamp(mm as int * MICROMETERS_PER_MILLIMETER as int),
    {
        Length { um: sat_mul(mm, MICROMETERS_PER_MILLIMETER) }
    }

    /// A length of `inches` inches.
    pub fn from_inches(inches: i64) -> (r: Length)
        ensures
            r.um as int == clamp(inches as int * MICROMETERS_PER_INCH as int),
    {
        Length { um: sat_mul(inches, MICROMETERS_PER_INCH) }
    }

    /// A length of `meters` metres.
    pub fn from_meters(meters: i64) -> (r: Length)
        ensures
            r.um as int == clamp(meters as int * MICROMETERS_PER_METER as int),
    {
        Length { um: sat_mul(meters, MICROMETERS_PER_METER) }
    }

    /// A length of `tiles` field tiles.
    pub fn from_tiles(tiles: i64) -> (r: Length)
        ensures
            r.um as int == clamp(tiles as int * MICROMETERS_PER_TILE as int),
    {
        Length { um: sat_mul(tiles, MICROMETERS_PER_TILE) }
    }

    /// The length in micrometres.
    pub fn as_micrometers(&self) -> (r: i64)
        ensures
            r == self.um,
    {
        self.um
    }

    /// The length in whole millimetres, rounded toward zero.
    pub fn as_millimeters(&self) -> (r: i64)
        ensures
            r as int == ratio(self.um as int, 1, MICROMETERS_PER_MILLIMETER as int),
    {
        mul_div(self.um, 1, MICROMETERS_PER_MILLIMETER)
    }

    /// The length in whole inches, rounded toward zero.
    pub fn as_inches(&self) -> (r: i64)
        ensures
            r as int == ratio(self.um as int, 1, MICROMETERS_PER_INCH as int),
    {
        mul_div(self.um, 1, MICROMETERS_PER_INCH)
    }

    /// The length in whole metres, rounded toward zero.
    pub fn as_meters(&self) -> (r: i64)
        ensures
            r as int == ratio(self.um as int, 1, MICROMETERS_PER_METER as int),
    {
        mul_div(self.um, 1, MICROMETERS_PER_METER)
    }

    /// The length in whole field tiles, rounded toward zero.
    pub fn as_tiles(&self) -> (r: i64)
        ensures
            r as int == ratio(self.um as int, 1, MICROMETERS_PER_TILE as int),
    {
        mul_div(self.um, 1, MICROMETERS_PER_TILE)
    }

    /// Whether the length sits at either end of the representable range, where
    /// saturated results collect.
    pub fn is_infinite(&self) -> (r: bool)
        ensures
            r == (self.um == i64::MAX || self.um == i64::MIN),
    {
        self.um == i64::MAX || self.um == i64::MIN
    }
}

impl Angle {
    /// The angle of no rotation.
    pub fn zero() -> (r: Angle)
        ensures
            r.urad == 0,
    {
        Angle { urad: 0 }
    }

    /// Half a turn.
    pub fn half_turn() -> (r: Angle)
        ensures
            r.urad == HALF_TURN,
    {
        Angle { urad: HALF_TURN }
    }

    /// An angle of `urad` microradians.
    pub fn from_microradians(urad: i64) -> (r: Angle)
        ensures
            r.urad == urad,
    {
        Angle { urad }
    }

    /// An angle of `radians` radians.
    pub fn from_radians(radians: i64) -> (r: Angle)
        ensures
            r.urad as int == clamp(radians as int * 1_000_000),
    {
        Angle { urad: sat_mul(radians, 1_000_000) }
    }

    /// An angle of `degrees` degrees, rounded toward zero to the microradian.
    /// 180 degrees is exactly [`HALF_TURN`].
    pub fn from_degrees(degrees: i64) -> (r: Angle)
        ensures
            r.urad as int == ratio(degrees as int, HALF_TURN as int, 180),
    {
        Angle { urad: mul_div(degrees, HALF_TURN, 180) }
    }

    /// An angle of `revolutions` full turns.
    pub fn from_revolutions(revolutions: i64) -> (r: Angle)
        ensures
            r.urad as int == clamp(revolutions as int * FULL_TURN as int),
    {
        Angle { urad: sat_mul(revolutions, FULL_TURN) }
    }

    /// The angle in microradians.
    pub fn as_microradians(&self) -> (r: i64)
        ensures
            r == self.urad,
    {
        self.urad
    }

    /// The angle in whole radians, rounded toward zero.
    pub fn as_radians(&self) -> (r: i64)
        ensures
            r as int == ratio(self.urad as int, 1, 1_000_000),
    {
        mul_div(self.urad, 1, 1_000_000)
    }

    /// The angle in whole degrees, rounded toward zero.
    pub fn as_degrees(&self) -> (r: i64)
        ensures
            r as int == ratio(self.urad as int, 180, HALF_TURN as int),
    {
        mul_div(self.urad, 180, HALF_TURN)
    }

    /// The angle in whole turns, rounded toward zero.
    pub fn as_revolutions(&self) -> (r: i64)
        ensures
            r as int == ratio(self.urad as int, 1, FULL_TURN as int),
    {
        mul_div(self.urad, 1, FULL_TURN)
    }

    /// The same direction, expressed in `(-HALF_TURN, HALF_TURN]`.
    pub fn wrap(&self) -> (r: Angle)
        ensures
            r.urad as int == wrapped_angle(self.urad as int),
            -(HALF_TURN as int) < r.urad as int <= HALF_TURN as int,
            (self.urad as int - r.urad as int) % (FULL_TURN as int) == 0,
    {
        proof {
            wrapped_angle_is_in_range(self.urad as int);
        }
        let t: i128 = HALF_TURN as i128 - self.urad as i128;
        let full: i128 = FULL_TURN as i128;
        let m: i128 = if t >= 0 {
            t % full
        } else {
            let k: i128 = (-t) % full;
            assert((t as int) % (full as int) == if k == 0 {
                0
            } else {
                full as int - k as int
            }) by (nonlinear_arith)
                requires
                    full == 6_283_186,
                    t < 0,
                    k as int == (-(t as int)) % (full as int),
            ;
            if k == 0 {
                0
            } else {
                full - k
            }
        };
        Angle { urad: (HALF_TURN as i128 - m) as i64 }
    }

    /// Whether the angle sits at either end of the representable range, where
    /// saturated results collect.
    pub fn is_infinite(&self) -> (r: bool)
        ensures
            r == (self.urad == i64::MAX || self.urad == i64::MIN),
    {
        self.urad == i64::MAX || self.urad == i64::MIN
    }
}

impl Velocity {
    /// Standing still.
    pub fn zero() -> (r: Velocity)
        ensures
            r.um_per_s == 0,
    {
        Velocity { um_per_s: 0 }
    }

    /// A velocity of `um_per_s` micrometres per second.
    pub fn from_micrometers_per_second(um_per_s: i64) -> (r: Velocity)
        ensures
            r.um_per_s == um_per_s,
    {
        Velocity { um_per_s }
    }

    /// A velocity of `inches` inches per second.
    pub fn from_inches_per_second(inches: i64) -> (r: Velocity)
        ensures
            r.um_per_s as int == clamp(inches as int * MICROMETERS_PER_INCH as int),
    {
        Velocity { um_per_s: sat_mul(inches, MICROMETERS_PER_INCH) }
    }
}

impl Time {
    /// No time at all.
    pub fn zero() -> (r: Time)
        ensures
            r.us == 0,
    {
        Time { us: 0 }
    }

    /// A span of `us` microseconds.
    pub fn from_micros(us: i64) -> (r: Time)
        ensures
            r.us == us,
    {
        Time { us }
    }

    /// A span of `ms` milliseconds.
    pub fn from_millis(ms: i64) -> (r: Time)
        ensures
            r.us as int == clamp(ms as int * 1_000),
    {
        Time { us: sat_mul(ms, 1_000) }
    }

    /// A span of `secs` seconds.
    pub fn from_secs(secs: i64) -> (r: Time)
        ensures
            r.us as int == clamp(secs as int * 1_000_000),
    {
        Time { us: sat_mul(secs, 1_000_000) }
    }
}

impl AngularVelocity {
    /// Not turning.
    pub fn zero() -> (r: AngularVelocity)
        ensures
            r.urad_per_s == 0,
    {
        AngularVelocity { urad_per_s: 0 }
    }

    /// An angular velocity of `urad_per_s` microradians per second.
    pub fn from_microradians_per_second(urad_per_s: i64) -> (r: AngularVelocity)
        ensures
            r.urad_per_s == urad_per_s,
    {
        AngularVelocity { urad_per_s }
    }

    /// An angular velocity of `degrees` degrees per second, rounded toward zero
    /// to the microradian.
    pub fn from_degrees_per_second(degrees: i64) -> (r: AngularVelocity)
        ensures
            r.urad_per_s as int == ratio(degrees as int, HALF_TURN as int, 180),
    {
        AngularVelocity { urad_per_s: mul_div(degrees, HALF_TURN, 180) }
    }
}

impl core::ops::Add for Length {
    type Output = Length;

    /// The saturating sum of two lengths.
    fn add(self, rhs: Length) -> (r: Length) {
        Length { um: sat_add(self.um, rhs.um) }
    }
}

impl vstd::std_specs::ops::AddSpecImpl for Length {
    open spec fn obeys_add_spec() -> bool {
        true
    }

    open spec fn add_req(self, rhs: Length) -> bool {
        true
    }

    open spec fn add_spec(self, rhs: Length) -> Length {
        Length { um: sum(self.um as int, rhs.um as int) as i64 }
    }
}

impl core::ops::Sub for Length {
    type Output = Length;

    /// The saturating difference of two lengths.
    fn sub(self, rhs: Length) -> (r: Length) {
        Length { um: sat_sub(self.um, rhs.um) }
    }
}

impl vstd::std_specs::ops::SubSpecImpl for Length {
    open spec fn obeys_sub_spec() -> bool {
        true
    }

    open spec fn sub_req(self, rhs: Length) -> bool {
        true
    }

    open spec fn sub_spec(self, rhs: Length) -> Length {
        Length { um: difference(self.um as int, rhs.um as int) as i64 }
    }
}

impl core::ops::Neg for Length {
    type Output = Length;

    /// The saturating negation of a length.
    fn neg(self) -> (r: Length) {
        Length { um: sat_neg(self.um) }
    }
}

impl vstd::std_specs::ops::NegSpecImpl for Length {
    open spec fn obeys_neg_spec() -> bool {
        true
    }

    open spec fn neg_req(self) -> bool {
        true
    }

    open spec fn neg_spec(self) -> Length {
        Length { um: negation(self.um as int) as i64 }
    }
}

impl core::ops::Add for Angle {
    type Output = Angle;

    /// The saturating sum of two angles.
    fn add(self, rhs: Angle) -> (r: Angle) {
        Angle { urad: sat_add(self.urad, rhs.urad) }
    }
}

impl vstd::std_specs::ops::AddSpecImpl for Angle {
    open spec fn obeys_add_spec() -> bool {
        true
    }

    open spec fn add_req(self, rhs: Angle) -> bool {
        true
    }

    open spec fn add_spec(self, rhs: Angle) -> Angle {
        Angle { urad: sum(self.urad as int, rhs.urad as int) as i64 }
    }
}

impl core::ops::Sub for Angle {
    type Output = Angle;

    /// The saturating difference of two angles.
    fn sub(self, rhs: Angle) -> (r: Angle) {
        Angle { urad: sat_sub(self.urad, rhs.urad) }
    }
}

impl vstd::std_specs::ops::SubSpecImpl for Angle {
    open spec fn obeys_sub_spec() -> bool {
        true
    }

    open spec fn sub_req(self, rhs: Angle) -> bool {
        true
    }

    open spec fn sub_spec(self, rhs: Angle) -> Angle {
        Angle { urad: difference(self.urad as int, rhs.urad as int) as i64 }
    }
}

impl core::ops::Neg for Angle {
    type Output = Angle;

    /// The saturating negation of a angle.
    fn neg(self) -> (r: Angle) {
        Angle { urad: sat_neg(self.urad) }
    }
}

impl vstd::std_specs::ops::NegSpecImpl for Angle {
    open spec fn obeys_neg_spec() -> bool {
        true
    }

    open spec fn neg_req(self) -> bool {
        true
    }

    open spec fn neg_spec(self) -> Angle {
        Angle { urad: negation(self.urad as int) as i64 }
    }
}

impl core::ops::Add for Velocity {
    type Output = Velocity;

    /// The saturating sum of two velocities.
    fn add(self, rhs: Velocity) -> (r: Velocity) {
        Velocity { um_per_s: sat_add(self.um_per_s, rhs.um_per_s) }
    }
}

impl vstd::std_specs::ops::AddSpecImpl for Velocity {
    open spec fn obeys_add_spec() -> bool {
        true
    }

    open spec fn add_req(self, rhs: Velocity) -> bool {
        true
    }

    open spec fn add_spec(self, rhs: Velocity) -> Velocity {
        Velocity { um_per_s: sum(self.um_per_s as int, rhs.um_per_s as int) as i64 }
    }
}

impl core::ops::Sub for Velocity {
    type Output = Velocity;

    /// The saturating difference of two velocities.
    fn sub(self, rhs: Velocity) -> (r: Velocity) {
        Velocity { um_per_s: sat_sub(self.um_per_s, rhs.um_per_s) }
    }
}

impl vstd::std_specs::ops::SubSpecImpl for Velocity {
    open spec fn obeys_sub_spec() -> bool {
        true
    }

    open spec fn sub_req(self, rhs: Velocity) -> bool {
        true
    }

    open spec fn sub_spec(self, rhs: Velocity) -> Velocity {
        Velocity { um_per_s: difference(self.um_per_s as int, rhs.um_per_s as int) as i64 }
    }
}

impl core::ops::Neg for Velocity {
    type Output = Velocity;

    /// The saturating negation of a velocity.
    fn neg(self) -> (r: Velocity) {
        Velocity { um_per_s: sat_neg(self.um_per_s) }
    }
}

impl vstd::std_specs::ops::NegSpecImpl for Velocity {
    open spec fn obeys_neg_spec() -> bool {
        true
    }

    open spec fn neg_req(self) -> bool {
        true
    }

    open spec fn neg_spec(self) -> Velocity {
        Velocity { um_per_s: negation(self.um_per_s as int) as i64 }
    }
}

impl core::ops::Add for AngularVelocity {
    type Output = AngularVelocity;

    /// The saturating sum of two angular velocities.
    fn add(self, rhs: AngularVelocity) -> (r: AngularVelocity) {
        AngularVelocity { urad_per_s: sat_add(self.urad_per_s, rhs.urad_per_s) }
    }
}

impl vstd::std_specs::ops::AddSpecImpl for AngularVelocity {
    open spec fn obeys_add_spec() -> bool {
        true
    }

    open spec fn add_req(self, rhs: AngularVelocity) -> bool {
        true
    }

    open spec fn add_spec(self, rhs: AngularVelocity) -> AngularVelocity {
        AngularVelocity { urad_per_s: sum(self.urad_per_s as int, rhs.urad_per_s as int) as i64 }
    }
}

impl core::ops::Sub for AngularVelocity {
    type Output = AngularVelocity;

    /// The saturating difference of two angular velocities.
    fn sub(self, rhs: AngularVelocity) -> (r: AngularVelocity) {
        AngularVelocity { urad_per_s: sat_sub(self.urad_per_s, rhs.urad_per_s) }
    }
}

impl vstd::std_specs::ops::SubSpecImpl for AngularVelocity {
    open spec fn obeys_sub_spec() -> bool {
        true
    }

    open spec fn sub_req(self, rhs: AngularVelocity) -> bool {
        true
    }

    open spec fn sub_spec(self, rhs: AngularVelocity) -> AngularVelocity {
        AngularVelocity {
            urad_per_s: difference(self.urad_per_s as int, rhs.urad_per_s as int) as i64,
        }
    }
}

impl core::ops::Neg for AngularVelocity {
    type Output = AngularVelocity;

    /// The saturating negation of a angular velocity.
    fn neg(self) -> (r: AngularVelocity) {
        AngularVelocity { urad_per_s: sat_neg(self.urad_per_s) }
    }
}

impl vstd::std_specs::ops::NegSpecImpl for AngularVelocity {
    open spec fn obeys_neg_spec() -> bool {
        true
    }

    open spec fn neg_req(self) -> bool {
        true
    }

    open spec fn neg_spec(self) -> AngularVelocity {
        AngularVelocity { urad_per_s: negation(self.urad_per_s as int) as i64 }
    }
}

impl core::ops::Add for Time {
    type Output = Time;

    /// The saturating sum of two spans.
    fn add(self, rhs: Time) -> (r: Time) {
        Time { us: sat_add(self.us, rhs.us) }
    }
}

impl vstd::std_specs::ops::AddSpecImpl for Time {
    open spec fn obeys_add_spec() -> bool {
        true
    }

    open spec fn add_req(self, rhs: Time) -> bool {
        true
    }

    open spec fn add_spec(self, rhs: Time) -> Time {
        Time { us: sum(self.us as int, rhs.us as int) as i64 }
    }
}

impl core::ops::Sub for Time {
    type Output = Time;

    /// The saturating difference of two spans.
    fn sub(self, rhs: Time) -> (r: Time) {
        Time { us: sat_sub(self.us, rhs.us) }
    }
}

impl vstd::std_specs::ops::SubSpecImpl for Time {
    open spec fn obeys_sub_spec() -> bool {
        true
    }

    open spec fn sub_req(self, rhs: Time) -> bool {
        true
    }

    open spec fn sub_spec(self, rhs: Time) -> Time {
        Time { us: difference(self.us as int, rhs.us as int) as i64 }
    }
}

impl core::ops::Neg for Time {
    type Output = Time;

    /// The saturating negation of a span.
    fn neg(self) -> (r: Time) {
        Time { us: sat_neg(self.us) }
    }
}

impl vstd::std_specs::ops::NegSpecImpl for Time {
    open spec fn obeys_neg_spec() -> bool {
        true
    }

    open spec fn neg_req(self) -> bool {
        true
    }

    open spec fn neg_spec(self) -> Time {
        Time { us: negation(self.us as int) as i64 }
    }
}

} // verus!
