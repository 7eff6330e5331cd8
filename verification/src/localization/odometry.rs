//! Dead-reckoning pose estimation from two tracking wheels and a heading
//! sensor.
//!
//! Each tick the estimator is handed the arc each wheel rolled and the heading
//! now read. It removes from each arc the part that the turn alone produced,
//! solves the two corrected arcs for the displacement in the robot's frame,
//! turns that displacement into the field's frame by the average heading of
//! the tick, and adds it to the pose. A tick whose geometry is singular or
//! close to it, or whose numbers have run off the end of the range, leaves the
//! pose where it was.

use vstd::prelude::*;
use crate::fixed::{
    abs_wide, diff_products, difference, difference_of_products, fx_div, fx_mul,
    lemma_trunc_div_zero, magnitude, mul_div, product, quotient, ratio, sat_add, sat_sub, sum,
    sum_of_products, sum_products, SCALE,
};
use crate::localization::pose::Pose;
use crate::localization::vec2::{is_unit, Rotation, Vec2};
use crate::units::{Angle, AngularVelocity, Length, Time, Velocity};

verus! {

/// The smallest determinant, as a fixed-point count, with which two rolling
/// axes are told apart: the sine of about a twentieth of a degree.
pub const MIN_DETERMINANT: i64 = 1_000;

/// How a tracking wheel is mounted: where it sits relative to the robot's
/// centre of rotation, and the direction along which it rolls.
#[derive(Clone, Copy, Debug, PartialEq, Eq)]
pub struct WheelMount {
    /// From the centre of rotation to the wheel, in micrometres.
    pub offset: Vec2<i64>,
    /// The cosine and sine of the mounting angle.
    pub axis: Rotation,
}

/// What the estimator holds between ticks.
#[derive(Clone, Copy, Debug, PartialEq, Eq)]
pub struct OdometryState {
    pub pose: Pose,
    /// The heading sensor's reading at the previous tick.
    pub prev_heading: Angle,
    pub side: WheelMount,
    pub forward: WheelMount,
}

/// The pose estimator.
pub struct Odometry {
    state: OdometryState,
}

impl View for Odometry {
    type V = OdometryState;

    closed spec fn view(&self) -> OdometryState {
        self.state
    }
}

/// Whether a count sits at either end of the range, where results that
/// overflowed collect.
pub open spec fn saturated(x: int) -> bool {
    x == i64::MAX as int || x == i64::MIN as int
}

/// The component of a wheel's offset that is perpendicular to its rolling
/// axis: the arm through which a turn of the robot rolls the wheel.
pub open spec fn lever_arm(m: WheelMount) -> int {
    difference_of_products(
        m.offset.x as int,
        m.axis.sin as int,
        m.offset.y as int,
        m.axis.cos as int,
        SCALE as int,
    )
}

/// The arc that a wheel rolls when the robot turns by `dh` without moving.
pub open spec fn rotation_arc(m: WheelMount, dh: int) -> int {
    product(dh, lever_arm(m))
}

/// A wheel's reading with the arc due to the turn taken out.
pub open spec fn corrected_arc(m: WheelMount, ds: int, dh: int) -> int {
    difference(ds, rotation_arc(m, dh))
}

/// The determinant of the two rolling axes: the sine of the angle from the
/// first to the second.
pub open spec fn determinant(m1: WheelMount, m2: WheelMount) -> int {
    difference_of_products(
        m2.axis.sin as int,
        m1.axis.cos as int,
        m2.axis.cos as int,
        m1.axis.sin as int,
        SCALE as int,
    )
}

/// Whether the two wheels roll along the same line, or so nearly that their
/// readings cannot be told apart into two components: the determinant is
/// smaller than [`MIN_DETERMINANT`].
pub open spec fn is_singular(m1: WheelMount, m2: WheelMount) -> bool {
    magnitude(determinant(m1, m2)) < MIN_DETERMINANT as int
}

/// The first component of the displacement before it is divided by the
/// determinant.
pub open spec fn numerator_x(m1: WheelMount, m2: WheelMount, ds1: int, ds2: int, dh: int) -> int {
    difference_of_products(
        m2.axis.sin as int,
        corrected_arc(m1, ds1, dh),
        m1.axis.sin as int,
        corrected_arc(m2, ds2, dh),
        SCALE as int,
    )
}

/// The second component of the displacement before it is divided by the
/// determinant.
pub open spec fn numerator_y(m1: WheelMount, m2: WheelMount, ds1: int, ds2: int, dh: int) -> int {
    difference_of_products(
        m1.axis.cos as int,
        corrected_arc(m2, ds2, dh),
        m2.axis.cos as int,
        corrected_arc(m1, ds1, dh),
        SCALE as int,
    )
}

/// The first component of the displacement in the robot's frame.
pub open spec fn displacement_x(
    m1: WheelMount,
    m2: WheelMount,
    ds1: int,
    ds2: int,
    dh: int,
) -> int {
    quotient(numerator_x(m1, m2, ds1, ds2, dh), determinant(m1, m2))
}

/// The second component of the displacement in the robot's frame.
pub open spec fn displacement_y(
    m1: WheelMount,
    m2: WheelMount,
    ds1: int,
    ds2: int,
    dh: int,
) -> int {
    quotient(numerator_y(m1, m2, ds1, ds2, dh), determinant(m1, m2))
}

/// Whether any number on the way from the readings to the displacement sits
/// at an end of the range: a wheel arc or the heading delta as read, a lever
/// arm, the arc a turn rolls a wheel, a corrected arc, the determinant, a
/// numerator, or a component of the displacement itself. A number at an end
/// of the range does not show in what is computed from it, so each is looked
/// at where it arises.
pub open spec fn runs_off(m1: WheelMount, m2: WheelMount, ds1: int, ds2: int, dh: int) -> bool {
    ||| saturated(ds1)
    ||| saturated(ds2)
    ||| saturated(dh)
    ||| saturated(lever_arm(m1))
    ||| saturated(lever_arm(m2))
    ||| saturated(rotation_arc(m1, dh))
    ||| saturated(rotation_arc(m2, dh))
    ||| saturated(corrected_arc(m1, ds1, dh))
    ||| saturated(corrected_arc(m2, ds2, dh))
    ||| saturated(determinant(m1, m2))
    ||| saturated(numerator_x(m1, m2, ds1, ds2, dh))
    ||| saturated(numerator_y(m1, m2, ds1, ds2, dh))
    ||| saturated(displacement_x(m1, m2, ds1, ds2, dh))
    ||| saturated(displacement_y(m1, m2, ds1, ds2, dh))
}

/// Whether a tick cannot be solved: the geometry is singular, or a reading
/// or a number computed from the readings has run off the end of the range.
pub open spec fn is_degenerate(
    m1: WheelMount,
    m2: WheelMount,
    ds1: int,
    ds2: int,
    dh: int,
) -> bool {
    is_singular(m1, m2) || runs_off(m1, m2, ds1, ds2, dh)
}

/// A delta per unit of time, or zero where no time has passed.
pub open spec fn rate(delta: int, dt: int) -> int {
    if dt > 0 {
        quotient(delta, dt)
    } else {
        0
    }
}

/// The first field coordinate of a robot-frame displacement, for a robot
/// whose heading has the cosine and sine in `heading`.
pub open spec fn field_x(dx: int, dy: int, heading: Rotation) -> int {
    sum_of_products(dx, heading.cos as int, dy, heading.sin as int, SCALE as int)
}

/// The second field coordinate of a robot-frame displacement.
pub open spec fn field_y(dx: int, dy: int, heading: Rotation) -> int {
    difference_of_products(dy, heading.cos as int, dx, heading.sin as int, SCALE as int)
}

/// How far the heading sensor has turned between two readings. A reading
/// at an end of the range is no heading, and the change from it or to it
/// sits at the end of the range on its side, where it is seen.
pub open spec fn heading_change(prev: int, heading: int) -> int {
    if saturated(prev) || saturated(heading) {
        if difference(heading, prev) >= 0 {
            i64::MAX as int
        } else {
            i64::MIN as int
        }
    } else {
        difference(heading, prev)
    }
}

/// The heading halfway through a tick that turns by `dh`.
pub open spec fn average_heading_of(h: int, dh: int) -> int {
    sum(h, ratio(dh, 1, 2))
}

/// Whether a solved displacement cannot be taken into the pose: turned into
/// the field's frame, added to the pose, or divided by the elapsed time, a
/// number comes to sit at an end of the range.
pub open spec fn overruns(
    prev: Pose,
    dx: int,
    dy: int,
    dh: int,
    heading: Rotation,
    dt: int,
) -> bool {
    ||| saturated(field_x(dx, dy, heading))
    ||| saturated(field_y(dx, dy, heading))
    ||| saturated(sum(prev.x.um as int, field_x(dx, dy, heading)))
    ||| saturated(sum(prev.y.um as int, field_y(dx, dy, heading)))
    ||| saturated(sum(prev.h.urad as int, dh))
    ||| saturated(rate(dx, dt))
    ||| saturated(rate(dy, dt))
    ||| saturated(rate(dh, dt))
}

/// Whether a tick is skipped: it cannot be solved, its `heading` cannot be a
/// cosine and a sine, or its displacement cannot be taken into the pose.
pub open spec fn is_skipped(
    prev: Pose,
    m1: WheelMount,
    m2: WheelMount,
    ds1: int,
    ds2: int,
    dh: int,
    heading: Rotation,
    dt: int,
) -> bool {
    ||| is_degenerate(m1, m2, ds1, ds2, dh)
    ||| !is_unit(heading)
    ||| overruns(
        prev,
        displacement_x(m1, m2, ds1, ds2, dh),
        displacement_y(m1, m2, ds1, ds2, dh),
        dh,
        heading,
        dt,
    )
}

/// Whether no field of a pose sits at an end of the range.
pub open spec fn is_finite(pose: Pose) -> bool {
    &&& !saturated(pose.x.um as int)
    &&& !saturated(pose.y.um as int)
    &&& !saturated(pose.h.urad as int)
    &&& !saturated(pose.vf.um_per_s as int)
    &&& !saturated(pose.vs.um_per_s as int)
    &&& !saturated(pose.omega.urad_per_s as int)
}

/// The pose after a tick.
///
/// `heading` holds the cosine and sine of the average heading of the tick. A
/// tick that is skipped keeps position and heading and reports no motion.
pub open spec fn next_pose(
    prev: Pose,
    m1: WheelMount,
    m2: WheelMount,
    ds1: int,
    ds2: int,
    dh: int,
    heading: Rotation,
    dt: int,
) -> Pose {
    if is_skipped(prev, m1, m2, ds1, ds2, dh, heading, dt) {
        Pose {
            x: prev.x,
            y: prev.y,
            h: prev.h,
            vf: Velocity { um_per_s: 0 },
            vs: Velocity { um_per_s: 0 },
            omega: AngularVelocity { urad_per_s: 0 },
        }
    } else {
        let dx = displacement_x(m1, m2, ds1, ds2, dh);
        let dy = displacement_y(m1, m2, ds1, ds2, dh);
        Pose {
            x: Length { um: sum(prev.x.um as int, field_x(dx, dy, heading)) as i64 },
            y: Length { um: sum(prev.y.um as int, field_y(dx, dy, heading)) as i64 },
            h: Angle { urad: sum(prev.h.urad as int, dh) as i64 },
            vf: Velocity { um_per_s: rate(dx, dt) as i64 },
            vs: Velocity { um_per_s: rate(dy, dt) as i64 },
            omega: AngularVelocity { urad_per_s: rate(dh, dt) as i64 },
        }
    }
}

impl WheelMount {
    /// A wheel at `offset` from the centre of rotation that rolls along
    /// `axis`.
    pub fn new(offset: Vec2<Length>, axis: Rotation) -> (m: WheelMount)
        ensures
            m.offset.x == offset.x.um,
            m.offset.y == offset.y.um,
            m.axis == axis,
    {
        WheelMount { offset: Vec2 { x: offset.x.um, y: offset.y.um }, axis }
    }

    /// From the centre of rotation to the wheel.
    pub fn from_center(&self) -> (r: Vec2<Length>)
        ensures
            r.x.um == self.offset.x,
            r.y.um == self.offset.y,
    {
        Vec2 { x: Length { um: self.offset.x }, y: Length { um: self.offset.y } }
    }

    /// The arm through which a turn of the robot rolls this wheel.
    pub fn lever(&self) -> (r: i64)
        ensures
            r as int == lever_arm(*self),
    {
        diff_products(self.offset.x, self.axis.sin, self.offset.y, self.axis.cos, SCALE)
    }

    /// This wheel's reading `ds` with the arc due to a turn by `dh` taken out.
    pub fn corrected(&self, ds: Length, dh: Angle) -> (r: i64)
        ensures
            r as int == corrected_arc(*self, ds.um as int, dh.urad as int),
    {
        sat_sub(ds.um, fx_mul(dh.urad, self.lever()))
    }
}

/// Whether a count sits at either end of the range.
pub fn is_saturated(x: i64) -> (r: bool)
    ensures
        r == saturated(x as int),
{
    x == i64::MAX || x == i64::MIN
}

/// The displacement in the robot's frame that explains two wheel readings
/// taken while the robot turned by `dh`, or `None` where the tick is
/// degenerate: the geometry is singular, or a reading, or any number on the
/// way from the readings to the displacement, sits at an end of the range.
pub fn solve(m1: &WheelMount, m2: &WheelMount, ds1: Length, ds2: Length, dh: Angle) -> (r: Option<
    Vec2<i64>,
>)
    ensures
        r is None <==> is_degenerate(*m1, *m2, ds1.um as int, ds2.um as int, dh.urad as int),
        r matches Some(d) ==> {
            &&& d.x as int == displacement_x(
                *m1,
                *m2,
                ds1.um as int,
                ds2.um as int,
                dh.urad as int,
            )
            &&& d.y as int == displacement_y(
                *m1,
                *m2,
                ds1.um as int,
                ds2.um as int,
                dh.urad as int,
            )
        },
{
    let det = diff_products(m2.axis.sin, m1.axis.cos, m2.axis.cos, m1.axis.sin, SCALE);
    if abs_wide(det) < MIN_DETERMINANT as i128 {
        return None;
    }
    let lever1 = m1.lever();
    let lever2 = m2.lever();
    let arc1 = fx_mul(dh.urad, lever1);
    let arc2 = fx_mul(dh.urad, lever2);
    let c1 = m1.corrected(ds1, dh);
    let c2 = m2.corrected(ds2, dh);
    let nx = diff_products(m2.axis.sin, c1, m1.axis.sin, c2, SCALE);
    let ny = diff_products(m1.axis.cos, c2, m2.axis.cos, c1, SCALE);
    let dx = fx_div(nx, det);
    let dy = fx_div(ny, det);
    let read_off = is_saturated(ds1.um) || is_saturated(ds2.um) || is_saturated(dh.urad);
    let arm_off = is_saturated(lever1) || is_saturated(lever2) || is_saturated(arc1)
        || is_saturated(arc2);
    let solved_off = is_saturated(c1) || is_saturated(c2) || is_saturated(det) || is_saturated(nx)
        || is_saturated(ny) || is_saturated(dx) || is_saturated(dy);
    if read_off || arm_off || solved_off {
        None
    } else {
        Some(Vec2 { x: dx, y: dy })
    }
}

/// A delta per unit of time, or zero where no time has passed.
pub fn rate_of(delta: i64, dt: Time) -> (r: i64)
    ensures
        r as int == rate(delta as int, dt.us as int),
{
    if dt.us > 0 {
        fx_div(delta, dt.us)
    } else {
        0
    }
}

impl Odometry {
    /// An estimator that starts at `starting_pose`, with the heading sensor
    /// reading `heading`.
    pub fn new(starting_pose: Pose, forward: WheelMount, side: WheelMount, heading: Angle) -> (o:
        Odometry)
        ensures
            o@ == (OdometryState { pose: starting_pose, prev_heading: heading, side, forward }),
    {
        Odometry {
            state: OdometryState { pose: starting_pose, prev_heading: heading, side, forward },
        }
    }

    /// A copy of the current pose.
    pub fn get_pose(&self) -> (pose: Pose)
        ensures
            pose == self@.pose,
    {
        self.state.pose
    }

    /// Replaces the pose. The next tick builds on the new pose: ticks add
    /// deltas to what is stored and never write back a position of their own.
    pub fn set_pose(&mut self, pose: Pose)
        ensures
            final(self)@ == (OdometryState { pose, ..old(self)@ }),
    {
        self.state.pose = pose;
    }

    /// How far the heading sensor has turned since the previous tick. Where
    /// either reading sits at an end of the range, so does the change.
    pub fn heading_delta(&self, heading: Angle) -> (dh: Angle)
        ensures
            dh.urad as int == heading_change(
                self@.prev_heading.urad as int,
                heading.urad as int,
            ),
    {
        let prev = self.state.prev_heading.urad;
        let change = sat_sub(heading.urad, prev);
        if is_saturated(prev) || is_saturated(heading.urad) {
            if change >= 0 {
                Angle { urad: i64::MAX }
            } else {
                Angle { urad: i64::MIN }
            }
        } else {
            Angle { urad: change }
        }
    }

    /// The heading halfway through a tick that ends with the sensor reading
    /// `heading`. The caller evaluates its cosine and sine for
    /// [`Odometry::update`].
    pub fn average_heading(&self, heading: Angle) -> (avg: Angle)
        ensures
            avg.urad as int == average_heading_of(
                self@.pose.h.urad as int,
                heading_change(self@.prev_heading.urad as int, heading.urad as int),
            ),
    {
        let dh = self.heading_delta(heading);
        Angle { urad: sat_add(self.state.pose.h.urad, mul_div(dh.urad, 1, 2)) }
    }

    /// One tick of the estimator.
    ///
    /// `side` and `forward` are the arcs the two wheels rolled since the
    /// previous tick, `heading` is the sensor's reading now, `rotation` holds
    /// the cosine and sine of [`Odometry::average_heading`], and `elapsed` is
    /// the measured time since the previous tick.
    ///
    /// The tick is skipped, and the pose keeps its position and heading and
    /// reports no motion, where the geometry is singular, where `rotation`
    /// cannot be a cosine and a sine, and where a reading or any number
    /// computed in the tick sits at an end of the range. So a pose none of
    /// whose fields sits there is followed by another such pose.
    pub fn update(
        &mut self,
        side: Length,
        forward: Length,
        heading: Angle,
        rotation: Rotation,
        elapsed: Time,
    )
        ensures
            final(self)@.side == old(self)@.side,
            final(self)@.forward == old(self)@.forward,
            final(self)@.prev_heading == heading,
            final(self)@.pose == next_pose(
                old(self)@.pose,
                old(self)@.side,
                old(self)@.forward,
                side.um as int,
                forward.um as int,
                heading_change(old(self)@.prev_heading.urad as int, heading.urad as int),
                rotation,
                elapsed.us as int,
            ),
    {
        let dh = self.heading_delta(heading);
        let prev = self.state.pose;
        self.state.prev_heading = heading;
        let solved = if rotation.is_unit() {
            solve(&self.state.side, &self.state.forward, side, forward, dh)
        } else {
            None
        };
        match solved {
            None => {
                self.state.pose = Pose::new(prev.x, prev.y, prev.h);
            },
            Some(d) => {
                let fx = sum_products(d.x, rotation.cos, d.y, rotation.sin, SCALE);
                let fy = diff_products(d.y, rotation.cos, d.x, rotation.sin, SCALE);
                let x = sat_add(prev.x.um, fx);
                let y = sat_add(prev.y.um, fy);
                let h = sat_add(prev.h.urad, dh.urad);
                let vf = rate_of(d.x, elapsed);
                let vs = rate_of(d.y, elapsed);
                let omega = rate_of(dh.urad, elapsed);
                let moved_off = is_saturated(fx) || is_saturated(fy) || is_saturated(x)
                    || is_saturated(y) || is_saturated(h);
                let rate_off = is_saturated(vf) || is_saturated(vs) || is_saturated(omega);
                if moved_off || rate_off {
                    self.state.pose = Pose::new(prev.x, prev.y, prev.h);
                } else {
                    self.state.pose = Pose {
                        x: Length { um: x },
                        y: Length { um: y },
                        h: Angle { urad: h },
                        vf: Velocity { um_per_s: vf },
                        vs: Velocity { um_per_s: vs },
                        omega: AngularVelocity { urad_per_s: omega },
                    };
                }
            },
        }
    }
}

/// A tick in which neither wheel rolled and the heading did not change leaves
/// position and heading as they were and reports no motion.
pub proof fn still_tick_keeps_pose(
    prev: Pose,
    m1: WheelMount,
    m2: WheelMount,
    heading: Rotation,
    dt: int,
)
    ensures
        next_pose(prev, m1, m2, 0, 0, 0, heading, dt).x == prev.x,
        next_pose(prev, m1, m2, 0, 0, 0, heading, dt).y == prev.y,
        next_pose(prev, m1, m2, 0, 0, 0, heading, dt).h == prev.h,
        next_pose(prev, m1, m2, 0, 0, 0, heading, dt).is_at_rest(),
{
    if !is_skipped(prev, m1, m2, 0, 0, 0, heading, dt) {
        rotation_only_is_no_displacement(m1, m2, 0);
        lemma_trunc_div_zero(SCALE as int);
        if dt > 0 {
            lemma_trunc_div_zero(dt);
        }
        assert(0int * (heading.cos as int) + 0int * (heading.sin as int) == 0);
        assert(0int * (heading.cos as int) - 0int * (heading.sin as int) == 0);
        assert(0int * (SCALE as int) == 0);
    }
}

/// A reading at an end of the range is never used: where a wheel arc or the
/// heading delta sits there, the tick keeps position and heading and reports
/// no motion.
pub proof fn runaway_reading_is_discarded(
    prev: Pose,
    m1: WheelMount,
    m2: WheelMount,
    ds1: int,
    ds2: int,
    dh: int,
    heading: Rotation,
    dt: int,
)
    requires
        saturated(ds1) || saturated(ds2) || saturated(dh),
    ensures
        next_pose(prev, m1, m2, ds1, ds2, dh, heading, dt).x == prev.x,
        next_pose(prev, m1, m2, ds1, ds2, dh, heading, dt).y == prev.y,
        next_pose(prev, m1, m2, ds1, ds2, dh, heading, dt).h == prev.h,
        next_pose(prev, m1, m2, ds1, ds2, dh, heading, dt).is_at_rest(),
{
}

/// The pose stays finite: where the position and the heading before a tick
/// do not sit at an end of the range, no field of the pose after it does,
/// whatever the wheels, the heading sensor and the clock report.
pub proof fn finite_pose_stays_finite(
    prev: Pose,
    m1: WheelMount,
    m2: WheelMount,
    ds1: int,
    ds2: int,
    dh: int,
    heading: Rotation,
    dt: int,
)
    requires
        !saturated(prev.x.um as int),
        !saturated(prev.y.um as int),
        !saturated(prev.h.urad as int),
    ensures
        is_finite(next_pose(prev, m1, m2, ds1, ds2, dh, heading, dt)),
{
}

/// A turn without translation is read as no displacement: where each wheel
/// reports exactly the arc that a turn by `dh` rolls it, and the geometry is
/// not singular, both components of the displacement are zero.
pub proof fn rotation_only_is_no_displacement(m1: WheelMount, m2: WheelMount, dh: int)
    requires
        !is_singular(m1, m2),
    ensures
        displacement_x(m1, m2, rotation_arc(m1, dh), rotation_arc(m2, dh), dh) == 0,
        displacement_y(m1, m2, rotation_arc(m1, dh), rotation_arc(m2, dh), dh) == 0,
{
    let a1 = rotation_arc(m1, dh);
    let a2 = rotation_arc(m2, dh);
    assert(corrected_arc(m1, a1, dh) == 0);
    assert(corrected_arc(m2, a2, dh) == 0);
    assert((m2.axis.sin as int) * 0 - (m1.axis.sin as int) * 0 == 0);
    assert((m1.axis.cos as int) * 0 - (m2.axis.cos as int) * 0 == 0);
    lemma_trunc_div_zero(SCALE as int);
    assert(0int * (SCALE as int) == 0);
    lemma_trunc_div_zero(determinant(m1, m2));
}

/// With the first wheel rolling along the robot's second axis and the
/// second wheel along its first, each component of the displacement is the
/// corrected arc of one wheel.
pub proof fn perpendicular_wheels_read_directly(
    m1: WheelMount,
    m2: WheelMount,
    ds1: int,
    ds2: int,
    dh: int,
)
    requires
        m1.axis == (Rotation { cos: 0, sin: SCALE }),
        m2.axis == (Rotation { cos: SCALE, sin: 0 }),
        corrected_arc(m1, ds1, dh) > i64::MIN,
        corrected_arc(m2, ds2, dh) > i64::MIN,
    ensures
        !is_singular(m1, m2),
        displacement_x(m1, m2, ds1, ds2, dh) == corrected_arc(m2, ds2, dh),
        displacement_y(m1, m2, ds1, ds2, dh) == corrected_arc(m1, ds1, dh),
{
    let one = SCALE as int;
    let c1 = corrected_arc(m1, ds1, dh);
    let c2 = corrected_arc(m2, ds2, dh);
    assert(determinant(m1, m2) == -one) by {
        assert(0int * 0 - one * one == -(one * one));
        assert((one * one) / one == one) by (nonlinear_arith)
            requires
                one == 1_000_000,
        ;
    }
    assert(difference_of_products(0, c1, one, c2, one) == -c2) by {
        assert(0 * c1 - one * c2 == -(one * c2)) by (nonlinear_arith);
        lemma_scaled_back(c2);
    }
    assert(quotient(-c2, -one) == c2) by {
        assert((-c2) * one == -(c2 * one)) by (nonlinear_arith);
        assert(one * c2 == c2 * one) by (nonlinear_arith);
        lemma_scaled_back(c2);
    }
    assert(difference_of_products(0, c2, one, c1, one) == -c1) by {
        assert(0 * c2 - one * c1 == -(one * c1)) by (nonlinear_arith);
        lemma_scaled_back(c1);
    }
    assert(quotient(-c1, -one) == c1) by {
        assert((-c1) * one == -(c1 * one)) by (nonlinear_arith);
        assert(one * c1 == c1 * one) by (nonlinear_arith);
        lemma_scaled_back(c1);
    }
}

/// Scaling a count up by one whole unit and down again gives the count.
proof fn lemma_scaled_back(c: int)
    ensures
        magnitude(SCALE as int * c) / (SCALE as int) == magnitude(c),
        magnitude(-(SCALE as int * c)) / (SCALE as int) == magnitude(c),
        (SCALE as int * c >= 0) == (c >= 0),
        (-(SCALE as int * c) >= 0) == (c <= 0),
{
    let one = SCALE as int;
    assert(magnitude(one * c) == one * magnitude(c)) by (nonlinear_arith)
        requires
            one == 1_000_000,
    ;
    assert((one * magnitude(c)) / one == magnitude(c)) by (nonlinear_arith)
        requires
            one == 1_000_000,
    ;
    assert((one * c >= 0) == (c >= 0)) by (nonlinear_arith)
        requires
            one == 1_000_000,
    ;
}

/// Two wheels whose rolling axes coincide or are exactly opposite form a
/// singular geometry.
pub proof fn parallel_axes_are_singular(m1: WheelMount, m2: WheelMount)
    requires
        (m2.axis.cos == m1.axis.cos && m2.axis.sin == m1.axis.sin) || (m2.axis.cos as int == -(
        m1.axis.cos as int) && m2.axis.sin as int == -(m1.axis.sin as int)),
    ensures
        is_singular(m1, m2),
{
    let c = m1.axis.cos as int;
    let s = m1.axis.sin as int;
    assert(s * c - c * s == 0) by (nonlinear_arith);
    assert((-s) * c - (-c) * s == 0) by (nonlinear_arith);
    lemma_trunc_div_zero(SCALE as int);
}

/// A tick with singular geometry keeps position and heading whatever the
/// wheels and the heading sensor report, and reports no motion.
pub proof fn singular_tick_is_skipped(
    prev: Pose,
    m1: WheelMount,
    m2: WheelMount,
    ds1: int,
    ds2: int,
    dh: int,
    heading: Rotation,
    dt: int,
)
    requires
        is_singular(m1, m2),
    ensures
        next_pose(prev, m1, m2, ds1, ds2, dh, heading, dt).x == prev.x,
        next_pose(prev, m1, m2, ds1, ds2, dh, heading, dt).y == prev.y,
        next_pose(prev, m1, m2, ds1, ds2, dh, heading, dt).h == prev.h,
        next_pose(prev, m1, m2, ds1, ds2, dh, heading, dt).is_at_rest(),
{
}

} // verus!
