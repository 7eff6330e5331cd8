//! Motion primitives and what they share.
//!
//! A primitive is advanced one control tick at a time. Each tick reads the
//! pose, computes an error and a control signal, decides whether the move has
//! ended, and leaves a command with the drivetrain. The caller sleeps between
//! ticks, measures the time that passed, and carries the command to the
//! actuators.

pub mod linear;
pub mod move_to;
pub mod swing;
pub mod turn;

use vstd::prelude::*;
use crate::fixed::{
    abs_wide, clamp, div_wide, fx_mul, lemma_product_fits, magnitude, product, saturate, trunc_div,
    SCALE,
};
use crate::units::Time;

verus! {

/// Where a move stands after a tick.
#[derive(Clone, Copy, Debug, PartialEq, Eq, Structural)]
pub enum Status {
    /// The move goes on.
    Running,
    /// The error, and the velocity where one is asked for, are within
    /// tolerance.
    Converged,
    /// The deadline has passed before the move converged.
    TimedOut,
}

/// The settings of one call of a primitive. Each is optional; a primitive
/// puts them back to the values it was built with when the call ends.
#[derive(Clone, Copy, Debug, PartialEq, Eq, Structural)]
pub struct Settle {
    /// The move has not converged while the velocity is at or above this.
    pub velocity_tolerance: Option<i64>,
    /// The move is given up once it has run for longer than this.
    pub timeout: Option<Time>,
    /// A fixed-point factor on the tolerance: above one it widens the band so
    /// that the next move can start before this one has fully settled.
    pub tolerance_scale: Option<i64>,
}

/// The tolerance in force: the primitive's own, times the scale where one is
/// set.
pub open spec fn effective_tolerance(tolerance: int, s: Settle) -> int {
    match s.tolerance_scale {
        Some(k) => product(tolerance, k as int),
        None => tolerance,
    }
}

/// Whether error and velocity are inside the acceptance band.
pub open spec fn is_settled(error: int, velocity: int, tolerance: int, s: Settle) -> bool {
    &&& magnitude(error) < effective_tolerance(tolerance, s)
    &&& (s.velocity_tolerance matches Some(v) ==> magnitude(velocity) < v)
}

/// Whether the call has run past its deadline.
pub open spec fn is_expired(elapsed: int, s: Settle) -> bool {
    s.timeout matches Some(t) && elapsed > t.us
}

/// Where a move stands: convergence is looked at first, then the deadline.
pub open spec fn status_of(
    error: int,
    velocity: int,
    elapsed: int,
    tolerance: int,
    s: Settle,
) -> Status {
    if is_settled(error, velocity, tolerance, s) {
        Status::Converged
    } else if is_expired(elapsed, s) {
        Status::TimedOut
    } else {
        Status::Running
    }
}

/// A scale of one or more widens the acceptance band: what is settled
/// without a scale is settled with it.
pub proof fn wider_scale_accepts_more(
    error: int,
    velocity: int,
    tolerance: int,
    s: Settle,
    scale: i64,
)
    requires
        s.tolerance_scale is None,
        scale >= SCALE,
        0 <= tolerance <= i64::MAX,
        is_settled(error, velocity, tolerance, s),
    ensures
        is_settled(error, velocity, tolerance, Settle { tolerance_scale: Some(scale), ..s }),
{
    let k = scale as int;
    let one = SCALE as int;
    assert(tolerance * k >= tolerance * one) by (nonlinear_arith)
        requires
            tolerance >= 0,
            k >= one,
    ;
    assert((tolerance * k) / one >= tolerance) by (nonlinear_arith)
        requires
            tolerance * k >= tolerance * one,
            one == 1_000_000,
    ;
}

/// A call with a deadline ends: once it has run past the deadline, it is no
/// longer running, whatever the error and the velocity.
pub proof fn expired_call_ends(error: int, velocity: int, elapsed: int, tolerance: int, s: Settle)
    requires
        is_expired(elapsed, s),
    ensures
        !(status_of(error, velocity, elapsed, tolerance, s) is Running),
{
}

/// A call never ends as timed out while the error and the velocity are
/// within tolerance, nor as converged while they are not.
pub proof fn status_tells_convergence(
    error: int,
    velocity: int,
    elapsed: int,
    tolerance: int,
    s: Settle,
)
    ensures
        status_of(error, velocity, elapsed, tolerance, s) is Converged <==> is_settled(
            error,
            velocity,
            tolerance,
            s,
        ),
{
}

/// The largest absolute value in a sequence, zero for the empty one.
pub open spec fn largest_magnitude(values: Seq<i64>) -> int
    decreases values.len(),
{
    if values.len() == 0 {
        0
    } else {
        let rest = largest_magnitude(values.drop_last());
        if magnitude(values.last() as int) > rest {
            magnitude(values.last() as int)
        } else {
            rest
        }
    }
}

/// Whether a set of commands has to be scaled down to respect `max`.
pub open spec fn exceeds(values: Seq<i64>, max: int) -> bool {
    largest_magnitude(values) > max && largest_magnitude(values) > 0
}

/// One command after desaturation: scaled by `max / largest` where the
/// largest command exceeds `max`, left alone otherwise.
pub open spec fn desaturated(values: Seq<i64>, max: int, i: int) -> int {
    if exceeds(values, max) {
        clamp(trunc_div(values[i] as int * max, largest_magnitude(values)))
    } else {
        values[i] as int
    }
}

/// No command is larger than the largest.
pub proof fn lemma_largest_magnitude_bounds(values: Seq<i64>, i: int)
    requires
        0 <= i < values.len(),
    ensures
        magnitude(values[i] as int) <= largest_magnitude(values),
    decreases values.len(),
{
    if i < values.len() - 1 {
        lemma_largest_magnitude_bounds(values.drop_last(), i);
    }
}

/// After desaturation no command exceeds the limit, and none has changed
/// sign: each is the command it was, scaled by a factor between zero and one
/// that is the same for all.
pub proof fn desaturated_is_within_limit(values: Seq<i64>, max: int, i: int)
    requires
        0 <= i < values.len(),
        0 <= max <= i64::MAX,
    ensures
        magnitude(desaturated(values, max, i)) <= max,
        values[i] >= 0 ==> desaturated(values, max, i) >= 0,
        values[i] <= 0 ==> desaturated(values, max, i) <= 0,
{
    lemma_largest_magnitude_bounds(values, i);
    let v = values[i] as int;
    let largest = largest_magnitude(values);
    if exceeds(values, max) {
        let m = magnitude(v);
        assert(magnitude(v * max) == m * max) by (nonlinear_arith)
            requires
                m == magnitude(v),
                max >= 0,
        ;
        assert((m * max) / largest <= max && (m * max) / largest >= 0) by (nonlinear_arith)
            requires
                0 <= m <= largest,
                largest > 0,
                max >= 0,
        ;
        assert(v >= 0 ==> v * max >= 0) by (nonlinear_arith)
            requires
                max >= 0,
        ;
        assert(v <= 0 ==> v * max <= 0) by (nonlinear_arith)
            requires
                max >= 0,
        ;
    }
}

impl Settle {
    /// No velocity tolerance, no deadline and no scale.
    pub fn none() -> (s: Settle)
        ensures
            s == (Settle { velocity_tolerance: None, timeout: None, tolerance_scale: None }),
    {
        Settle { velocity_tolerance: None, timeout: None, tolerance_scale: None }
    }
}

/// Decides where a move stands from its error, the velocity it settles on,
/// the time it has run, and the settings of the call.
pub fn judge(error: i64, velocity: i64, elapsed: Time, tolerance: i64, s: &Settle) -> (status:
    Status)
    ensures
        status == status_of(
            error as int,
            velocity as int,
            elapsed.us as int,
            tolerance as int,
            *s,
        ),
{
    let band: i64 = match s.tolerance_scale {
        Some(k) => fx_mul(tolerance, k),
        None => tolerance,
    };
    let slow: bool = match s.velocity_tolerance {
        Some(v) => abs_wide(velocity) < v as i128,
        None => true,
    };
    if abs_wide(error) < band as i128 && slow {
        return Status::Converged;
    }
    match s.timeout {
        Some(t) => {
            if elapsed.us > t.us {
                Status::TimedOut
            } else {
                Status::Running
            }
        },
        None => Status::Running,
    }
}

/// The largest absolute value in an array of commands.
pub fn largest_of<const N: usize>(values: &[i64; N]) -> (largest: i128)
    ensures
        largest as int == largest_magnitude(values@),
        0 <= largest <= 0x8000_0000_0000_0000,
{
    let mut largest: i128 = 0;
    let mut i: usize = 0;
    assert(values@.subrange(0, 0) =~= Seq::<i64>::empty());
    while i < N
        invariant
            0 <= i <= N,
            values@.len() == N,
            largest as int == largest_magnitude(values@.subrange(0, i as int)),
            0 <= largest <= 0x8000_0000_0000_0000,
        decreases N - i,
    {
        assert(values@.subrange(0, i + 1).drop_last() =~= values@.subrange(0, i as int));
        let m = abs_wide(values[i]);
        if m > largest {
            largest = m;
        }
        i = i + 1;
    }
    assert(values@.subrange(0, i as int) =~= values@);
    largest
}

/// Scales a set of commands down together where the largest one exceeds
/// `max`, so that their ratios, and with them the curvature asked for, are
/// kept. Commands within the limit are left as they are.
pub fn desaturate<const N: usize>(values: [i64; N], max: i64) -> (out: [i64; N])
    ensures
        forall|i: int| 0 <= i < N ==> out@[i] as int == desaturated(values@, max as int, i),
        !exceeds(values@, max as int) ==> out@ == values@,
        max >= 0 ==> forall|i: int| 0 <= i < N ==> magnitude(#[trigger] out@[i] as int) <= max,
{
    let largest = largest_of(&values);
    let mut out = values;
    if largest > max as i128 && largest > 0 {
        let mut j: usize = 0;
        while j < N
            invariant
                0 <= j <= N,
                values@.len() == N,
                out@.len() == N,
                largest as int == largest_magnitude(values@),
                exceeds(values@, max as int),
                forall|k: int| 0 <= k < j ==> out@[k] as int == desaturated(values@, max as int, k),
            decreases N - j,
        {
            proof {
                lemma_product_fits(values[j as int] as int, max as int);
            }
            let scaled = saturate(div_wide((values[j] as i128) * (max as i128), largest));
            out[j] = scaled;
            j = j + 1;
        }
    }
    proof {
        if max >= 0 {
            assert forall|i: int| 0 <= i < N implies magnitude(#[trigger] out@[i] as int)
                <= max by {
                desaturated_is_within_limit(values@, max as int, i);
                assert(out@[i] as int == desaturated(values@, max as int, i));
            }
        }
    }
    out
}

} // verus!
