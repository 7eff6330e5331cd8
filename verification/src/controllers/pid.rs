//! A PID controller with integral anti-windup and zero-crossing reset.

use vstd::prelude::*;
use crate::fixed::{
    abs_wide, difference, fx_div, fx_mul, is_positive, magnitude, product, quotient, sat_add,
    sat_sub, sign_of, sum,
};
use crate::units::Time;

verus! {

/// What a [`Pid`] holds: its four tuning constants and its two state words.
pub struct PidModel {
    pub kp: int,
    pub ki: int,
    pub kd: int,
    pub integral_threshold: int,
    pub prev_error: int,
    pub integral: int,
}

/// A PID controller. Gains, errors and outputs are fixed-point counts.
pub struct Pid {
    kp: i64,
    ki: i64,
    kd: i64,
    integral_threshold: i64,
    prev_error: i64,
    integral: i64,
}

impl View for Pid {
    type V = PidModel;

    closed spec fn view(&self) -> PidModel {
        PidModel {
            kp: self.kp as int,
            ki: self.ki as int,
            kd: self.kd as int,
            integral_threshold: self.integral_threshold as int,
            prev_error: self.prev_error as int,
            integral: self.integral as int,
        }
    }
}

/// Whether an error clears the integral: it has crossed zero since the
/// previous error, or it lies outside the band in which the integral is
/// allowed to build.
pub open spec fn integral_resets(prev_error: int, integral_threshold: int, error: int) -> bool {
    sign_of(error) != sign_of(prev_error) || magnitude(error) >= integral_threshold
}

/// The integral after an error has been seen for `dt` microseconds.
pub open spec fn next_integral(m: PidModel, error: int, dt: int) -> int {
    if integral_resets(m.prev_error, m.integral_threshold, error) {
        0
    } else {
        sum(m.integral, product(error, dt))
    }
}

/// The rate of change of the error over `dt` microseconds.
pub open spec fn derivative(m: PidModel, error: int, dt: int) -> int {
    quotient(difference(error, m.prev_error), dt)
}

/// The control signal: `kp * error + ki * integral + kd * derivative`, each
/// term a fixed-point product, summed with saturation from left to right.
pub open spec fn control_signal(m: PidModel, error: int, dt: int) -> int {
    sum(
        sum(product(error, m.kp), product(next_integral(m, error, dt), m.ki)),
        product(derivative(m, error, dt), m.kd),
    )
}

/// The controller after one call of [`Pid::output`].
pub open spec fn advanced(m: PidModel, error: int, dt: int) -> PidModel {
    PidModel { prev_error: error, integral: next_integral(m, error, dt), ..m }
}

/// The integral is cleared exactly when the error has crossed zero or lies
/// outside the band; any other error adds `error * dt` to it.
pub proof fn integral_resets_exactly(m: PidModel, error: int, dt: int)
    ensures
        integral_resets(m.prev_error, m.integral_threshold, error) ==> advanced(
            m,
            error,
            dt,
        ).integral == 0,
        !integral_resets(m.prev_error, m.integral_threshold, error) ==> advanced(
            m,
            error,
            dt,
        ).integral == sum(m.integral, product(error, dt)),
        integral_resets(m.prev_error, m.integral_threshold, error) <==> (sign_of(error) != sign_of(
            m.prev_error,
        ) || magnitude(error) >= m.integral_threshold),
{
}

impl Pid {
    /// A controller at rest, with the given gains and integral band.
    pub fn new(kp: i64, ki: i64, kd: i64, integral_threshold: i64) -> (pid: Pid)
        ensures
            pid@ == (PidModel {
                kp: kp as int,
                ki: ki as int,
                kd: kd as int,
                integral_threshold: integral_threshold as int,
                prev_error: 0,
                integral: 0,
            }),
    {
        Pid { kp, ki, kd, integral_threshold, prev_error: 0, integral: 0 }
    }

    /// Feeds one error sample, taken `dt` after the previous one, and returns
    /// the control signal.
    ///
    /// The integral is cleared exactly when [`integral_resets`] holds of the
    /// sample; otherwise it grows by `error * dt`.
    pub fn output(&mut self, error: i64, dt: Time) -> (signal: i64)
        requires
            dt.us > 0,
        ensures
            final(self)@ == advanced(old(self)@, error as int, dt.us as int),
            signal as int == control_signal(old(self)@, error as int, dt.us as int),
            integral_resets(old(self)@.prev_error, old(self)@.integral_threshold, error as int)
                ==> final(self)@.integral == 0,
            !integral_resets(old(self)@.prev_error, old(self)@.integral_threshold, error as int)
                ==> final(self)@.integral == sum(
                old(self)@.integral,
                product(error as int, dt.us as int),
            ),
    {
        if abs_wide(error) < self.integral_threshold as i128 {
            self.integral = sat_add(self.integral, fx_mul(error, dt.us));
        } else {
            self.integral = 0;
        }
        if is_positive(error) != is_positive(self.prev_error) {
            self.integral = 0;
        }
        let rate = fx_div(sat_sub(error, self.prev_error), dt.us);
        self.prev_error = error;
        sat_add(
            sat_add(fx_mul(error, self.kp), fx_mul(self.integral, self.ki)),
            fx_mul(rate, self.kd),
        )
    }
}

} // verus!
