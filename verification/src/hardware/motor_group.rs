//! A bank of motors read as one.
//!
//! A motor whose reading failed, or gave a value at an end of the range, is
//! left out of the average. Where every motor of a bank fails, the bank
//! reports what it reported last.

use vstd::prelude::*;
use crate::fixed::{clamp, div_wide, magnitude, saturate, trunc_div};

verus! {

/// The sum of a sequence of counts.
pub open spec fn total(values: Seq<i64>) -> int
    decreases values.len(),
{
    if values.len() == 0 {
        0
    } else {
        total(values.drop_last()) + values.last() as int
    }
}

/// The mean of a sequence of counts, rounded toward zero. Meaningful for a
/// sequence that is not empty.
pub open spec fn mean(values: Seq<i64>) -> int {
    clamp(trunc_div(total(values), values.len() as int))
}

/// Whether a reading can be used: it succeeded, and what it gave does not
/// sit at an end of the range, where values that are no numbers collect.
pub open spec fn is_usable(reading: Option<i64>) -> bool {
    reading matches Some(v) && v != i64::MAX && v != i64::MIN
}

/// The readings that can be used, in their order.
pub open spec fn successful(readings: Seq<Option<i64>>) -> Seq<i64>
    decreases readings.len(),
{
    if readings.len() == 0 {
        Seq::<i64>::empty()
    } else if is_usable(readings.last()) {
        successful(readings.drop_last()).push(readings.last()->Some_0)
    } else {
        successful(readings.drop_last())
    }
}

/// What a bank reports for a set of readings: the mean of those that can
/// be used, or the value it is handed where none can.
pub open spec fn fused(readings: Seq<Option<i64>>, fallback: int) -> int {
    if successful(readings).len() == 0 {
        fallback
    } else {
        mean(successful(readings))
    }
}

/// What a bank of motors is asked to do.
#[derive(Clone, Copy, Debug, PartialEq, Eq, Structural)]
pub enum MotorCommand {
    /// A voltage, in microvolts.
    Voltage(i64),
    /// A velocity, in millionths of a revolution per minute.
    Velocity(i64),
}

/// Every reading that is kept can be used.
pub proof fn lemma_successful_are_usable(readings: Seq<Option<i64>>, i: int)
    requires
        0 <= i < successful(readings).len(),
    ensures
        i64::MIN < successful(readings)[i] < i64::MAX,
    decreases readings.len(),
{
    if readings.len() > 0 {
        let rest = successful(readings.drop_last());
        if i < rest.len() {
            lemma_successful_are_usable(readings.drop_last(), i);
        }
    }
}

/// The sum of counts that lie inside the range lies inside the range times
/// their number.
pub proof fn lemma_total_bounds(values: Seq<i64>)
    requires
        forall|i: int| 0 <= i < values.len() ==> i64::MIN < #[trigger] values[i] < i64::MAX,
    ensures
        -(values.len() as int) * 0x7fff_ffff_ffff_ffff <= total(values),
        total(values) <= (values.len() as int) * 0x7fff_ffff_ffff_fffe,
    decreases values.len(),
{
    if values.len() > 0 {
        let rest = values.drop_last();
        assert forall|i: int| 0 <= i < rest.len() implies i64::MIN < #[trigger] rest[i]
            < i64::MAX by {
            assert(rest[i] == values[i]);
        }
        lemma_total_bounds(rest);
        assert(i64::MIN < values[values.len() - 1] < i64::MAX);
    }
}

/// What a bank reports is a number: where the value it falls back on does
/// not sit at an end of the range, neither does what it reports, whatever
/// the motors read.
pub proof fn fused_is_a_number(readings: Seq<Option<i64>>, fallback: int)
    requires
        i64::MIN < fallback < i64::MAX,
    ensures
        i64::MIN < fused(readings, fallback) < i64::MAX,
{
    let kept = successful(readings);
    if kept.len() > 0 {
        assert forall|i: int| 0 <= i < kept.len() implies i64::MIN < #[trigger] kept[i]
            < i64::MAX by {
            lemma_successful_are_usable(readings, i);
        }
        lemma_total_bounds(kept);
        let n = kept.len() as int;
        let t = total(kept);
        assert(magnitude(t) / n <= 0x7fff_ffff_ffff_ffff) by (nonlinear_arith)
            requires
                n > 0,
                0 <= magnitude(t) <= n * 0x7fff_ffff_ffff_ffff,
        ;
        if t >= 0 {
            assert(t / n <= 0x7fff_ffff_ffff_fffe) by (nonlinear_arith)
                requires
                    n > 0,
                    0 <= t <= n * 0x7fff_ffff_ffff_fffe,
            ;
        }
        assert(magnitude(t) / n >= 0) by (nonlinear_arith)
            requires
                n > 0,
                magnitude(t) >= 0,
        ;
    }
}

/// What a [`MotorGroup`] holds.
#[derive(Clone, Copy, Debug, PartialEq, Eq, Structural)]
pub struct MotorGroupState {
    /// What is asked of every motor of the bank.
    pub command: MotorCommand,
    /// The voltage reported last.
    pub voltage: i64,
    /// The velocity reported last.
    pub velocity: i64,
}

/// A bank of motors.
pub struct MotorGroup {
    state: MotorGroupState,
}

impl View for MotorGroup {
    type V = MotorGroupState;

    closed spec fn view(&self) -> MotorGroupState {
        self.state
    }
}

/// The mean of a list of counts, or `None` for the empty list.
pub fn average(values: &Vec<i64>) -> (r: Option<i64>)
    ensures
        r is None <==> values@.len() == 0,
        r matches Some(m) ==> m as int == mean(values@),
{
    if values.len() == 0 {
        return None;
    }
    let mut acc: i128 = 0;
    let mut i: usize = 0;
    assert(values@.subrange(0, 0) =~= Seq::<i64>::empty());
    while i < values.len()
        invariant
            0 <= i <= values.len(),
            acc as int == total(values@.subrange(0, i as int)),
            -(i as int) * 0x8000_0000_0000_0000 <= acc as int <= (i as int)
                * 0x8000_0000_0000_0000,
        decreases values.len() - i,
    {
        assert(values@.subrange(0, i + 1).drop_last() =~= values@.subrange(0, i as int));
        acc = acc + values[i] as i128;
        i = i + 1;
    }
    assert(values@.subrange(0, i as int) =~= values@);
    Some(saturate(div_wide(acc, values.len() as i128)))
}

/// The readings that can be used, in their order: those that succeeded
/// with a value that does not sit at an end of the range.
pub fn keep_successful(readings: &Vec<Option<i64>>) -> (kept: Vec<i64>)
    ensures
        kept@ == successful(readings@),
{
    let mut kept: Vec<i64> = Vec::new();
    let mut i: usize = 0;
    assert(readings@.subrange(0, 0) =~= Seq::<Option<i64>>::empty());
    while i < readings.len()
        invariant
            0 <= i <= readings.len(),
            kept@ == successful(readings@.subrange(0, i as int)),
        decreases readings.len() - i,
    {
        assert(readings@.subrange(0, i + 1).drop_last() =~= readings@.subrange(0, i as int));
        match readings[i] {
            Some(v) => {
                if v != i64::MAX && v != i64::MIN {
                    kept.push(v);
                }
            },
            None => {},
        }
        i = i + 1;
    }
    assert(readings@.subrange(0, i as int) =~= readings@);
    kept
}

/// What a bank reports for a set of readings: the mean of those that can
/// be used, or `fallback` where none can.
pub fn fuse(readings: &Vec<Option<i64>>, fallback: i64) -> (r: i64)
    ensures
        r as int == fused(readings@, fallback as int),
{
    let kept = keep_successful(readings);
    match average(&kept) {
        Some(m) => m,
        None => fallback,
    }
}

impl MotorGroup {
    /// A bank at rest.
    pub fn new() -> (g: MotorGroup)
        ensures
            g@ == (MotorGroupState {
                command: MotorCommand::Voltage(0),
                voltage: 0,
                velocity: 0,
            }),
    {
        MotorGroup {
            state: MotorGroupState { command: MotorCommand::Voltage(0), voltage: 0, velocity: 0 },
        }
    }

    /// Asks the same voltage of every motor of the bank.
    pub fn set_voltage(&mut self, voltage: i64)
        ensures
            final(self)@ == (MotorGroupState {
                command: MotorCommand::Voltage(voltage),
                ..old(self)@
            }),
    {
        self.state.command = MotorCommand::Voltage(voltage);
    }

    /// Asks the same velocity of every motor of the bank.
    pub fn set_velocity(&mut self, velocity: i64)
        ensures
            final(self)@ == (MotorGroupState {
                command: MotorCommand::Velocity(velocity),
                ..old(self)@
            }),
    {
        self.state.command = MotorCommand::Velocity(velocity);
    }

    /// What is asked of every motor of the bank.
    pub fn command(&self) -> (c: MotorCommand)
        ensures
            c == self@.command,
    {
        self.state.command
    }

    /// The bank's voltage: the mean of the readings that can be used, or what
    /// was reported last where none can.
    pub fn voltage(&mut self, readings: &Vec<Option<i64>>) -> (v: i64)
        ensures
            v as int == fused(readings@, old(self)@.voltage as int),
            final(self)@ == (MotorGroupState { voltage: v, ..old(self)@ }),
    {
        let v = fuse(readings, self.state.voltage);
        self.state.voltage = v;
        v
    }

    /// The bank's velocity: the mean of the readings that can be used, or what
    /// was reported last where none can.
    pub fn velocity(&mut self, readings: &Vec<Option<i64>>) -> (v: i64)
        ensures
            v as int == fused(readings@, old(self)@.velocity as int),
            final(self)@ == (MotorGroupState { velocity: v, ..old(self)@ }),
    {
        let v = fuse(readings, self.state.velocity);
        self.state.velocity = v;
        v
    }
}

} // verus!
