//! The intake: three motors that are run in one of three patterns.

use vstd::prelude::*;
use crate::fixed::{negation, sat_neg};

verus! {

/// What the intake is asked to do, with the voltage to do it at.
#[derive(Clone, Copy, Debug, PartialEq, Eq, Structural)]
pub enum IntakeCommand {
    ScoreHigh(i64),
    ScoreMiddle(i64),
    ScoreLow(i64),
}

/// The intake. It holds the command in force, if any.
pub struct Intake {
    command: Option<IntakeCommand>,
}

impl View for Intake {
    type V = Option<IntakeCommand>;

    closed spec fn view(&self) -> Option<IntakeCommand> {
        self.command
    }
}

/// The voltages of the three motors under a command; all zero under none.
pub open spec fn intake_voltages(command: Option<IntakeCommand>) -> Seq<i64> {
    match command {
        Some(IntakeCommand::ScoreHigh(v)) => seq![
            negation(v as int) as i64,
            negation(v as int) as i64,
            v,
        ],
        Some(IntakeCommand::ScoreMiddle(v)) => seq![negation(v as int) as i64, v, v],
        Some(IntakeCommand::ScoreLow(v)) => seq![v, v, negation(v as int) as i64],
        None => seq![0i64, 0i64, 0i64],
    }
}

impl Intake {
    /// An intake with no command.
    pub fn new() -> (i: Intake)
        ensures
            i@ is None,
    {
        Intake { command: None }
    }

    /// Puts a command in force, or none.
    pub fn set_command(&mut self, command: Option<IntakeCommand>)
        ensures
            final(self)@ == command,
    {
        self.command = command;
    }

    /// The voltages to give the three motors this tick.
    pub fn voltages(&self) -> (v: [i64; 3])
        ensures
            v@ == intake_voltages(self@),
    {
        let v: [i64; 3] = match self.command {
            Some(IntakeCommand::ScoreHigh(v)) => [sat_neg(v), sat_neg(v), v],
            Some(IntakeCommand::ScoreMiddle(v)) => [sat_neg(v), v, v],
            Some(IntakeCommand::ScoreLow(v)) => [v, v, sat_neg(v)],
            None => [0, 0, 0],
        };
        assert(v@ =~= intake_voltages(self@));
        v
    }
}

} // verus!
