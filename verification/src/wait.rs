//! How a command is waited for.

use vstd::prelude::*;

verus! {

/// The exit code that stands for a program that could not be started.
pub const NOT_STARTED: i32 = 127;

/// The exit code that stands for a program that ran out of time.
pub const OUT_OF_TIME: i32 = 124;

/// The exit code that stands for a program that was ended by a signal.
pub const NO_CODE: i32 = -1;

/// The time between two looks at a running command, in milliseconds.
pub const PAUSE_MILLIS: u64 = 20;

/// What a look at a command shows.
#[derive(Debug, Clone, Copy, PartialEq, Eq, Structural)]
pub enum Sight {
    /// It could not be started.
    NeverRan,
    /// It has ended, with a code unless a signal ended it.
    Ended(Option<i32>),
    /// It is still running, within its time or beyond it.
    Running { out_of_time: bool },
    /// It could not be looked at.
    Lost,
}

/// What to do about it.
#[derive(Debug, Clone, Copy, PartialEq, Eq, Structural)]
pub enum Step {
    /// Report the exit code.
    Report(i32),
    /// Kill the command, then report the exit code.
    Kill(i32),
    /// Look again after a pause of as many milliseconds.
    Pause(u64),
}

/// What is done about a command, by what a look at it shows.
pub open spec fn step_after(sight: Sight) -> Step {
    match sight {
        Sight::NeverRan => Step::Report(NOT_STARTED),
        Sight::Ended(Some(code)) => Step::Report(code),
        Sight::Ended(None) => Step::Report(NO_CODE),
        Sight::Running { out_of_time: true } => Step::Kill(OUT_OF_TIME),
        Sight::Running { out_of_time: false } => Step::Pause(PAUSE_MILLIS),
        Sight::Lost => Step::Report(OUT_OF_TIME),
    }
}

/// Decides what is done about a command. One that ended reports its own code,
/// and only one that is still running beyond its time is killed.
pub fn next_step(sight: Sight) -> (r: Step)
    ensures
        r == step_after(sight),
        r is Kill <==> sight == (Sight::Running { out_of_time: true }),
        r is Pause <==> sight == (Sight::Running { out_of_time: false }),
{
    match sight {
        Sight::NeverRan => Step::Report(NOT_STARTED),
        Sight::Ended(code) => match code {
            Some(code) => Step::Report(code),
            None => Step::Report(NO_CODE),
        },
        Sight::Running { out_of_time } => if out_of_time {
            Step::Kill(OUT_OF_TIME)
        } else {
            Step::Pause(PAUSE_MILLIS)
        },
        Sight::Lost => Step::Report(OUT_OF_TIME),
    }
}

} // verus!
