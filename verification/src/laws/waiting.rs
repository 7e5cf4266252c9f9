//! What holds of the waiting for commands.

use vstd::prelude::*;

use crate::wait::{step_after, Sight, Step};

verus! {

/// A command that has ended reports its own code, or -1 where a signal ended
/// it. One that never started reports 127, and one that ran out of time, or of
/// which nothing can be learned, 124: it is killed only while it runs, and only
/// beyond its time. Until then it is looked at again every 20 milliseconds.
pub proof fn law_commands_report_once(code: i32)
    ensures
        step_after(Sight::Ended(Some(code))) == Step::Report(code),
        step_after(Sight::Ended(None)) == Step::Report(-1i32),
        step_after(Sight::NeverRan) == Step::Report(127),
        step_after(Sight::Lost) == Step::Report(124),
        step_after(Sight::Running { out_of_time: true }) == Step::Kill(124),
        step_after(Sight::Running { out_of_time: false }) == Step::Pause(20),
{
}

} // verus!
