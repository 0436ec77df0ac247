//! The outline of a robot, and the pacing of its main loop.

use vstd::prelude::*;

verus! {

/// Something that does one step of work at a time.
pub trait Robot {
    fn tick(&mut self);
}

/// What the main loop does once a step is done.
#[derive(Clone, Copy, PartialEq, Eq, Structural, Debug)]
pub enum Pace {
    /// The step took less than its share of time: wait the rest, in
    /// milliseconds.
    Wait(usize),
    /// The step took its share of time or more.
    Overrun { runtime: usize, time_budget: usize },
}

/// The share of time of one step, in milliseconds, at `freq_hz` steps a
/// second.
pub open spec fn spec_time_budget(freq_hz: usize) -> usize {
    (1000int / (freq_hz as int)) as usize
}

/// Decides what follows a step that began at `time_start` and ended at
/// `time_end`, both in milliseconds, at `freq_hz` steps a second.
pub fn pace(freq_hz: usize, time_start: usize, time_end: usize) -> (p: Pace)
    requires
        freq_hz > 0,
        time_start <= time_end,
    ensures
        p == if time_end - time_start < spec_time_budget(freq_hz) {
            Pace::Wait((spec_time_budget(freq_hz) - (time_end - time_start)) as usize)
        } else {
            Pace::Overrun {
                runtime: (time_end - time_start) as usize,
                time_budget: spec_time_budget(freq_hz),
            }
        },
{
    let time_budget = 1000 / freq_hz;
    let runtime = time_end - time_start;
    if runtime < time_budget {
        Pace::Wait(time_budget - runtime)
    } else {
        Pace::Overrun { runtime, time_budget }
    }
}

} // verus!
