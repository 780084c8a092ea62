//! Elapsed time.

use std::time::Instant;

use vstd::prelude::*;

use crate::report::{PhaseStatus, PhaseTimingReport};

verus! {

/// Declares `Instant`, a reading of the machine's clock.
#[verifier::external_type_specification]
#[verifier::external_body]
pub struct ExInstant(Instant);

/// `Instant::now` reads the clock. The reading rests on the machine, so nothing is stated.
#[verifier::external_body]
fn read_clock() -> (r: Instant)
{
    Instant::now()
}

/// `Instant::elapsed` gives the time since a reading, here in whole microseconds. It rests on
/// the machine, so nothing is stated.
#[verifier::external_body]
fn micros_since(start: &Instant) -> (r: u64)
{
    u64::try_from(start.elapsed().as_micros()).unwrap_or(u64::MAX)
}

/// Clock of one operation; it starts at zero.
pub struct OperationClock {
    started: Instant,
}

impl OperationClock {
    /// Starts the clock.
    pub fn start() -> (r: Self)
    {
        OperationClock { started: read_clock() }
    }

    /// Reads the microseconds since the start; any reading is possible.
    pub fn now_micros(&self) -> (r: u64)
    {
        micros_since(&self.started)
    }
}

/// Timer of one named phase.
pub struct PhaseTimer {
    phase_name: &'static str,
    clock: OperationClock,
}

impl PhaseTimer {
    /// The phase that is timed.
    pub closed spec fn phase(self) -> Seq<char> {
        self.phase_name@
    }

    /// Starts timing a phase.
    pub fn start(phase_name: &'static str) -> (r: Self)
        ensures
            r.phase() == phase_name@,
    {
        PhaseTimer { phase_name, clock: OperationClock::start() }
    }

    /// Ends the phase with success, whatever time it took.
    pub fn completed(self) -> (r: PhaseTimingReport)
        ensures
            r@.phase_name == self.phase(),
            r@.status == PhaseStatus::Completed,
            r@.elapsed_micros is Some,
    {
        PhaseTimingReport::completed(self.phase_name, self.clock.now_micros())
    }
}

} // verus!
