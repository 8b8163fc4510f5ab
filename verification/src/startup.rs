//! Waiting for the model server when the program starts.
//!
//! The server is probed up to ten times, one second apart. The first healthy
//! answer ends the wait; after the tenth unhealthy one the program goes on
//! without the server.

use vstd::prelude::*;

verus! {

/// How often the model server is probed at most.
pub const MAX_PROBES: u32 = 10;

/// Seconds between two probes.
pub const PROBE_PAUSE_SECS: u64 = 1;

/// What to do after one probe of the model server.
#[derive(Debug, Clone, Copy, PartialEq, Eq, Structural)]
pub enum ProbeStep {
    /// The server answered: the wait is over.
    Ready,
    /// Pause, then probe again.
    Retry,
    /// The server did not answer in time: warn and go on without it.
    GiveUp,
}

/// The step that follows probe number `attempt`, counted from one, given
/// whether the server answered.
pub open spec fn probe_step(attempt: u32, healthy: bool) -> ProbeStep {
    if healthy {
        ProbeStep::Ready
    } else if attempt < MAX_PROBES {
        ProbeStep::Retry
    } else {
        ProbeStep::GiveUp
    }
}

/// Decides what follows probe number `attempt`.
pub fn after_probe(attempt: u32, healthy: bool) -> (step: ProbeStep)
    ensures
        step == probe_step(attempt, healthy),
{
    if healthy {
        ProbeStep::Ready
    } else if attempt < MAX_PROBES {
        ProbeStep::Retry
    } else {
        ProbeStep::GiveUp
    }
}

/// The wait ends: a probe is repeated only while fewer than ten were made,
/// and the tenth is always the last.
pub proof fn lemma_wait_is_bounded(attempt: u32, healthy: bool)
    ensures
        probe_step(attempt, healthy) is Retry ==> attempt < MAX_PROBES && !healthy,
        attempt >= MAX_PROBES ==> !(probe_step(attempt, healthy) is Retry),
        healthy ==> probe_step(attempt, healthy) is Ready,
{
}

} // verus!
