//! Decisions on a termination request.
//!
//! A request is settled against a fresh list of live pids: a pid that is not
//! listed is refused at once, a listed one is signalled, and the request then
//! succeeds exactly when the signal was accepted. "Not found" and "signal
//! rejected" both end as `false`.

use vstd::prelude::*;

verus! {

/// What to do with a termination request.
#[derive(Clone, Copy, Debug, PartialEq, Eq, Structural)]
pub enum KillStep {
    /// Send the termination signal to this pid.
    Signal(u32),
    /// The pid is not live: answer `false` without signalling.
    NotFound,
}

/// The step taken for a request on `id` when `live` are the live pids.
pub open spec fn kill_plan(live: Seq<u32>, id: u32) -> KillStep {
    if live.contains(id) {
        KillStep::Signal(id)
    } else {
        KillStep::NotFound
    }
}

/// The answer to a request that took `step`, the signal (if one was sent)
/// having been accepted or not.
pub open spec fn kill_result(step: KillStep, accepted: bool) -> bool {
    step is Signal && accepted
}

/// Decides what to do with a request to terminate `id`, given the pids that a
/// fresh query of the process table reported.
pub fn plan_kill(live: &Vec<u32>, id: u32) -> (r: KillStep)
    ensures
        r == kill_plan(live@, id),
{
    let mut i: usize = 0;
    while i < live.len()
        invariant
            i <= live@.len(),
            forall|k: int| 0 <= k < i ==> live@[k] != id,
        decreases live@.len() - i,
    {
        if live[i] == id {
            assert(live@.contains(id));
            return KillStep::Signal(id);
        }
        i = i + 1;
    }
    KillStep::NotFound
}

/// The answer to a request that took `step`; `accepted` tells whether the
/// signal was accepted, and is not read when no signal was sent.
pub fn kill_outcome(step: KillStep, accepted: bool) -> (r: bool)
    ensures
        r == kill_result(step, accepted),
{
    match step {
        KillStep::Signal(_) => accepted,
        KillStep::NotFound => false,
    }
}

/// A pid that the fresh query does not report is never answered `true`,
/// whatever happens to signals.
pub proof fn lemma_absent_pid_not_killed(live: Seq<u32>, id: u32, accepted: bool)
    requires
        !live.contains(id),
    ensures
        kill_plan(live, id) == KillStep::NotFound,
        !kill_result(kill_plan(live, id), accepted),
{
}

} // verus!
