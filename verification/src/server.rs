//! Server-side configuration and connection admission: the bound on
//! concurrent sessions, the two read deadlines, and the bookkeeping decisions
//! of the accept loop (prune finished slots, then admit or refuse).
//!
//! The accept loop itself owns the listener and the spawned tasks; every
//! decision it takes is computed here, on plain values.

use crate::session::Deadline;
use vstd::prelude::*;

verus! {

/// A new connection is admitted exactly when the active session count is
/// below the configured maximum.
pub open spec fn spec_admit(active_sessions: int, max_connections: int) -> bool {
    active_sessions < max_connections
}

/// How many slots of a table are still active, given which have finished.
pub open spec fn spec_active_count(finished: Seq<bool>) -> int
    decreases finished.len(),
{
    if finished.len() == 0 {
        0
    } else {
        spec_active_count(finished.drop_last()) + if finished.last() {
            0int
        } else {
            1int
        }
    }
}

/// The configuration the core consumes: the admission bound and the two read
/// deadlines of the anti-slow-client policy.
#[derive(Debug, Clone, Copy, PartialEq)]
pub struct ServerConfig {
    /// How many sessions may run concurrently; further connections are refused.
    pub max_connections: usize,
    /// Seconds allowed while waiting for the first byte of a frame.
    pub idle_timeout_secs: u64,
    /// Seconds allowed for each further read once a frame has begun.
    pub active_timeout_secs: u64,
}

impl ServerConfig {
    /// A configuration with the given admission bound and the default
    /// deadlines: 15 seconds idle, 5 seconds active.
    pub fn new(max_connections: usize) -> (r: ServerConfig)
        ensures
            r == (ServerConfig {
                max_connections,
                idle_timeout_secs: 15u64,
                active_timeout_secs: 5u64,
            }),
    {
        ServerConfig { max_connections, idle_timeout_secs: 15, active_timeout_secs: 5 }
    }

    /// Replaces the idle timeout, leaving everything else unchanged.
    pub fn set_timeout(&mut self, timeout_seconds: u64)
        ensures
            final(self).idle_timeout_secs == timeout_seconds,
            final(self).max_connections == old(self).max_connections,
            final(self).active_timeout_secs == old(self).active_timeout_secs,
    {
        self.idle_timeout_secs = timeout_seconds;
    }

    /// The seconds a read may wait under the given deadline: the long idle
    /// timeout before a frame begins, the short active timeout afterwards.
    pub fn deadline_secs(&self, deadline: Deadline) -> (r: u64)
        ensures
            deadline is Idle ==> r == self.idle_timeout_secs,
            deadline is Active ==> r == self.active_timeout_secs,
    {
        match deadline {
            Deadline::Idle => self.idle_timeout_secs,
            Deadline::Active => self.active_timeout_secs,
        }
    }
}

/// Decides admission for one incoming connection from the pruned active
/// count. Rejection is immediate and final: nothing is queued.
pub fn admit_connection(active_sessions: usize, max_connections: usize) -> (r: bool)
    ensures
        r == spec_admit(active_sessions as int, max_connections as int),
{
    active_sessions < max_connections
}

/// Given which slots' session tasks have already finished, lists the slots to
/// keep: exactly the unfinished ones, in their original order.
pub fn prune_finished(finished: &Vec<bool>) -> (kept: Vec<usize>)
    ensures
        kept@.len() == spec_active_count(finished@),
        forall|j: int|
            0 <= j < kept@.len() ==> (kept@[j] as int) < finished@.len() && !finished@[kept@[j] as int],
        forall|j1: int, j2: int| 0 <= j1 < j2 < kept@.len() ==> kept@[j1] < kept@[j2],
        forall|i: int| 0 <= i < finished@.len() && !finished@[i] ==> kept@.contains(i as usize),
{
    let mut kept: Vec<usize> = Vec::new();
    let mut i: usize = 0;
    while i < finished.len()
        invariant
            i <= finished@.len(),
            kept@.len() == spec_active_count(finished@.take(i as int)),
            forall|j: int|
                0 <= j < kept@.len() ==> (kept@[j] as int) < i && !finished@[kept@[j] as int],
            forall|j1: int, j2: int| 0 <= j1 < j2 < kept@.len() ==> kept@[j1] < kept@[j2],
            forall|k: int| 0 <= k < i && !finished@[k] ==> kept@.contains(k as usize),
        decreases finished@.len() - i,
    {
        proof {
            assert(finished@.take(i as int + 1).drop_last() =~= finished@.take(i as int));
            assert(finished@.take(i as int + 1).last() == finished@[i as int]);
        }
        let ghost kept0 = kept@;
        if !finished[i] {
            kept.push(i);
        }
        proof {
            assert forall|k: int| 0 <= k <= i as int && !finished@[k] implies kept@.contains(
                k as usize,
            ) by {
                if k < i as int {
                    assert(kept0.contains(k as usize));
                    let j = choose|j: int| 0 <= j < kept0.len() && kept0[j] == k as usize;
                    assert(kept@[j] == k as usize);
                } else {
                    assert(kept@[kept@.len() - 1] == i);
                }
            }
        }
        i += 1;
    }
    proof {
        assert(finished@.take(finished@.len() as int) =~= finished@);
    }
    kept
}

/// No slot finished, no capacity: a table of all-unfinished slots counts all
/// of them as active.
pub proof fn lemma_active_count_none_finished(finished: Seq<bool>)
    requires
        forall|i: int| 0 <= i < finished.len() ==> !finished[i],
    ensures
        spec_active_count(finished) == finished.len(),
    decreases finished.len(),
{
    if finished.len() > 0 {
        lemma_active_count_none_finished(finished.drop_last());
    }
}

/// A finished slot is never counted as active: if some slot has finished, the
/// active count is strictly below the table size.
pub proof fn lemma_active_count_some_finished(finished: Seq<bool>, i: int)
    requires
        0 <= i < finished.len(),
        finished[i],
    ensures
        spec_active_count(finished) < finished.len(),
    decreases finished.len(),
{
    lemma_active_count_le_len(finished.drop_last());
    if i < finished.len() - 1 {
        lemma_active_count_some_finished(finished.drop_last(), i);
    }
}

/// The active count never exceeds the table size.
pub proof fn lemma_active_count_le_len(finished: Seq<bool>)
    ensures
        0 <= spec_active_count(finished) <= finished.len(),
    decreases finished.len(),
{
    if finished.len() > 0 {
        lemma_active_count_le_len(finished.drop_last());
    }
}

/// Admission bound: with `max_connections` sessions all still running, the
/// next connection is refused; once any one of them has finished, pruning
/// frees its slot and the next connection is admitted.
pub proof fn lemma_admission(all_running: Seq<bool>, one_done: Seq<bool>, max_connections: usize)
    requires
        all_running.len() == max_connections,
        forall|i: int| 0 <= i < all_running.len() ==> !all_running[i],
        one_done.len() == max_connections,
        exists|i: int| 0 <= i < one_done.len() && one_done[i],
    ensures
        !spec_admit(spec_active_count(all_running), max_connections as int),
        spec_admit(spec_active_count(one_done), max_connections as int),
{
    lemma_active_count_none_finished(all_running);
    let i = choose|i: int| 0 <= i < one_done.len() && one_done[i];
    lemma_active_count_some_finished(one_done, i);
}

} // verus!
