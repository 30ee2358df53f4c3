//! Reload pipeline: coalescing file-change signals into single reloads.
//!
//! The watcher thread hands each change notification to the main loop, which
//! records it here with `signal`.  On each polling tick the loop calls
//! `poll`, which drains everything recorded so far and reports whether at
//! least one signal arrived: many rapid notifications collapse into one
//! reload, and a quiet period reloads nothing.
use vstd::prelude::*;

verus! {

/// Buffered change signals awaiting the next polling tick.
#[derive(Clone, Copy, PartialEq, Eq, Debug, Structural)]
pub struct ReloadPipeline {
    /// Signals recorded since the last poll (saturating).
    pub pending: u64,
}

/// One recorded signal: the count grows by one, saturating.
pub open spec fn spec_signal(n: u64) -> u64 {
    if n < u64::MAX {
        (n + 1) as u64
    } else {
        n
    }
}

/// The pending count after `k` signals.
pub open spec fn spec_signals(n: u64, k: nat) -> u64
    decreases k,
{
    if k == 0 {
        n
    } else {
        spec_signal(spec_signals(n, (k - 1) as nat))
    }
}

impl ReloadPipeline {
    /// A pipeline with nothing recorded.
    pub fn new() -> (p: ReloadPipeline)
        ensures
            p.pending == 0,
    {
        ReloadPipeline { pending: 0 }
    }

    /// Record one change signal from the watcher.
    pub fn signal(&mut self)
        ensures
            final(self).pending == spec_signal(old(self).pending),
    {
        if self.pending < u64::MAX {
            self.pending = self.pending + 1;
        }
    }

    /// One polling tick: drain all recorded signals and report whether a
    /// reload is due — `true` exactly when at least one signal arrived since
    /// the previous poll.
    pub fn poll(&mut self) -> (reload: bool)
        ensures
            final(self).pending == 0,
            reload == (old(self).pending > 0),
    {
        let due = self.pending > 0;
        self.pending = 0;
        due
    }
}

/// Coalescing: any positive number of signals recorded between two polls
/// makes the next poll report exactly one reload, and the poll after it —
/// with no further signal — reports none.
pub proof fn lemma_signals_coalesce(k: nat)
    requires
        k >= 1,
    ensures
        spec_signals(0, k) > 0,
    decreases k,
{
    if k > 1 {
        lemma_signals_coalesce((k - 1) as nat);
    }
}

} // verus!
