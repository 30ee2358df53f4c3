//! Caret blink state machine and its timer bookkeeping.
//!
//! The controller owns at most one outstanding timer at any instant.  Every
//! transition that installs a timer cancels the previous one first; the
//! [`TimerQueue`] records the outstanding handles explicitly, so the
//! cancel-before-schedule discipline is a proved invariant rather than a
//! convention.  The host performs the real scheduling: after each call it
//! mirrors the queue's entries onto its timer facility, and it reads
//! [`CaretBlinkController::caret_visible`] to drive the display.
use vstd::prelude::*;

verus! {

/// One outstanding timer: an opaque handle and the instant it is due.
#[derive(Clone, Copy, PartialEq, Eq, Debug, Structural)]
pub struct TimerEntry {
    /// Handle identifying the timer towards the host.
    pub id: u64,
    /// Absolute due instant, in milliseconds.
    pub due_ms: u64,
}

/// The set of timers currently scheduled on the controller's behalf,
/// with a counter issuing fresh handles.
#[derive(Debug)]
pub struct TimerQueue {
    /// Outstanding timers, in scheduling order.
    pub entries: Vec<TimerEntry>,
    /// Next unused handle; all outstanding handles are below it.
    pub next_id: u64,
}

/// Queue invariant: handles are unique and below the issue counter.
pub open spec fn queue_wf(q: TimerQueue) -> bool {
    &&& forall|i: int, j: int|
        0 <= i < j < q.entries@.len() ==> q.entries@[i].id != q.entries@[j].id
    &&& forall|i: int| 0 <= i < q.entries@.len() ==> #[trigger] q.entries@[i].id < q.next_id
}

impl TimerQueue {
    /// An empty queue.
    pub fn new() -> (q: TimerQueue)
        ensures
            queue_wf(q),
            q.entries@.len() == 0,
            q.next_id == 0,
    {
        TimerQueue { entries: Vec::new(), next_id: 0 }
    }

    /// Schedule a timer due at `due_ms`; returns the fresh handle.
    pub fn schedule(&mut self, due_ms: u64) -> (id: u64)
        requires
            queue_wf(*old(self)),
            old(self).next_id < u64::MAX,
        ensures
            queue_wf(*final(self)),
            id == old(self).next_id,
            final(self).next_id == old(self).next_id + 1,
            final(self).entries@ == old(self).entries@.push(TimerEntry { id, due_ms }),
    {
        let id = self.next_id;
        self.entries.push(TimerEntry { id, due_ms });
        self.next_id = id + 1;
        id
    }

    /// Cancel the timer with the given handle; unknown handles are ignored.
    pub fn cancel(&mut self, id: u64)
        requires
            queue_wf(*old(self)),
        ensures
            queue_wf(*final(self)),
            final(self).next_id == old(self).next_id,
            forall|k: int|
                0 <= k < final(self).entries@.len() ==> #[trigger] final(self).entries@[k].id
                    != id,
            forall|k: int|
                0 <= k < final(self).entries@.len() ==> old(self).entries@.contains(
                    #[trigger] final(self).entries@[k],
                ),
            forall|k: int|
                0 <= k < old(self).entries@.len() && old(self).entries@[k].id != id
                    ==> final(self).entries@.contains(#[trigger] old(self).entries@[k]),
            final(self).entries@.len() == (if exists|j: int|
                0 <= j < old(self).entries@.len() && #[trigger] old(self).entries@[j].id == id {
                old(self).entries@.len() - 1
            } else {
                old(self).entries@.len() as int
            }),
    {
        let ghost orig = self.entries@;
        let mut i: usize = 0;
        while i < self.entries.len()
            invariant
                queue_wf(*self),
                self.entries@ == orig,
                orig == old(self).entries@,
                self.next_id == old(self).next_id,
                i <= orig.len(),
                forall|k: int| 0 <= k < i ==> #[trigger] orig[k].id != id,
            decreases self.entries.len() - i,
        {
            if self.entries[i].id == id {
                self.entries.remove(i);
                proof {
                    assert forall|k: int| 0 <= k < self.entries@.len() implies #[trigger] self
                        .entries@[k].id != id by {
                        if k < i {
                            assert(self.entries@[k] == orig[k]);
                        } else {
                            assert(self.entries@[k] == orig[k + 1]);
                            assert(orig[i as int].id == id);
                            assert(orig[k + 1].id != orig[i as int].id);
                        }
                    }
                    assert forall|k: int| 0 <= k < self.entries@.len() implies orig.contains(
                        #[trigger] self.entries@[k],
                    ) by {
                        if k < i {
                            assert(self.entries@[k] == orig[k]);
                            assert(orig.contains(orig[k]));
                        } else {
                            assert(self.entries@[k] == orig[k + 1]);
                            assert(orig.contains(orig[k + 1]));
                        }
                    }
                    assert forall|k: int|
                        0 <= k < orig.len() && orig[k].id != id implies self.entries@.contains(
                        #[trigger] orig[k],
                    ) by {
                        if k < i {
                            assert(self.entries@[k] == orig[k]);
                            assert(self.entries@.contains(self.entries@[k]));
                        } else {
                            assert(k != i);
                            assert(self.entries@[k - 1] == orig[k]);
                            assert(self.entries@.contains(self.entries@[k - 1]));
                        }
                    }
                }
                return ;
            }
            i += 1;
        }
        proof {
            assert forall|j: int| 0 <= j < orig.len() implies #[trigger] orig[j].id != id by {}
            assert forall|k: int| 0 <= k < self.entries@.len() implies orig.contains(
                #[trigger] self.entries@[k],
            ) by {
                assert(self.entries@[k] == orig[k]);
            }
            assert forall|k: int| 0 <= k < orig.len() && orig[k].id != id implies self
                .entries@.contains(#[trigger] orig[k]) by {
                assert(self.entries@[k] == orig[k]);
            }
        }
    }

    /// The outstanding entries, for the host to mirror and for tests.
    pub fn live(&self) -> (v: Vec<TimerEntry>)
        ensures
            v@ == self.entries@,
    {
        let mut v: Vec<TimerEntry> = Vec::new();
        let mut i: usize = 0;
        while i < self.entries.len()
            invariant
                i <= self.entries@.len(),
                v@ == self.entries@.subrange(0, i as int),
            decreases self.entries@.len() - i,
        {
            v.push(self.entries[i]);
            i += 1;
        }
        proof {
            assert(v@ =~= self.entries@);
        }
        v
    }
}

/// Blink state: actively toggling, or paused after user activity.
#[derive(Clone, Copy, PartialEq, Eq, Debug, Structural)]
pub enum BlinkState {
    /// Blinking; `visible` is the caret's current phase.
    Active { visible: bool },
    /// Paused by a keystroke; the caret is held visible until the resume
    /// timer fires.
    Paused,
}

/// The caret blink controller.
#[derive(Clone, Copy, PartialEq, Eq, Debug, Structural)]
pub struct CaretBlinkController {
    /// Whether flashing is enabled in the settings.
    pub flashing: bool,
    /// Blink interval in milliseconds.
    pub interval_ms: u64,
    /// Current blink state.
    pub state: BlinkState,
    /// The outstanding timer's handle, if one is scheduled.
    pub handle: Option<u64>,
}

/// The caret phase the display must show for this state.
pub open spec fn spec_caret_visible(c: CaretBlinkController) -> bool {
    match c.state {
        BlinkState::Active { visible } => visible,
        BlinkState::Paused => true,
    }
}

/// `a + b`, saturating at the top of `u64`.
pub open spec fn spec_sat_add(a: u64, b: u64) -> u64 {
    if a + b <= u64::MAX {
        (a + b) as u64
    } else {
        u64::MAX
    }
}

/// Saturating addition of two instants.
pub fn sat_add(a: u64, b: u64) -> (r: u64)
    ensures
        r == spec_sat_add(a, b),
{
    if a <= u64::MAX - b {
        a + b
    } else {
        u64::MAX
    }
}

/// Joint invariant of the controller and its queue: the queue holds exactly
/// the controller's handle — one entry when flashing, none when disabled —
/// and a disabled or paused caret is visible.
pub open spec fn caret_wf(c: CaretBlinkController, q: TimerQueue) -> bool {
    &&& queue_wf(q)
    &&& match c.handle {
        Some(id) => q.entries@.len() == 1 && q.entries@[0].id == id,
        None => q.entries@.len() == 0,
    }
    &&& c.flashing == (c.handle is Some)
    &&& !c.flashing ==> c.state == (BlinkState::Active { visible: true })
}

impl CaretBlinkController {
    /// A controller with flashing disabled and nothing scheduled; `apply`
    /// configures it from the settings.
    pub fn new() -> (c: CaretBlinkController)
        ensures
            c.flashing == false,
            c.interval_ms == 0,
            c.state == (BlinkState::Active { visible: true }),
            c.handle is None,
    {
        CaretBlinkController {
            flashing: false,
            interval_ms: 0,
            state: BlinkState::Active { visible: true },
            handle: None,
        }
    }

    /// The caret phase the display must show.
    pub fn caret_visible(&self) -> (r: bool)
        ensures
            r == spec_caret_visible(*self),
    {
        match self.state {
            BlinkState::Active { visible } => visible,
            BlinkState::Paused => true,
        }
    }

    /// Re-arm from the settings: cancel any outstanding timer, force the
    /// caret visible, and — exactly when flashing is enabled — schedule one
    /// tick at the new interval.  This single transition covers initial
    /// start-up, the "disable" transition, and a live interval change.
    pub fn configure(&mut self, flashing: bool, interval_ms: u64, now_ms: u64, q: &mut TimerQueue)
        requires
            caret_wf(*old(self), *old(q)),
            old(q).next_id < u64::MAX,
        ensures
            caret_wf(*final(self), *final(q)),
            final(self).flashing == flashing,
            final(self).interval_ms == interval_ms,
            final(self).state == (BlinkState::Active { visible: true }),
            spec_caret_visible(*final(self)),
            old(q).next_id <= final(q).next_id <= old(q).next_id + 1,
            flashing ==> final(q).entries@.len() == 1 && final(q).entries@[0].due_ms == spec_sat_add(now_ms, interval_ms) && final(self).handle == Some(final(q).entries@[0].id),
            !flashing ==> final(q).entries@.len() == 0 && final(self).handle is None,
    {
        if let Some(id) = self.handle {
            q.cancel(id);
            self.handle = None;
        }
        self.flashing = flashing;
        self.interval_ms = interval_ms;
        self.state = BlinkState::Active { visible: true };
        if flashing {
            let id = q.schedule(sat_add(now_ms, interval_ms));
            self.handle = Some(id);
        }
    }

    /// A keystroke or pointer activity: force the caret visible and, when
    /// flashing, cancel the pending tick, pause, and schedule the one-shot
    /// resume timer one interval from `now_ms`.  Nothing is due before
    /// `now_ms + interval_ms` afterwards, so no toggle can occur until then.
    pub fn activity(&mut self, now_ms: u64, q: &mut TimerQueue)
        requires
            caret_wf(*old(self), *old(q)),
            old(q).next_id < u64::MAX,
        ensures
            caret_wf(*final(self), *final(q)),
            spec_caret_visible(*final(self)),
            final(self).flashing == old(self).flashing,
            final(self).interval_ms == old(self).interval_ms,
            old(q).next_id <= final(q).next_id <= old(q).next_id + 1,
            old(self).flashing ==> {
                &&& final(self).state is Paused
                &&& final(q).entries@.len() == 1
                &&& final(q).entries@[0].due_ms == spec_sat_add(now_ms, old(self).interval_ms)
                &&& final(self).handle == Some(final(q).entries@[0].id)
            },
            !old(self).flashing ==> *final(self) == *old(self) && final(q).entries@
                == old(q).entries@,
    {
        if !self.flashing {
            return ;
        }
        if let Some(id) = self.handle {
            q.cancel(id);
            self.handle = None;
        }
        self.state = BlinkState::Paused;
        let id = q.schedule(sat_add(now_ms, self.interval_ms));
        self.handle = Some(id);
    }

    /// The host reports that the timer with handle `id` fired (and is no
    /// longer outstanding on the host's side).  In `Active` the caret phase
    /// flips; in `Paused` blinking resumes with the caret visible.  Either
    /// way the next tick is scheduled one interval from `now_ms`, replacing
    /// the fired handle.  A handle the controller does not own is ignored.
    pub fn on_timer(&mut self, id: u64, now_ms: u64, q: &mut TimerQueue)
        requires
            caret_wf(*old(self), *old(q)),
            old(q).next_id < u64::MAX,
        ensures
            caret_wf(*final(self), *final(q)),
            final(self).flashing == old(self).flashing,
            final(self).interval_ms == old(self).interval_ms,
            old(q).next_id <= final(q).next_id <= old(q).next_id + 1,
            old(self).handle != Some(id) ==> *final(self) == *old(self) && final(q).entries@
                == old(q).entries@,
            old(self).handle == Some(id) ==> {
                &&& final(q).entries@.len() == 1
                &&& final(q).entries@[0].due_ms == spec_sat_add(now_ms, old(self).interval_ms)
                &&& final(self).handle == Some(final(q).entries@[0].id)
                &&& final(self).state == (match old(self).state {
                    BlinkState::Active { visible } => BlinkState::Active { visible: !visible },
                    BlinkState::Paused => BlinkState::Active { visible: true },
                })
            },
    {
        let owned = match self.handle {
            Some(h) => h == id,
            None => false,
        };
        if !owned {
            return ;
        }
        q.cancel(id);
        self.handle = None;
        self.state = match self.state {
            BlinkState::Active { visible } => BlinkState::Active { visible: !visible },
            BlinkState::Paused => BlinkState::Active { visible: true },
        };
        let fresh = q.schedule(sat_add(now_ms, self.interval_ms));
        self.handle = Some(fresh);
    }
}

/// At every point in the controller's lifetime the number of outstanding
/// timer handles is 0 or 1: each transition above requires and re-establishes
/// `caret_wf`, and under `caret_wf` the queue never holds more than one
/// entry.
pub proof fn lemma_at_most_one_timer(c: CaretBlinkController, q: TimerQueue)
    requires
        caret_wf(c, q),
    ensures
        q.entries@.len() <= 1,
{
}


} // verus!
