use vstd::prelude::*;

use crate::debounce::elapsed;

verus! {

/// How long a child may take to exit after the graceful signal, in
/// milliseconds, before it is killed.
pub const GRACE_MS: u64 = 2000;

/// The pause between two checks during the grace window, in milliseconds.
pub const GRACE_POLL_MS: u64 = 200;

/// The pause between two checks while waiting for a child, in milliseconds.
pub const WAIT_POLL_MS: u64 = 10;

/// The slot that holds the running child of one generation, if any. Once
/// the generation is torn down the slot is shut and takes no new child.
#[derive(Debug)]
pub struct ChildSlot<C> {
    child: Option<C>,
    shut: bool,
}

impl<C> ChildSlot<C> {
    /// What the slot holds.
    pub closed spec fn held(&self) -> Option<C> {
        self.child
    }

    /// Whether the slot was shut.
    pub closed spec fn is_shut_spec(&self) -> bool {
        self.shut
    }

    /// An empty, open slot.
    pub fn new() -> (r: ChildSlot<C>)
        ensures
            r.held() is None,
            !r.is_shut_spec(),
    {
        ChildSlot { child: None, shut: false }
    }

    /// Puts `child` in an open slot, in place of what it held; a shut slot
    /// refuses it and hands it back.
    pub fn replace(&mut self, child: C) -> (r: Option<C>)
        ensures
            old(self).is_shut_spec() ==> r == Some(child) && *final(self) == *old(self),
            !old(self).is_shut_spec() ==> r is None && final(self).held() == Some(child)
                && !final(self).is_shut_spec(),
    {
        if self.shut {
            Some(child)
        } else {
            self.child = Some(child);
            None
        }
    }

    /// Whether the slot holds a child.
    pub fn is_occupied(&self) -> (r: bool)
        ensures
            r == self.held() is Some,
    {
        self.child.is_some()
    }

    /// Whether the slot was shut.
    pub fn is_shut(&self) -> (r: bool)
        ensures
            r == self.is_shut_spec(),
    {
        self.shut
    }

    /// The child in the slot, to act on it in place.
    pub fn child_mut(&mut self) -> (r: Option<&mut C>)
        ensures
            r is Some <==> old(self).held() is Some,
            r is Some ==> *r->0 == old(self).held()->0 && final(self).held() == Some(*final(r->0)),
            r is None ==> final(self).held() is None,
            final(self).is_shut_spec() == old(self).is_shut_spec(),
    {
        self.child.as_mut()
    }

    /// Empties the slot, handing out what it held; the slot stays open.
    pub fn take(&mut self) -> (r: Option<C>)
        ensures
            r == old(self).held(),
            final(self).held() is None,
            final(self).is_shut_spec() == old(self).is_shut_spec(),
    {
        self.child.take()
    }

    /// Empties and shuts the slot, handing out what it held.
    pub fn shut(&mut self) -> (r: Option<C>)
        ensures
            r == old(self).held(),
            final(self).held() is None,
            final(self).is_shut_spec(),
    {
        self.shut = true;
        self.child.take()
    }
}

/// What a non-blocking check on a child reports. A failed check reads as
/// `Running`: a child is never taken to have exited on an error.
#[derive(Clone, Copy, Debug, PartialEq, Eq)]
pub enum ChildState {
    /// The child has exited and been reaped.
    Exited,
    /// The child is still running, or the check failed.
    Running,
}

/// Where a termination stands.
#[derive(Clone, Copy, Debug, PartialEq, Eq)]
pub enum TerminatePhase {
    /// Waiting for the child to exit on its own since `since`.
    Grace { since: u64 },
    /// The last check before the child is killed.
    Final,
    /// The child is being killed and reaped.
    Killing,
    /// Nothing is left to do.
    Finished,
}

/// What the holder of the slot is to do next.
#[derive(Clone, Copy, Debug, PartialEq, Eq)]
pub enum TerminateAction {
    /// Send the child the graceful termination signal.
    SendSignal,
    /// Pause for `sleep_ms` milliseconds, then check on the child.
    Probe { sleep_ms: u64 },
    /// Kill the child and wait for it to be reaped.
    ForceKill,
    /// Empty the slot: the termination is over.
    Done,
}

/// What happened since the last action.
#[derive(Clone, Copy, Debug, PartialEq, Eq)]
pub enum TerminateEvent {
    /// The graceful signal was sent.
    Signalled,
    /// The child was checked on.
    Probed(ChildState),
    /// The child was killed and reaped.
    Killed,
}

/// The first phase and action of a termination.
pub open spec fn start_spec(has_child: bool, graceful: bool, now: u64) -> (TerminatePhase, TerminateAction) {
    if !has_child {
        (TerminatePhase::Finished, TerminateAction::Done)
    } else if graceful {
        (TerminatePhase::Grace { since: now }, TerminateAction::SendSignal)
    } else {
        (TerminatePhase::Final, TerminateAction::Probe { sleep_ms: 0 })
    }
}

/// During the grace window: check again after a pause while the window
/// lasts, then make the last check.
pub open spec fn grace_spec(since: u64, now: u64) -> (TerminatePhase, TerminateAction) {
    if elapsed(now, since) < GRACE_MS {
        (TerminatePhase::Grace { since }, TerminateAction::Probe { sleep_ms: GRACE_POLL_MS })
    } else {
        (TerminatePhase::Final, TerminateAction::Probe { sleep_ms: 0 })
    }
}

/// The next phase and action after `event` at `now`.
pub open spec fn step_spec(phase: TerminatePhase, event: TerminateEvent, now: u64) -> (TerminatePhase, TerminateAction) {
    match phase {
        TerminatePhase::Grace { since } => match event {
            TerminateEvent::Probed(ChildState::Exited) => (TerminatePhase::Finished, TerminateAction::Done),
            _ => grace_spec(since, now),
        },
        TerminatePhase::Final => match event {
            TerminateEvent::Probed(ChildState::Running) => (TerminatePhase::Killing, TerminateAction::ForceKill),
            TerminateEvent::Signalled => (TerminatePhase::Final, TerminateAction::Probe { sleep_ms: 0 }),
            _ => (TerminatePhase::Finished, TerminateAction::Done),
        },
        _ => (TerminatePhase::Finished, TerminateAction::Done),
    }
}

/// Brings the child of a slot down: a graceful signal where the platform
/// has one, checks at a fixed pace for a bounded window, then a forced kill.
#[derive(Clone, Copy, Debug, PartialEq, Eq)]
pub struct Termination {
    /// Where the termination stands.
    pub phase: TerminatePhase,
}

impl Termination {
    /// Begins a termination at `now`; `has_child` tells whether the slot
    /// holds a child and `graceful` whether a graceful signal can be sent.
    pub fn start(has_child: bool, graceful: bool, now: u64) -> (r: (Termination, TerminateAction))
        ensures
            (r.0.phase, r.1) == start_spec(has_child, graceful, now),
    {
        if !has_child {
            (Termination { phase: TerminatePhase::Finished }, TerminateAction::Done)
        } else if graceful {
            (Termination { phase: TerminatePhase::Grace { since: now } }, TerminateAction::SendSignal)
        } else {
            (Termination { phase: TerminatePhase::Final }, TerminateAction::Probe { sleep_ms: 0 })
        }
    }

    /// Takes in what happened at `now` and says what to do next.
    pub fn step(&mut self, event: TerminateEvent, now: u64) -> (r: TerminateAction)
        ensures
            (final(self).phase, r) == step_spec(old(self).phase, event, now),
    {
        match self.phase {
            TerminatePhase::Grace { since } => match event {
                TerminateEvent::Probed(ChildState::Exited) => {
                    self.phase = TerminatePhase::Finished;
                    TerminateAction::Done
                },
                _ => {
                    let passed: u64 = if now >= since {
                        now - since
                    } else {
                        0
                    };
                    if passed < GRACE_MS {
                        TerminateAction::Probe { sleep_ms: GRACE_POLL_MS }
                    } else {
                        self.phase = TerminatePhase::Final;
                        TerminateAction::Probe { sleep_ms: 0 }
                    }
                },
            },
            TerminatePhase::Final => match event {
                TerminateEvent::Probed(ChildState::Running) => {
                    self.phase = TerminatePhase::Killing;
                    TerminateAction::ForceKill
                },
                TerminateEvent::Signalled => TerminateAction::Probe { sleep_ms: 0 },
                _ => {
                    self.phase = TerminatePhase::Finished;
                    TerminateAction::Done
                },
            },
            _ => {
                self.phase = TerminatePhase::Finished;
                TerminateAction::Done
            },
        }
    }
}

/// The number of forced kills asked for while `events` are taken in from
/// `phase` on; each event comes with the time it happened.
pub open spec fn kills_from(phase: TerminatePhase, events: Seq<(TerminateEvent, u64)>) -> nat
    decreases events.len(),
{
    if events.len() == 0 {
        0
    } else {
        let (next, action) = step_spec(phase, events[0].0, events[0].1);
        (if action == TerminateAction::ForceKill {
            1nat
        } else {
            0nat
        }) + kills_from(next, events.skip(1))
    }
}

proof fn lemma_no_kill_after_kill(phase: TerminatePhase, events: Seq<(TerminateEvent, u64)>)
    requires
        phase == TerminatePhase::Killing || phase == TerminatePhase::Finished,
    ensures
        kills_from(phase, events) == 0,
    decreases events.len(),
{
    if events.len() > 0 {
        lemma_no_kill_after_kill(TerminatePhase::Finished, events.skip(1));
    }
}

/// A termination asks for a forced kill at most once, whatever happens.
pub proof fn lemma_kills_at_most_once(phase: TerminatePhase, events: Seq<(TerminateEvent, u64)>)
    ensures
        kills_from(phase, events) <= 1,
    decreases events.len(),
{
    if events.len() > 0 {
        let (next, action) = step_spec(phase, events[0].0, events[0].1);
        if action == TerminateAction::ForceKill {
            lemma_no_kill_after_kill(next, events.skip(1));
        } else {
            lemma_kills_at_most_once(next, events.skip(1));
        }
    }
}

/// A termination begun on an empty slot is over at once and sends nothing;
/// so is one begun after a finished termination emptied the slot.
pub proof fn lemma_terminate_empty_is_noop(graceful: bool, now: u64, events: Seq<(TerminateEvent, u64)>)
    ensures
        start_spec(false, graceful, now) == (TerminatePhase::Finished, TerminateAction::Done),
        kills_from(start_spec(false, graceful, now).0, events) == 0,
{
    lemma_no_kill_after_kill(TerminatePhase::Finished, events);
}

/// What a check on a waited-for child reports.
#[derive(Clone, Copy, Debug, PartialEq, Eq)]
pub enum WaitPoll {
    /// The child exited, successfully or not.
    Exited { success: bool },
    /// The child is still running.
    Running,
    /// The check itself failed.
    Failed,
    /// The slot is empty: the child was terminated.
    Gone,
}

/// What the waiter is to do next.
#[derive(Clone, Copy, Debug, PartialEq, Eq)]
pub enum WaitAction {
    /// Stop waiting; the command succeeded or not.
    Finish { success: bool },
    /// Pause for `sleep_ms` milliseconds, then check again.
    Retry { sleep_ms: u64 },
}

/// Decides what a waiter does after a check on its child. The slot is
/// checked without blocking, so a termination can take it in between.
pub fn wait_step(poll: WaitPoll) -> (r: WaitAction)
    ensures
        r == (match poll {
            WaitPoll::Exited { success } => WaitAction::Finish { success },
            WaitPoll::Gone => WaitAction::Finish { success: false },
            _ => WaitAction::Retry { sleep_ms: WAIT_POLL_MS },
        }),
{
    match poll {
        WaitPoll::Exited { success } => WaitAction::Finish { success },
        WaitPoll::Gone => WaitAction::Finish { success: false },
        WaitPoll::Running | WaitPoll::Failed => WaitAction::Retry { sleep_ms: WAIT_POLL_MS },
    }
}

} // verus!
