use vstd::prelude::*;

verus! {

/// Time passed from `since` to `now`, in milliseconds; zero when `now` is
/// not later than `since`.
pub open spec fn elapsed(now: u64, since: u64) -> nat {
    if now >= since {
        (now - since) as nat
    } else {
        0
    }
}

/// Keeps restarts at least a quiet window apart.
#[derive(Clone, Copy, Debug, PartialEq, Eq)]
pub struct Debouncer {
    /// The least time between two accepted restarts, in milliseconds.
    pub window: u64,
    /// When the last restart was accepted, in milliseconds.
    pub last_accepted: u64,
}

/// Whether a restart at `now` is accepted by `d`.
pub open spec fn accepts(d: Debouncer, now: u64) -> bool {
    elapsed(now, d.last_accepted) >= d.window
}

/// The debouncer after it is asked about a restart at `now`.
pub open spec fn after_accept(d: Debouncer, now: u64) -> Debouncer {
    if accepts(d, now) {
        Debouncer { last_accepted: now, ..d }
    } else {
        d
    }
}

impl Debouncer {
    /// A debouncer whose window starts at `start`.
    pub fn new(window: u64, start: u64) -> (r: Debouncer)
        ensures
            r.window == window,
            r.last_accepted == start,
    {
        Debouncer { window, last_accepted: start }
    }

    /// Accepts a restart at `now` when at least the window has passed since
    /// the last accepted one, and then remembers `now`; otherwise changes
    /// nothing.
    pub fn accept(&mut self, now: u64) -> (r: bool)
        ensures
            r == accepts(*old(self), now),
            *final(self) == after_accept(*old(self), now),
    {
        let passed: u64 = if now >= self.last_accepted {
            now - self.last_accepted
        } else {
            0
        };
        if passed >= self.window {
            self.last_accepted = now;
            true
        } else {
            false
        }
    }
}

/// Once a restart at `t0` is accepted, a second one `dt` later is accepted
/// exactly when `dt` is at least the window.
pub proof fn lemma_accept_twice(d: Debouncer, t0: u64, dt: u64)
    requires
        accepts(d, t0),
        t0 + dt <= u64::MAX,
    ensures
        after_accept(d, t0).last_accepted == t0,
        accepts(after_accept(d, t0), (t0 + dt) as u64) == (dt >= d.window),
{
}

/// A refused restart leaves the debouncer as it was.
pub proof fn lemma_refusal_keeps_state(d: Debouncer, now: u64)
    requires
        !accepts(d, now),
    ensures
        after_accept(d, now) == d,
{
}

} // verus!
