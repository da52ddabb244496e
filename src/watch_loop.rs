use vstd::prelude::*;

verus! {

/// Where a watch session stands.
#[derive(Clone, Copy, Debug, PartialEq, Eq)]
pub enum LoopPhase {
    /// Nothing started yet.
    Idle,
    /// The current generation runs, or stalled after a failed start.
    Running,
    /// The current generation is being torn down before the next starts.
    Restarting,
    /// The event source closed; the current generation is being torn down.
    Closing,
    /// The session ended normally.
    Terminated,
    /// The first generation could not start; the session failed.
    Failed,
}

/// What the session is told.
#[derive(Clone, Copy, Debug, PartialEq, Eq)]
pub enum LoopEvent {
    /// The session begins.
    Start,
    /// A change passed the filter and the quiet window.
    ChangeAccepted,
    /// The termination asked for is complete.
    TeardownDone,
    /// A command of generation `generation` could not be started.
    SpawnFailed { generation: u64 },
    /// The event source closed.
    SourceClosed,
}

/// What the host is to do.
#[derive(Clone, Copy, Debug, PartialEq, Eq)]
pub enum LoopAction {
    /// Start generation `generation` of the pipeline.
    Spawn { generation: u64 },
    /// Terminate generation `generation`, then report `TeardownDone`.
    Terminate { generation: u64 },
    /// Report a failed start and keep watching.
    Report,
    /// End the session normally.
    Stop,
    /// End the session with an error: the first start failed.
    Fail,
    /// Nothing to do.
    Nothing,
}

/// The decisions of a watch session: at most one generation of the pipeline
/// at a time, each started only after the one before is torn down.
#[derive(Clone, Copy, Debug, PartialEq, Eq)]
pub struct WatchLoop {
    /// Where the session stands.
    pub phase: LoopPhase,
    /// The number of the current generation.
    pub generation: u64,
}

/// A session that has not started.
pub open spec fn initial_loop() -> WatchLoop {
    WatchLoop { phase: LoopPhase::Idle, generation: 0 }
}

/// The next state and action of `s` on `e`.
pub open spec fn loop_step(s: WatchLoop, e: LoopEvent) -> (WatchLoop, LoopAction) {
    let g = s.generation;
    match (s.phase, e) {
        (LoopPhase::Idle, LoopEvent::Start) => (
            WatchLoop { phase: LoopPhase::Running, generation: 0 },
            LoopAction::Spawn { generation: 0 },
        ),
        (LoopPhase::Running, LoopEvent::ChangeAccepted) => (
            WatchLoop { phase: LoopPhase::Restarting, ..s },
            LoopAction::Terminate { generation: g },
        ),
        (LoopPhase::Running, LoopEvent::SourceClosed) => (
            WatchLoop { phase: LoopPhase::Closing, ..s },
            LoopAction::Terminate { generation: g },
        ),
        (LoopPhase::Running, LoopEvent::SpawnFailed { generation }) => if generation == 0 && g == 0 {
            (WatchLoop { phase: LoopPhase::Failed, ..s }, LoopAction::Fail)
        } else {
            (s, LoopAction::Report)
        },
        (LoopPhase::Restarting, LoopEvent::TeardownDone) => if g < u64::MAX {
            (
                WatchLoop { phase: LoopPhase::Running, generation: (g + 1) as u64 },
                LoopAction::Spawn { generation: (g + 1) as u64 },
            )
        } else {
            (WatchLoop { phase: LoopPhase::Terminated, ..s }, LoopAction::Stop)
        },
        (LoopPhase::Restarting, LoopEvent::SourceClosed) => (
            WatchLoop { phase: LoopPhase::Closing, ..s },
            LoopAction::Nothing,
        ),
        (LoopPhase::Restarting, LoopEvent::SpawnFailed { .. }) => (s, LoopAction::Report),
        (LoopPhase::Closing, LoopEvent::TeardownDone) => (
            WatchLoop { phase: LoopPhase::Terminated, ..s },
            LoopAction::Stop,
        ),
        _ => (s, LoopAction::Nothing),
    }
}

impl WatchLoop {
    /// A session that has not started.
    pub fn new() -> (r: WatchLoop)
        ensures
            r == initial_loop(),
    {
        WatchLoop { phase: LoopPhase::Idle, generation: 0 }
    }

    /// Takes in `e` and says what to do.
    pub fn step(&mut self, e: LoopEvent) -> (r: LoopAction)
        ensures
            (*final(self), r) == loop_step(*old(self), e),
    {
        let g = self.generation;
        match (self.phase, e) {
            (LoopPhase::Idle, LoopEvent::Start) => {
                self.phase = LoopPhase::Running;
                self.generation = 0;
                LoopAction::Spawn { generation: 0 }
            },
            (LoopPhase::Running, LoopEvent::ChangeAccepted) => {
                self.phase = LoopPhase::Restarting;
                LoopAction::Terminate { generation: g }
            },
            (LoopPhase::Running, LoopEvent::SourceClosed) => {
                self.phase = LoopPhase::Closing;
                LoopAction::Terminate { generation: g }
            },
            (LoopPhase::Running, LoopEvent::SpawnFailed { generation }) => {
                if generation == 0 && g == 0 {
                    self.phase = LoopPhase::Failed;
                    LoopAction::Fail
                } else {
                    LoopAction::Report
                }
            },
            (LoopPhase::Restarting, LoopEvent::TeardownDone) => {
                if g < u64::MAX {
                    self.phase = LoopPhase::Running;
                    self.generation = g + 1;
                    LoopAction::Spawn { generation: g + 1 }
                } else {
                    self.phase = LoopPhase::Terminated;
                    LoopAction::Stop
                }
            },
            (LoopPhase::Restarting, LoopEvent::SourceClosed) => {
                self.phase = LoopPhase::Closing;
                LoopAction::Nothing
            },
            (LoopPhase::Restarting, LoopEvent::SpawnFailed { .. }) => LoopAction::Report,
            (LoopPhase::Closing, LoopEvent::TeardownDone) => {
                self.phase = LoopPhase::Terminated;
                LoopAction::Stop
            },
            _ => LoopAction::Nothing,
        }
    }

    /// Whether the session is over, normally or not.
    pub fn is_finished(&self) -> (r: bool)
        ensures
            r == (self.phase == LoopPhase::Terminated || self.phase == LoopPhase::Failed),
    {
        match self.phase {
            LoopPhase::Terminated | LoopPhase::Failed => true,
            _ => false,
        }
    }
}

/// The state of a session from `s` after the first `k` events of `events`.
pub open spec fn state_at(s: WatchLoop, events: Seq<LoopEvent>, k: nat) -> WatchLoop
    decreases k,
{
    if k == 0 {
        s
    } else {
        loop_step(state_at(s, events, (k - 1) as nat), events[k - 1]).0
    }
}

/// The action a session from `s` takes on event `k` of `events`.
pub open spec fn action_at(s: WatchLoop, events: Seq<LoopEvent>, k: nat) -> LoopAction {
    loop_step(state_at(s, events, k), events[k as int]).1
}

/// While a generation is torn down, the termination that began it was asked
/// for, and no generation has been started since.
pub open spec fn teardown_pending(events: Seq<LoopEvent>, n: nat) -> bool {
    let s = state_at(initial_loop(), events, n);
    (s.phase == LoopPhase::Restarting || s.phase == LoopPhase::Closing) ==> exists|j: nat|
        j < n && #[trigger] action_at(initial_loop(), events, j) == (LoopAction::Terminate {
            generation: s.generation,
        }) && forall|m: nat| j < m < n ==> !(#[trigger] action_at(initial_loop(), events, m) is Spawn)
}

proof fn lemma_teardown_pending(events: Seq<LoopEvent>, n: nat)
    requires
        n <= events.len(),
    ensures
        teardown_pending(events, n),
    decreases n,
{
    if n > 0 {
        let k = (n - 1) as nat;
        lemma_teardown_pending(events, k);
        let before = state_at(initial_loop(), events, k);
        let after = state_at(initial_loop(), events, n);
        let a = action_at(initial_loop(), events, k);
        if after.phase == LoopPhase::Restarting || after.phase == LoopPhase::Closing {
            if before.phase == LoopPhase::Running {
                assert(a == LoopAction::Terminate { generation: after.generation });
            } else {
                assert(before.phase == LoopPhase::Restarting || before.phase == LoopPhase::Closing);
                assert(after.generation == before.generation);
                assert(!(a is Spawn));
                let j = choose|j: nat|
                    j < k && #[trigger] action_at(initial_loop(), events, j) == (LoopAction::Terminate {
                        generation: before.generation,
                    }) && forall|m: nat|
                        j < m < k ==> !(#[trigger] action_at(initial_loop(), events, m) is Spawn);
                assert forall|m: nat| j < m < n implies !(#[trigger] action_at(
                    initial_loop(),
                    events,
                    m,
                ) is Spawn) by {
                    if m < k {
                    } else {
                        assert(m == k);
                    }
                }
            }
        }
    }
}

/// No two generations overlap: a session started from scratch starts a
/// generation after the first only on the completed teardown of the one
/// before it, asked for earlier with nothing started in between.
pub proof fn lemma_spawn_follows_teardown(events: Seq<LoopEvent>, k: nat)
    requires
        k < events.len(),
        action_at(initial_loop(), events, k) is Spawn,
        action_at(initial_loop(), events, k)->Spawn_generation > 0,
    ensures
        events[k as int] == LoopEvent::TeardownDone,
        exists|j: nat|
            j < k && #[trigger] action_at(initial_loop(), events, j) == (LoopAction::Terminate {
                generation: (action_at(initial_loop(), events, k)->Spawn_generation - 1) as u64,
            }) && forall|m: nat|
                j < m < k ==> !(#[trigger] action_at(initial_loop(), events, m) is Spawn),
{
    lemma_teardown_pending(events, k);
}

} // verus!
