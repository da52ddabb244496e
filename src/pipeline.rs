use vstd::prelude::*;

verus! {

/// One generation of a pipeline of commands, run one after another; a
/// command that fails to start or exits with failure ends the generation.
#[derive(Clone, Copy, Debug, PartialEq, Eq)]
pub struct PipelineRun {
    /// The number of commands in the pipeline.
    pub len: usize,
    /// The index of the next command to start.
    pub next: usize,
    /// Whether a command failed.
    pub stopped: bool,
}

/// The command to start next, if any.
pub open spec fn next_spec(r: PipelineRun) -> Option<usize> {
    if !r.stopped && r.next < r.len {
        Some(r.next)
    } else {
        None
    }
}

/// The run after the command that was started last ended, with `success`.
pub open spec fn record_spec(r: PipelineRun, success: bool) -> PipelineRun {
    if next_spec(r) is Some {
        PipelineRun { next: (r.next + 1) as usize, stopped: !success, ..r }
    } else {
        r
    }
}

/// The run after the outcomes of `outcomes`, in order.
pub open spec fn run_after(r: PipelineRun, outcomes: Seq<bool>) -> PipelineRun
    decreases outcomes.len(),
{
    if outcomes.len() == 0 {
        r
    } else {
        run_after(record_spec(r, outcomes[0]), outcomes.skip(1))
    }
}

impl PipelineRun {
    /// A fresh generation of a pipeline of `len` commands; an empty pipeline
    /// has nothing to run and is refused.
    pub fn new(len: usize) -> (r: Option<PipelineRun>)
        ensures
            r is Some <==> len > 0,
            r is Some ==> r->0 == (PipelineRun { len, next: 0, stopped: false }),
    {
        if len == 0 {
            None
        } else {
            Some(PipelineRun { len, next: 0, stopped: false })
        }
    }

    /// The index of the command to start next: none once a command failed
    /// or all of them ran.
    pub fn next_command(&self) -> (r: Option<usize>)
        ensures
            r == next_spec(*self),
    {
        if !self.stopped && self.next < self.len {
            Some(self.next)
        } else {
            None
        }
    }

    /// Records how the command started last ended: `success` is false when
    /// it could not be started or exited with failure.
    pub fn record(&mut self, success: bool)
        ensures
            *final(self) == record_spec(*old(self), success),
    {
        if !self.stopped && self.next < self.len {
            self.next = self.next + 1;
            self.stopped = !success;
        }
    }
}

/// A stopped run stays as it is.
proof fn lemma_stopped_stays(r: PipelineRun, outcomes: Seq<bool>)
    requires
        r.stopped,
    ensures
        run_after(r, outcomes) == r,
    decreases outcomes.len(),
{
    if outcomes.len() > 0 {
        lemma_stopped_stays(r, outcomes.skip(1));
    }
}

/// Once the first command of a generation fails, no later command of it is
/// started: whatever follows, the run has started one command and offers no
/// next one.
pub proof fn lemma_first_failure_stops(len: usize, later: Seq<bool>)
    requires
        len > 0,
    ensures
        run_after(PipelineRun { len, next: 0, stopped: false }, seq![false] + later).next == 1,
        next_spec(run_after(PipelineRun { len, next: 0, stopped: false }, seq![false] + later))
            is None,
{
    let r0 = PipelineRun { len, next: 0, stopped: false };
    let outcomes = seq![false] + later;
    assert(outcomes[0] == false);
    assert(outcomes.skip(1) =~= later);
    let r1 = record_spec(r0, false);
    assert(r1.stopped && r1.next == 1);
    lemma_stopped_stays(r1, later);
}

/// The commands of a generation run in order: after the outcomes
/// `outcomes`, all of them successes, the next command is the one that
/// follows them.
pub proof fn lemma_successes_advance(len: usize, outcomes: Seq<bool>)
    requires
        outcomes.len() <= len,
        forall|i: int| 0 <= i < outcomes.len() ==> outcomes[i],
    ensures
        run_after(PipelineRun { len, next: 0, stopped: false }, outcomes) == (PipelineRun {
            len,
            next: outcomes.len() as usize,
            stopped: false,
        }),
    decreases outcomes.len(),
{
    if outcomes.len() > 0 {
        let init = outcomes.subrange(0, outcomes.len() - 1);
        lemma_successes_advance(len, init);
        lemma_run_after_last(PipelineRun { len, next: 0, stopped: false }, outcomes);
    }
}

proof fn lemma_run_after_last(r: PipelineRun, outcomes: Seq<bool>)
    requires
        outcomes.len() > 0,
    ensures
        run_after(r, outcomes) == record_spec(
            run_after(r, outcomes.subrange(0, outcomes.len() - 1)),
            outcomes.last(),
        ),
    decreases outcomes.len(),
{
    if outcomes.len() > 1 {
        let rest = outcomes.skip(1);
        lemma_run_after_last(record_spec(r, outcomes[0]), rest);
        let init = outcomes.subrange(0, outcomes.len() - 1);
        assert(rest.subrange(0, rest.len() - 1) =~= init.skip(1));
        assert(init[0] == outcomes[0]);
        assert(rest.last() == outcomes.last());
        assert(run_after(r, init) == run_after(record_spec(r, init[0]), init.skip(1)));
        assert(run_after(r, outcomes) == run_after(record_spec(r, outcomes[0]), rest));
    } else {
        assert(outcomes.skip(1).len() == 0);
        assert(outcomes.subrange(0, 0).len() == 0);
        assert(run_after(record_spec(r, outcomes[0]), outcomes.skip(1)) == record_spec(r, outcomes[0]));
        assert(run_after(r, outcomes.subrange(0, 0)) == r);
        assert(outcomes.last() == outcomes[0]);
    }
}

} // verus!
