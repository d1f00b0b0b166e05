use vstd::prelude::*;
use crate::invoke::SubOp;

verus! {

/// How each candidate is handled; fixed for the whole run.
#[derive(Clone, Copy, Debug, PartialEq, Eq, Structural)]
pub enum Mode {
    /// Seed detection only.
    Detect,
    /// Cracking only.
    Crack,
    /// Seed detection, then cracking of the files where it succeeded.
    DetectThenCrack,
}

/// What the caller does after a sub-operation was classified.
#[derive(Clone, Copy, Debug, PartialEq, Eq, Structural)]
pub struct Step {
    /// Append the candidate's path to the result log.
    pub log_found: bool,
    /// The sub-operation still to run on the same candidate; `None` when the
    /// candidate is complete.
    pub next: Option<SubOp>,
}

/// The counters of a batch run and the sub-operation in flight.
#[derive(Clone, Copy, Debug, PartialEq, Eq, Structural)]
pub struct RunState {
    pub mode: Mode,
    /// Number of candidates; fixed when discovery ends.
    pub files_total: u64,
    /// Candidates completed.
    pub files_processed: u64,
    /// Seed detections that succeeded.
    pub files_found: u64,
    /// Cracks that succeeded.
    pub files_cracked: u64,
    /// The sub-operation running on the current candidate, if any.
    pub pending: Option<SubOp>,
}

/// The first sub-operation run on each candidate in `mode`.
pub open spec fn first_op(mode: Mode) -> SubOp {
    if mode == Mode::Crack { SubOp::Crack } else { SubOp::Seed }
}

impl RunState {
    /// The counters' invariant.
    pub open spec fn wf(&self) -> bool {
        &&& self.files_processed <= self.files_total
        &&& self.pending is Some ==> self.files_processed < self.files_total
        &&& match self.mode {
            Mode::Detect => {
                &&& self.files_cracked == 0
                &&& self.files_found <= self.files_processed
                &&& self.pending != Some(SubOp::Crack)
            },
            Mode::Crack => {
                &&& self.files_found == 0
                &&& self.files_cracked <= self.files_processed
                &&& self.pending != Some(SubOp::Seed)
            },
            Mode::DetectThenCrack => if self.pending == Some(SubOp::Crack) {
                &&& self.files_cracked < self.files_found
                &&& self.files_found <= self.files_processed + 1
            } else {
                &&& self.files_cracked <= self.files_found
                &&& self.files_found <= self.files_processed
            },
        }
    }

    /// No sub-operation is in flight and every candidate is complete.
    pub open spec fn done(&self) -> bool {
        self.pending is None && self.files_processed == self.files_total
    }

    /// The state once the next candidate's first sub-operation has started.
    pub open spec fn started(self) -> RunState {
        RunState { pending: Some(first_op(self.mode)), ..self }
    }

    /// The state once the sub-operation in flight ended, having `failed` or not.
    pub open spec fn recorded(self, failed: bool) -> RunState {
        match self.pending {
            Some(SubOp::Seed) => {
                let found = if failed { self.files_found } else { (self.files_found + 1) as u64 };
                if !failed && self.mode == Mode::DetectThenCrack {
                    RunState { files_found: found, pending: Some(SubOp::Crack), ..self }
                } else {
                    RunState {
                        files_found: found,
                        files_processed: (self.files_processed + 1) as u64,
                        pending: None,
                        ..self
                    }
                }
            },
            Some(SubOp::Crack) => RunState {
                files_cracked: if failed { self.files_cracked } else { (self.files_cracked + 1) as u64 },
                files_processed: (self.files_processed + 1) as u64,
                pending: None,
                ..self
            },
            None => self,
        }
    }

    /// The state once a whole candidate went through: `seed_failed` is the
    /// seed detection's result, `crack_failed` the crack's, each used only
    /// where the mode runs that sub-operation.
    pub open spec fn candidate_done(self, seed_failed: bool, crack_failed: bool) -> RunState {
        let s = self.started();
        let s1 = s.recorded(if first_op(self.mode) == SubOp::Seed { seed_failed } else { crack_failed });
        if s1.pending is Some { s1.recorded(crack_failed) } else { s1 }
    }

    /// A run in `mode` over `files_total` candidates, before the first one.
    pub fn new(mode: Mode, files_total: u64) -> (r: Self)
        ensures
            r.wf(),
            r == (RunState {
                mode,
                files_total,
                files_processed: 0,
                files_found: 0,
                files_cracked: 0,
                pending: None,
            }),
    {
        RunState { mode, files_total, files_processed: 0, files_found: 0, files_cracked: 0, pending: None }
    }

    /// Starts the next candidate and returns the sub-operation to run on it.
    pub fn start_candidate(&mut self) -> (op: SubOp)
        requires
            old(self).wf(),
            old(self).pending is None,
            old(self).files_processed < old(self).files_total,
        ensures
            final(self).wf(),
            op == first_op(old(self).mode),
            *final(self) == old(self).started(),
    {
        let op = if self.mode == Mode::Crack { SubOp::Crack } else { SubOp::Seed };
        self.pending = Some(op);
        op
    }

    /// Records the outcome of the sub-operation in flight (`failed` when its
    /// diagnostics held the error marker) and says what comes next.
    pub fn record(&mut self, failed: bool) -> (s: Step)
        requires
            old(self).wf(),
            old(self).pending is Some,
        ensures
            final(self).wf(),
            *final(self) == old(self).recorded(failed),
            s.log_found == (old(self).pending == Some(SubOp::Seed) && !failed),
            s.next == final(self).pending,
            final(self).pending is None ==> final(self).files_processed == old(self).files_processed + 1,
            final(self).pending is Some ==> final(self).files_processed == old(self).files_processed,
    {
        match self.pending {
            Some(SubOp::Seed) => {
                if !failed {
                    self.files_found = self.files_found + 1;
                }
                if !failed && self.mode == Mode::DetectThenCrack {
                    self.pending = Some(SubOp::Crack);
                } else {
                    self.files_processed = self.files_processed + 1;
                    self.pending = None;
                }
                Step { log_found: !failed, next: self.pending }
            },
            _ => {
                if !failed {
                    self.files_cracked = self.files_cracked + 1;
                }
                self.files_processed = self.files_processed + 1;
                self.pending = None;
                Step { log_found: false, next: None }
            },
        }
    }

    /// Whether every candidate is complete.
    pub fn is_done(&self) -> (r: bool)
        ensures
            r == self.done(),
    {
        self.pending.is_none() && self.files_processed == self.files_total
    }

    /// Whether the run neither found nor cracked anything.
    pub fn found_nothing(&self) -> (r: bool)
        ensures
            r == (self.files_found == 0 && self.files_cracked == 0),
    {
        self.files_found == 0 && self.files_cracked == 0
    }
}

/// The state after the candidates whose results are `outcomes`, each pair
/// holding the seed detection's and the crack's failure, in order.
pub open spec fn run_spec(mode: Mode, files_total: u64, outcomes: Seq<(bool, bool)>) -> RunState
    decreases outcomes.len(),
{
    if outcomes.len() == 0 {
        RunState {
            mode,
            files_total,
            files_processed: 0,
            files_found: 0,
            files_cracked: 0,
            pending: None,
        }
    } else {
        let o = outcomes.last();
        run_spec(mode, files_total, outcomes.drop_last()).candidate_done(o.0, o.1)
    }
}

/// Handling one candidate keeps the invariant and adds exactly one to the
/// processed count.
pub proof fn lemma_candidate_step(r: RunState, seed_failed: bool, crack_failed: bool)
    requires
        r.wf(),
        r.pending is None,
        r.files_processed < r.files_total,
    ensures
        r.candidate_done(seed_failed, crack_failed).wf(),
        r.candidate_done(seed_failed, crack_failed).pending is None,
        r.candidate_done(seed_failed, crack_failed).files_processed == r.files_processed + 1,
        r.candidate_done(seed_failed, crack_failed).files_total == r.files_total,
        r.candidate_done(seed_failed, crack_failed).mode == r.mode,
{
}

/// Over any sequence of candidate results, the processed count goes up by
/// one per candidate, the invariant holds throughout, and once every
/// candidate is handled the run is done.
pub proof fn lemma_run_counts(mode: Mode, files_total: u64, outcomes: Seq<(bool, bool)>)
    requires
        outcomes.len() <= files_total,
    ensures
        run_spec(mode, files_total, outcomes).wf(),
        run_spec(mode, files_total, outcomes).pending is None,
        run_spec(mode, files_total, outcomes).mode == mode,
        run_spec(mode, files_total, outcomes).files_total == files_total,
        run_spec(mode, files_total, outcomes).files_processed == outcomes.len(),
        outcomes.len() == files_total ==> run_spec(mode, files_total, outcomes).done(),
    decreases outcomes.len(),
{
    if outcomes.len() > 0 {
        lemma_run_counts(mode, files_total, outcomes.drop_last());
        let o = outcomes.last();
        lemma_candidate_step(run_spec(mode, files_total, outcomes.drop_last()), o.0, o.1);
    }
}

/// In detect-then-crack mode no more files are cracked than were found.
pub proof fn lemma_cracked_within_found(r: RunState)
    requires
        r.wf(),
        r.mode == Mode::DetectThenCrack,
    ensures
        r.files_cracked <= r.files_found,
{
}

} // verus!
