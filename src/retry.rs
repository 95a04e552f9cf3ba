//! Bounded retry of rejected adaptive steps.
//!
//! The embedded integrator compares its error estimate with the tolerance
//! and, on rejection, tries again with a smaller step. This budget caps the
//! number of attempts and turns a non-finite error estimate into an explicit
//! failure, so a step either is accepted or gives up after a bounded number
//! of attempts.

use vstd::prelude::*;

verus! {

/// Attempts allowed for one adaptive step when the caller does not choose.
pub const MAX_STEP_ATTEMPTS: u32 = 20;

/// How one attempt of an adaptive step turned out.
#[derive(Clone, Copy, Debug, PartialEq, Eq, Structural)]
pub enum AttemptOutcome {
    /// The error estimate is finite and at most the tolerance.
    WithinTolerance,
    /// The error estimate is finite and exceeds the tolerance.
    OutsideTolerance,
    /// The error estimate, or the tolerance, is NaN or infinite.
    NonFinite,
}

/// What the integrator does after an attempt.
#[derive(Clone, Copy, Debug, PartialEq, Eq, Structural)]
pub enum StepVerdict {
    /// Keep the attempted state.
    Accept,
    /// Try again with the suggested smaller step.
    Retry,
    /// Stop: the step failed to converge.
    GiveUp,
}

/// The verdict on an attempt, given how many attempts came before it and
/// how many are allowed in all.
pub open spec fn verdict_for(outcome: AttemptOutcome, attempts_before: nat, limit: nat) -> StepVerdict {
    if attempts_before >= limit {
        StepVerdict::GiveUp
    } else {
        match outcome {
            AttemptOutcome::WithinTolerance => StepVerdict::Accept,
            AttemptOutcome::NonFinite => StepVerdict::GiveUp,
            AttemptOutcome::OutsideTolerance => {
                if attempts_before + 1 < limit {
                    StepVerdict::Retry
                } else {
                    StepVerdict::GiveUp
                }
            },
        }
    }
}

/// An attempt is retried only while a further attempt fits in the limit, so
/// one adaptive step makes at most `limit` attempts; an attempt beyond the
/// limit always gives up.
pub proof fn lemma_retries_are_bounded(outcome: AttemptOutcome, attempts_before: nat, limit: nat)
    ensures
        verdict_for(outcome, attempts_before, limit) == StepVerdict::Retry ==> attempts_before + 1 < limit,
        attempts_before >= limit ==> verdict_for(outcome, attempts_before, limit) == StepVerdict::GiveUp,
{
}

/// The mathematical state of a budget.
pub struct BudgetState {
    pub attempts: nat,
    pub limit: nat,
}

/// Attempt counter of one adaptive step.
#[derive(Clone, Copy, Debug)]
pub struct RetryBudget {
    attempts: u32,
    limit: u32,
}

impl View for RetryBudget {
    type V = BudgetState;

    closed spec fn view(&self) -> BudgetState {
        BudgetState { attempts: self.attempts as nat, limit: self.limit as nat }
    }
}

impl RetryBudget {
    /// No more attempts are counted than the limit allows.
    pub open spec fn wf(&self) -> bool {
        self@.attempts <= self@.limit
    }

    /// A budget of `limit` attempts, none used.
    pub fn new(limit: u32) -> (r: RetryBudget)
        ensures
            r.wf(),
            r@ == (BudgetState { attempts: 0, limit: limit as nat }),
    {
        RetryBudget { attempts: 0, limit }
    }

    /// Number of attempts recorded so far.
    pub fn attempts(&self) -> (r: u32)
        ensures
            r as nat == self@.attempts,
    {
        self.attempts
    }

    /// The number of attempts allowed.
    pub fn limit(&self) -> (r: u32)
        ensures
            r as nat == self@.limit,
    {
        self.limit
    }

    /// Records one attempt and says what to do next. Once the budget is
    /// used up every further call gives up and counts nothing.
    pub fn record(&mut self, outcome: AttemptOutcome) -> (r: StepVerdict)
        requires
            old(self).wf(),
        ensures
            final(self).wf(),
            r == verdict_for(outcome, old(self)@.attempts, old(self)@.limit),
            final(self)@.limit == old(self)@.limit,
            final(self)@.attempts == if old(self)@.attempts < old(self)@.limit {
                old(self)@.attempts + 1
            } else {
                old(self)@.attempts
            },
            r == StepVerdict::Retry ==> final(self)@.attempts < final(self)@.limit,
    {
        if self.attempts >= self.limit {
            return StepVerdict::GiveUp;
        }
        let before: u32 = self.attempts;
        self.attempts = self.attempts + 1;
        match outcome {
            AttemptOutcome::WithinTolerance => StepVerdict::Accept,
            AttemptOutcome::NonFinite => StepVerdict::GiveUp,
            AttemptOutcome::OutsideTolerance => {
                if before + 1 < self.limit {
                    StepVerdict::Retry
                } else {
                    StepVerdict::GiveUp
                }
            },
        }
    }
}

} // verus!
