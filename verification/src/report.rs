//! The diagnostic report: the ordered stage outcomes and the running
//! failure total.  The total always equals the number of `Fail` outcomes
//! accumulated, however many stages were short-circuited.

use vstd::prelude::*;

use crate::errors::StageError;

verus! {

/// One diagnostic stage, in the fixed execution order.
#[derive(Debug, Clone, Copy, PartialEq, Eq, Structural)]
pub enum Stage {
    KernelVersion,
    Packages,
    KernelFlags,
    NetworkInterface,
}

/// A stage's result: a pass, or a failure with its description.
#[derive(Debug)]
pub enum Status {
    Pass,
    Fail(StageError),
}

/// The outcome one stage reported; never mutated after creation.
#[derive(Debug)]
pub struct CheckOutcome {
    pub stage: Stage,
    pub status: Status,
}

impl CheckOutcome {
    pub open spec fn is_fail(&self) -> bool {
        self.status is Fail
    }
}

/// How many of the outcomes are failures.
pub open spec fn count_fails(outcomes: Seq<CheckOutcome>) -> int
    decreases outcomes.len(),
{
    if outcomes.len() == 0 {
        0
    } else {
        count_fails(outcomes.drop_last()) + if outcomes.last().is_fail() {
            1int
        } else {
            0int
        }
    }
}

/// The failure count never exceeds the number of outcomes.
pub proof fn lemma_count_fails_bounds(outcomes: Seq<CheckOutcome>)
    ensures
        0 <= count_fails(outcomes) <= outcomes.len(),
    decreases outcomes.len(),
{
    if outcomes.len() > 0 {
        lemma_count_fails_bounds(outcomes.drop_last());
    }
}

/// The ordered stage outcomes plus the failure total.
pub struct DiagnosticReport {
    pub outcomes: Vec<CheckOutcome>,
    pub failures: usize,
}

impl DiagnosticReport {
    /// The failure total equals the number of `Fail` outcomes recorded.
    pub open spec fn wf(&self) -> bool {
        self.failures == count_fails(self.outcomes@)
    }

    pub fn new() -> (r: Self)
        ensures
            r.wf(),
            r.outcomes@.len() == 0,
    {
        let r = DiagnosticReport { outcomes: Vec::new(), failures: 0 };
        proof {
            assert(count_fails(r.outcomes@) == 0);
        }
        r
    }

    /// Record one stage outcome, keeping the failure total exact.
    pub fn push_outcome(&mut self, outcome: CheckOutcome)
        requires
            old(self).wf(),
            old(self).outcomes@.len() < usize::MAX,
        ensures
            final(self).wf(),
            final(self).outcomes@ == old(self).outcomes@.push(outcome),
            final(self).failures == old(self).failures + if outcome.is_fail() {
                1int
            } else {
                0int
            },
    {
        proof {
            lemma_count_fails_bounds(self.outcomes@);
        }
        let failed = match &outcome.status {
            Status::Pass => false,
            Status::Fail(_) => true,
        };
        self.outcomes.push(outcome);
        if failed {
            self.failures = self.failures + 1;
        }
        proof {
            assert(self.outcomes@.drop_last() =~= old(self).outcomes@);
            assert(self.outcomes@.last() == outcome);
        }
    }

    /// The failure total.
    pub fn total_failures(&self) -> (r: usize)
        requires
            self.wf(),
        ensures
            r == count_fails(self.outcomes@),
    {
        self.failures
    }
}

} // verus!
