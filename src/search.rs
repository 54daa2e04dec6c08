use vstd::prelude::*;

use crate::tuning::MAX_ITERATIONS;

verus! {

/// What the caller does with its tip-speed ratio after one power evaluation.
#[derive(Clone, Copy, Debug, PartialEq, Eq, Structural)]
pub enum SearchStep {
    /// The power matched the target: keep the ratio as it is.
    Accept,
    /// The power missed the target: apply the proportional update.
    Adjust,
}

/// Control state of the fixed-point search for the tip-speed ratio.
///
/// The caller evaluates the power at its current ratio, tells the search
/// whether the relative error was within tolerance, and applies the returned
/// step. The search ends at the first match, or after `MAX_ITERATIONS`
/// evaluations, whichever comes first; the ratio reached then is the answer.
#[derive(Clone, Copy, Debug, PartialEq, Eq, Structural)]
pub struct TsrSearch {
    evaluations: u32,
    converged: bool,
}

impl TsrSearch {
    /// Number of power evaluations made so far.
    pub closed spec fn evaluation_count(self) -> nat {
        self.evaluations as nat
    }

    /// Whether the last evaluation was within tolerance.
    pub closed spec fn has_converged(self) -> bool {
        self.converged
    }

    /// A state that a search can reach: the count stays within its bound,
    /// and a match needs an evaluation.
    pub open spec fn wf(self) -> bool {
        &&& self.evaluation_count() <= MAX_ITERATIONS
        &&& self.has_converged() ==> self.evaluation_count() >= 1
    }

    /// No further evaluation is asked for.
    pub open spec fn finished(self) -> bool {
        self.has_converged() || self.evaluation_count() == MAX_ITERATIONS
    }

    /// The state before any evaluation.
    pub closed spec fn initial() -> TsrSearch {
        TsrSearch { evaluations: 0, converged: false }
    }

    /// The state after one more evaluation whose outcome is `within_tolerance`.
    pub closed spec fn step(self, within_tolerance: bool) -> TsrSearch {
        TsrSearch { evaluations: (self.evaluations + 1) as u32, converged: within_tolerance }
    }

    /// The state reached from the start when the evaluations come out as
    /// `outcomes` says, one entry per evaluation offered; entries offered after
    /// the search has finished change nothing.
    pub open spec fn after(outcomes: Seq<bool>) -> TsrSearch
        decreases outcomes.len(),
    {
        if outcomes.len() == 0 {
            TsrSearch::initial()
        } else {
            let s = TsrSearch::after(outcomes.drop_last());
            if s.finished() {
                s
            } else {
                s.step(outcomes.last())
            }
        }
    }

    /// Starts a search: no evaluation made, no match.
    pub fn new() -> (s: Self)
        ensures
            s == TsrSearch::initial(),
            s.wf(),
            s.evaluation_count() == 0,
            !s.has_converged(),
            !s.finished(),
    {
        TsrSearch { evaluations: 0, converged: false }
    }

    /// Number of power evaluations made so far.
    pub fn evaluations(&self) -> (r: u32)
        ensures
            r == self.evaluation_count(),
    {
        self.evaluations
    }

    /// Whether the search ended on a match rather than by running out of
    /// evaluations.
    pub fn converged(&self) -> (r: bool)
        ensures
            r == self.has_converged(),
    {
        self.converged
    }

    /// Whether the search is over.
    pub fn is_finished(&self) -> (r: bool)
        ensures
            r == self.finished(),
    {
        self.converged || self.evaluations == MAX_ITERATIONS
    }

    /// Records the outcome of one power evaluation and says what to do with
    /// the ratio: keep it on a match, update it otherwise (also on the last
    /// evaluation allowed).
    pub fn record(&mut self, within_tolerance: bool) -> (r: SearchStep)
        requires
            old(self).wf(),
            !old(self).finished(),
        ensures
            *final(self) == old(self).step(within_tolerance),
            final(self).wf(),
            final(self).evaluation_count() == old(self).evaluation_count() + 1,
            final(self).has_converged() == within_tolerance,
            r == (if within_tolerance {
                SearchStep::Accept
            } else {
                SearchStep::Adjust
            }),
    {
        self.evaluations = self.evaluations + 1;
        self.converged = within_tolerance;
        if within_tolerance {
            SearchStep::Accept
        } else {
            SearchStep::Adjust
        }
    }
}

/// Whatever the outcomes of the evaluations, a search makes at most
/// `MAX_ITERATIONS` of them, never more than it is offered (and all it is
/// offered while it runs), and is over once it has been offered
/// `MAX_ITERATIONS`; it has converged exactly when one of
/// the evaluations it made was within tolerance, and that one was its last.
pub proof fn lemma_search_bounded(outcomes: Seq<bool>)
    ensures
        TsrSearch::after(outcomes).wf(),
        TsrSearch::after(outcomes).evaluation_count() <= MAX_ITERATIONS,
        TsrSearch::after(outcomes).evaluation_count() <= outcomes.len(),
        outcomes.len() >= MAX_ITERATIONS ==> TsrSearch::after(outcomes).finished(),
        !TsrSearch::after(outcomes).finished() ==> TsrSearch::after(outcomes).evaluation_count()
            == outcomes.len(),
        TsrSearch::after(outcomes).has_converged() <==> (exists|i: int|
            0 <= i < TsrSearch::after(outcomes).evaluation_count() && #[trigger] outcomes[i]),
        TsrSearch::after(outcomes).has_converged() ==> outcomes[
            TsrSearch::after(outcomes).evaluation_count() - 1],
    decreases outcomes.len(),
{
    if outcomes.len() > 0 {
        let prefix = outcomes.drop_last();
        lemma_search_bounded(prefix);
        let s = TsrSearch::after(prefix);
        let n = s.evaluation_count();
        assert forall|i: int| 0 <= i < n implies prefix[i] == outcomes[i] by {}
        if !s.finished() {
            assert forall|i: int| 0 <= i < n implies !outcomes[i] by {
                assert(prefix[i] == outcomes[i]);
            }
            if outcomes.last() {
                assert(outcomes[n as int]);
            }
        }
    }
}

} // verus!
