use vstd::prelude::*;
use std::rc::Rc;
use crate::error::FstError;
use crate::fst::Fst;
use crate::matcher::{GenericMatcher, MatchType};
use crate::semiring::Weight;
use crate::tr::{Tr, Label, StateId, count_output_eps};

verus! {

/// A state of the compose filter's auxiliary disambiguation automaton:
/// either a legal state carrying its rank, or the blocked sentinel meaning
/// "this combination of transitions is illegal; discard it". Filter states
/// are compared for equality only.
#[derive(Clone, Copy, Debug, PartialEq, Eq, Structural)]
pub enum FilterState {
    State(usize),
    NoState,
}

impl FilterState {
    /// A concrete filter state from its underlying rank.
    pub fn new(value: usize) -> (r: FilterState)
        ensures
            r == FilterState::State(value),
    {
        FilterState::State(value)
    }

    /// The blocked sentinel, distinguishable from every legal value.
    pub fn new_no_state() -> (r: FilterState)
        ensures
            r == FilterState::NoState,
    {
        FilterState::NoState
    }
}

/// The matcher pair shared between a compose filter and its builder, so
/// several filter instances can be built without repeating matcher
/// construction.
pub struct SharedDataComposeFilter<F1: Fst, F2: Fst> {
    pub matcher1: GenericMatcher<F1>,
    pub matcher2: GenericMatcher<F2>,
}

impl<F1: Fst, F2: Fst> SharedDataComposeFilter<F1, F2> {
    pub fn new(matcher1: GenericMatcher<F1>, matcher2: GenericMatcher<F2>) -> (r:
        SharedDataComposeFilter<F1, F2>)
        ensures
            r.matcher1 == matcher1,
            r.matcher2 == matcher2,
    {
        SharedDataComposeFilter { matcher1, matcher2 }
    }
}

/// The sequence discipline's transition table: given the current auxiliary
/// state and the two per-state summaries of the first operand, decide the
/// next auxiliary state for a candidate transition pair, or block it.
///
/// A pair where `tr1` carries the synthetic output sentinel is an
/// operand-2-only epsilon move; one where `tr2` carries the synthetic input
/// sentinel is an operand-1-only move, legal only while neutral; a genuine
/// two-sided epsilon pairing is blocked outright, since one-sided moves
/// already cover it.
pub open spec fn spec_seq_filter_tr(
    fs: FilterState,
    alleps1: bool,
    noeps1: bool,
    tr1: Tr,
    tr2: Tr,
) -> FilterState {
    if tr1.olabel == Label::NoLabel {
        if alleps1 {
            FilterState::NoState
        } else if noeps1 {
            FilterState::State(0)
        } else {
            FilterState::State(1)
        }
    } else if tr2.ilabel == Label::NoLabel {
        if fs != FilterState::State(0) {
            FilterState::NoState
        } else {
            FilterState::State(0)
        }
    } else {
        if tr1.olabel == Label::Eps {
            FilterState::NoState
        } else {
            FilterState::State(0)
        }
    }
}

/// "Every outgoing transition of `s1` is an output epsilon and `s1` is not
/// accepting": the first operand has no way forward but epsilon.
pub open spec fn spec_alleps1<F: Fst>(fst: F, s1: int) -> bool {
    fst.spec_trs(s1).len() == count_output_eps(fst.spec_trs(s1)) && fst.spec_final_weight(s1)
        is None
}

/// "`s1` has no output-epsilon transition at all": the first operand cannot
/// race an epsilon move.
pub open spec fn spec_noeps1<F: Fst>(fst: F, s1: int) -> bool {
    count_output_eps(fst.spec_trs(s1)) == 0
}

/// The compose filter of the sequence discipline: it requires the first
/// operand's epsilon transitions to be consumed before the second
/// operand's, which keeps composition from emitting several distinct paths
/// for one epsilon-closure ambiguity.
pub struct SequenceComposeFilter<F1: Fst, F2: Fst> {
    pub shared_data: Rc<SharedDataComposeFilter<F1, F2>>,
    /// The first operand's state currently bound, none before `set_state`.
    pub s1: Option<StateId>,
    /// The second operand's state currently bound.
    pub s2: Option<StateId>,
    /// The auxiliary state currently bound.
    pub fs: FilterState,
    /// Summary of `s1`: only epsilons leave it and it is not accepting.
    pub alleps1: bool,
    /// Summary of `s1`: no output epsilon leaves it.
    pub noeps1: bool,
    /// How often the per-state summaries were recomputed; exposed so the
    /// memoization of `set_state` is observable.
    pub summary_recomputes: u64,
}

impl<F1: Fst, F2: Fst> SequenceComposeFilter<F1, F2> {
    /// The first operand's automaton, read through the shared matcher pair.
    pub open spec fn spec_fst1(&self) -> F1 {
        self.shared_data.matcher1.spec_fst()
    }

    /// How often `set_state` recomputed the per-state summaries of the
    /// first operand: unchanged by memoized calls.
    pub fn num_summary_recomputes(&self) -> (r: u64)
        ensures
            r == self.summary_recomputes,
    {
        self.summary_recomputes
    }

    /// The initial auxiliary state for any pair of operand start states.
    pub fn start(&self) -> (r: FilterState)
        ensures
            r == FilterState::State(0),
    {
        FilterState::new(0)
    }

    /// Rebind the filter to the operand-state pair `(s1, s2)` and auxiliary
    /// state `filter_state`. A no-op when the triple is unchanged; on an
    /// actual change the two summaries of `s1` are recomputed from the
    /// first operand, which is counted.
    pub fn set_state(&mut self, s1: StateId, s2: StateId, filter_state: &FilterState)
        requires
            old(self).spec_fst1().wf(),
            s1 < old(self).spec_fst1().spec_num_states(),
            old(self).summary_recomputes < u64::MAX,
        ensures
            old(self).s1 == Some(s1) && old(self).s2 == Some(s2) && old(self).fs == *filter_state
                ==> *final(self) == *old(self),
            !(old(self).s1 == Some(s1) && old(self).s2 == Some(s2) && old(self).fs
                == *filter_state) ==> {
                &&& final(self).s1 == Some(s1)
                &&& final(self).s2 == Some(s2)
                &&& final(self).fs == *filter_state
                &&& final(self).alleps1 == spec_alleps1(old(self).spec_fst1(), s1 as int)
                &&& final(self).noeps1 == spec_noeps1(old(self).spec_fst1(), s1 as int)
                &&& final(self).summary_recomputes == old(self).summary_recomputes + 1
                &&& final(self).shared_data == old(self).shared_data
            },
    {
        let same = match (self.s1, self.s2) {
            (Some(c1), Some(c2)) => c1 == s1 && c2 == s2 && self.fs == *filter_state,
            _ => false,
        };
        if !same {
            self.s1 = Some(s1);
            self.s2 = Some(s2);
            self.fs = *filter_state;
            let na1 = self.shared_data.matcher1.fst().num_trs(s1);
            let ne1 = self.shared_data.matcher1.fst().num_output_epsilons(s1);
            let fin1 = self.shared_data.matcher1.fst().is_final(s1);
            self.alleps1 = na1 == ne1 && !fin1;
            self.noeps1 = ne1 == 0;
            self.summary_recomputes = self.summary_recomputes + 1;
        }
    }

    /// Decide a candidate transition pair: the next auxiliary state, or the
    /// blocked sentinel to discard the pair. A blocked result is the normal
    /// pruning mechanism, never a failure.
    pub fn filter_tr(&self, tr1: &Tr, tr2: &Tr) -> (r: FilterState)
        ensures
            r == spec_seq_filter_tr(self.fs, self.alleps1, self.noeps1, *tr1, *tr2),
    {
        if tr1.olabel == Label::NoLabel {
            if self.alleps1 {
                FilterState::new_no_state()
            } else if self.noeps1 {
                FilterState::new(0)
            } else {
                FilterState::new(1)
            }
        } else if tr2.ilabel == Label::NoLabel {
            if self.fs != FilterState::State(0) {
                FilterState::new_no_state()
            } else {
                FilterState::new(0)
            }
        } else {
            if tr1.olabel == Label::Eps {
                FilterState::new_no_state()
            } else {
                FilterState::new(0)
            }
        }
    }

    /// Hook for adjusting the operands' final weights jointly; the sequence
    /// discipline performs no adjustment.
    pub fn filter_final(&self, w1: &mut Weight, w2: &mut Weight)
        ensures
            *final(w1) == *old(w1),
            *final(w2) == *old(w2),
    {
    }

    /// The shared matcher pair, for the driver to issue further label
    /// queries.
    pub fn get_shared_data(&self) -> (r: &Rc<SharedDataComposeFilter<F1, F2>>)
        ensures
            *r == self.shared_data,
    {
        &self.shared_data
    }
}

/// Builds sequence compose filters over one shared matcher pair.
pub struct SequenceComposeFilterBuilder<F1: Fst, F2: Fst> {
    pub shared_data: Rc<SharedDataComposeFilter<F1, F2>>,
}

impl<F1: Fst, F2: Fst> SequenceComposeFilterBuilder<F1, F2> {
    /// Wrap the given matchers — or default ones connecting the first
    /// operand's output alphabet to the second operand's input alphabet —
    /// in one shared data block.
    pub fn new(
        fst1: Rc<F1>,
        fst2: Rc<F2>,
        matcher1: Option<GenericMatcher<F1>>,
        matcher2: Option<GenericMatcher<F2>>,
    ) -> (r: Result<SequenceComposeFilterBuilder<F1, F2>, FstError>)
        ensures
            r is Ok,
            r matches Ok(b) ==> {
                &&& (matcher1 matches Some(m1) ==> b.shared_data.matcher1 == m1)
                &&& (matcher1 is None ==> b.shared_data.matcher1.spec_fst() == *fst1
                    && b.shared_data.matcher1.spec_match_type() == MatchType::MatchOutput)
                &&& (matcher2 matches Some(m2) ==> b.shared_data.matcher2 == m2)
                &&& (matcher2 is None ==> b.shared_data.matcher2.spec_fst() == *fst2
                    && b.shared_data.matcher2.spec_match_type() == MatchType::MatchInput)
            },
    {
        let m1 = match matcher1 {
            Some(m) => m,
            None => match GenericMatcher::new(fst1, MatchType::MatchOutput) {
                Ok(m) => m,
                Err(e) => {
                    proof {
                        assert(false);
                    }
                    return Err(e);
                },
            },
        };
        let m2 = match matcher2 {
            Some(m) => m,
            None => match GenericMatcher::new(fst2, MatchType::MatchInput) {
                Ok(m) => m,
                Err(e) => {
                    proof {
                        assert(false);
                    }
                    return Err(e);
                },
            },
        };
        let shared_data = SharedDataComposeFilter::new(m1, m2);
        Ok(SequenceComposeFilterBuilder { shared_data: Rc::new(shared_data) })
    }

    /// A fresh filter instance over the shared data, bound to no state yet.
    pub fn build(&self) -> (r: Result<SequenceComposeFilter<F1, F2>, FstError>)
        ensures
            r is Ok,
            r matches Ok(f) ==> {
                &&& f.shared_data == self.shared_data
                &&& f.s1 is None
                &&& f.s2 is None
                &&& f.fs == FilterState::NoState
                &&& !f.alleps1
                &&& !f.noeps1
                &&& f.summary_recomputes == 0
            },
    {
        Ok(
            SequenceComposeFilter {
                shared_data: Rc::clone(&self.shared_data),
                s1: None,
                s2: None,
                fs: FilterState::new_no_state(),
                alleps1: false,
                noeps1: false,
                summary_recomputes: 0,
            },
        )
    }
}

/// Law: the sequence discipline orders the first operand's epsilons before
/// the second operand's. Once the auxiliary state has left neutral, an
/// operand-1-only move is always blocked; only operand-2-only moves (which
/// keep or re-enter the pending bookkeeping) or a genuine two-sided
/// non-epsilon match (which returns to neutral) may follow.
pub proof fn lemma_filter_ordering(
    fs: FilterState,
    alleps1: bool,
    noeps1: bool,
    tr1: Tr,
    tr2: Tr,
)
    requires
        fs != FilterState::State(0),
    ensures
        tr1.olabel != Label::NoLabel && tr2.ilabel == Label::NoLabel ==> spec_seq_filter_tr(
            fs,
            alleps1,
            noeps1,
            tr1,
            tr2,
        ) == FilterState::NoState,
        tr1.olabel != Label::NoLabel && tr2.ilabel != Label::NoLabel && tr1.olabel != Label::Eps
            ==> spec_seq_filter_tr(fs, alleps1, noeps1, tr1, tr2) == FilterState::State(0),
{
}

/// Law: the only way the filter hands out the pending state is an
/// operand-2-only move taken while the first operand still has both
/// epsilon and non-epsilon options, so a pairing accepted as pending always
/// records that an operand-2-only move happened.
pub proof fn lemma_pending_only_from_op2_move(
    fs: FilterState,
    alleps1: bool,
    noeps1: bool,
    tr1: Tr,
    tr2: Tr,
)
    requires
        spec_seq_filter_tr(fs, alleps1, noeps1, tr1, tr2) == FilterState::State(1),
    ensures
        tr1.olabel == Label::NoLabel,
        !alleps1,
        !noeps1,
{
}

} // verus!
