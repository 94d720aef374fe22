use vstd::prelude::*;
use crate::semiring::Weight;
use crate::tr::{Tr, Label, StateId, count_output_eps, count_input_eps};

verus! {

/// The total number of transitions stored for the states `0 .. n`.
pub open spec fn vec_total_trs(states: Seq<VectorFstState>, n: int) -> nat
    decreases n,
{
    if n <= 0 {
        0
    } else {
        vec_total_trs(states, n - 1) + states[n - 1].trs@.len()
    }
}

pub proof fn lemma_vec_total_trs_congruence(a: Seq<VectorFstState>, b: Seq<VectorFstState>, n: int)
    requires
        forall|s: int| 0 <= s < n ==> a[s].trs@ == b[s].trs@,
    ensures
        vec_total_trs(a, n) == vec_total_trs(b, n),
    decreases n,
{
    if n > 0 {
        lemma_vec_total_trs_congruence(a, b, n - 1);
    }
}

/// Two state vectors that agree on the states `lo .. n` accumulate the same
/// transition total over that range.
pub proof fn lemma_vec_total_trs_suffix_diff(
    a: Seq<VectorFstState>,
    b: Seq<VectorFstState>,
    lo: int,
    n: int,
)
    requires
        lo <= n,
        forall|s: int| lo <= s < n ==> a[s].trs@ == b[s].trs@,
    ensures
        vec_total_trs(a, n) - vec_total_trs(a, lo) == vec_total_trs(b, n) - vec_total_trs(b, lo),
    decreases n - lo,
{
    if n > lo {
        lemma_vec_total_trs_suffix_diff(a, b, lo, n - 1);
    }
}

/// Every stored transition stays in range and never carries the synthetic
/// sentinel `NoLabel`.
pub open spec fn states_wf(states: Seq<VectorFstState>) -> bool {
    forall|s: int, i: int|
        0 <= s < states.len() && 0 <= i < states[s].trs@.len() ==> {
            &&& (#[trigger] states[s].trs@[i]).nextstate < states.len()
            &&& states[s].trs@[i].ilabel != Label::NoLabel
            &&& states[s].trs@[i].olabel != Label::NoLabel
        }
}

/// Read access to a weighted automaton: per-state transition enumeration,
/// per-state final weight, and the start state. Implementations may be
/// backed by eager storage or by a lazily expanded result, so callers must
/// treat every accessor as potentially costly.
pub trait Fst: Sized {
    spec fn spec_num_states(&self) -> nat;

    spec fn spec_start(&self) -> Option<StateId>;

    spec fn spec_trs(&self, s: int) -> Seq<Tr>;

    spec fn spec_final_weight(&self, s: int) -> Option<Weight>;

    /// The total number of stored transitions, over all states.
    spec fn spec_num_arcs(&self) -> nat;

    /// Well-formed: the start state and every destination are in range, and
    /// the synthetic sentinel `NoLabel` is never stored.
    spec fn wf(&self) -> bool;

    proof fn lemma_wf(&self)
        requires
            self.wf(),
        ensures
            self.spec_start() matches Some(s) ==> s < self.spec_num_states(),
            forall|s: int, i: int|
                0 <= s < self.spec_num_states() && 0 <= i < self.spec_trs(s).len() ==> {
                    &&& (#[trigger] self.spec_trs(s)[i]).nextstate < self.spec_num_states()
                    &&& self.spec_trs(s)[i].ilabel != Label::NoLabel
                    &&& self.spec_trs(s)[i].olabel != Label::NoLabel
                };

    fn start(&self) -> (r: Option<StateId>)
        ensures
            r == self.spec_start(),
    ;

    fn num_trs(&self, s: StateId) -> (r: usize)
        requires
            self.wf(),
            s < self.spec_num_states(),
        ensures
            r == self.spec_trs(s as int).len(),
    ;

    fn trs(&self, s: StateId) -> (r: &Vec<Tr>)
        requires
            self.wf(),
            s < self.spec_num_states(),
        ensures
            r@ == self.spec_trs(s as int),
    ;

    fn final_weight(&self, s: StateId) -> (r: Option<Weight>)
        requires
            self.wf(),
            s < self.spec_num_states(),
        ensures
            r == self.spec_final_weight(s as int),
    ;

    fn is_final(&self, s: StateId) -> (r: bool)
        requires
            self.wf(),
            s < self.spec_num_states(),
        ensures
            r == (self.spec_final_weight(s as int) is Some),
    ;

    fn num_output_epsilons(&self, s: StateId) -> (r: usize)
        requires
            self.wf(),
            s < self.spec_num_states(),
        ensures
            r == count_output_eps(self.spec_trs(s as int)),
    ;

    fn num_input_epsilons(&self, s: StateId) -> (r: usize)
        requires
            self.wf(),
            s < self.spec_num_states(),
        ensures
            r == count_input_eps(self.spec_trs(s as int)),
    ;

    fn num_arcs(&self) -> (r: usize)
        requires
            self.wf(),
        ensures
            r == self.spec_num_arcs(),
    ;
}

/// Write access to an automaton under construction.
pub trait MutableFst: Fst {
    fn new() -> (r: Self)
        ensures
            r.wf(),
            r.spec_num_states() == 0,
            r.spec_num_arcs() == 0,
            r.spec_start() is None,
    ;

    fn set_start(&mut self, s: StateId)
        requires
            old(self).wf(),
            s < old(self).spec_num_states(),
        ensures
            final(self).wf(),
            final(self).spec_start() == Some(s),
            final(self).spec_num_states() == old(self).spec_num_states(),
            final(self).spec_num_arcs() == old(self).spec_num_arcs(),
            forall|t: int| #[trigger] final(self).spec_trs(t) == old(self).spec_trs(t),
            forall|t: int|
                #[trigger] final(self).spec_final_weight(t) == old(self).spec_final_weight(t),
    ;

    fn add_state(&mut self) -> (r: StateId)
        requires
            old(self).wf(),
            old(self).spec_num_states() < usize::MAX,
        ensures
            final(self).wf(),
            r == old(self).spec_num_states(),
            final(self).spec_num_states() == old(self).spec_num_states() + 1,
            final(self).spec_num_arcs() == old(self).spec_num_arcs(),
            final(self).spec_start() == old(self).spec_start(),
            final(self).spec_trs(r as int) == Seq::<Tr>::empty(),
            final(self).spec_final_weight(r as int) is None,
            forall|t: int| t != r ==> #[trigger] final(self).spec_trs(t) == old(self).spec_trs(t),
            forall|t: int|
                t != r ==> #[trigger] final(self).spec_final_weight(t) == old(
                    self,
                ).spec_final_weight(t),
    ;

    fn add_arc(&mut self, source: StateId, arc: Tr)
        requires
            old(self).wf(),
            source < old(self).spec_num_states(),
            arc.nextstate < old(self).spec_num_states(),
            arc.ilabel != Label::NoLabel,
            arc.olabel != Label::NoLabel,
            old(self).spec_num_arcs() < usize::MAX,
        ensures
            final(self).wf(),
            final(self).spec_num_states() == old(self).spec_num_states(),
            final(self).spec_num_arcs() == old(self).spec_num_arcs() + 1,
            final(self).spec_start() == old(self).spec_start(),
            final(self).spec_trs(source as int) == old(self).spec_trs(source as int).push(arc),
            forall|t: int|
                t != source ==> #[trigger] final(self).spec_trs(t) == old(self).spec_trs(t),
            forall|t: int|
                #[trigger] final(self).spec_final_weight(t) == old(self).spec_final_weight(t),
    ;

    fn set_final(&mut self, s: StateId, weight: Weight)
        requires
            old(self).wf(),
            s < old(self).spec_num_states(),
        ensures
            final(self).wf(),
            final(self).spec_num_states() == old(self).spec_num_states(),
            final(self).spec_num_arcs() == old(self).spec_num_arcs(),
            final(self).spec_start() == old(self).spec_start(),
            final(self).spec_final_weight(s as int) == Some(weight),
            forall|t: int| #[trigger] final(self).spec_trs(t) == old(self).spec_trs(t),
            forall|t: int|
                t != s ==> #[trigger] final(self).spec_final_weight(t) == old(
                    self,
                ).spec_final_weight(t),
    ;
}

/// An automaton whose state set is fully known, so it can be counted.
pub trait ExpandedFst: Fst {
    fn num_states(&self) -> (r: usize)
        requires
            self.wf(),
        ensures
            r == self.spec_num_states(),
    ;
}

/// One state of a [`VectorFst`]: its outgoing transitions and its final
/// weight, `None` when the state is not accepting.
pub struct VectorFstState {
    pub trs: Vec<Tr>,
    pub final_weight: Option<Weight>,
}

/// Eager, vector-backed automaton storage: state ids index the state vector.
pub struct VectorFst {
    pub states: Vec<VectorFstState>,
    pub start_state: Option<StateId>,
    pub n_arcs: usize,
}

impl Fst for VectorFst {
    open spec fn spec_num_states(&self) -> nat {
        self.states@.len()
    }

    open spec fn spec_start(&self) -> Option<StateId> {
        self.start_state
    }

    open spec fn spec_trs(&self, s: int) -> Seq<Tr> {
        if 0 <= s < self.states@.len() {
            self.states@[s].trs@
        } else {
            Seq::empty()
        }
    }

    open spec fn spec_final_weight(&self, s: int) -> Option<Weight> {
        if 0 <= s < self.states@.len() {
            self.states@[s].final_weight
        } else {
            None
        }
    }

    open spec fn spec_num_arcs(&self) -> nat {
        vec_total_trs(self.states@, self.states@.len() as int)
    }

    open spec fn wf(&self) -> bool {
        &&& (self.start_state matches Some(s) ==> s < self.spec_num_states())
        &&& states_wf(self.states@)
        &&& self.n_arcs == self.spec_num_arcs()
    }

    proof fn lemma_wf(&self) {
        assert forall|s: int, i: int|
            0 <= s < self.spec_num_states() && 0 <= i < self.spec_trs(s).len() implies {
            &&& (#[trigger] self.spec_trs(s)[i]).nextstate < self.spec_num_states()
            &&& self.spec_trs(s)[i].ilabel != Label::NoLabel
            &&& self.spec_trs(s)[i].olabel != Label::NoLabel
        } by {
            assert(self.states@[s].trs@[i].nextstate < self.states@.len());
        }
    }

    fn start(&self) -> (r: Option<StateId>) {
        self.start_state
    }

    fn num_trs(&self, s: StateId) -> (r: usize) {
        self.states[s].trs.len()
    }

    fn trs(&self, s: StateId) -> (r: &Vec<Tr>) {
        &self.states[s].trs
    }

    fn final_weight(&self, s: StateId) -> (r: Option<Weight>) {
        self.states[s].final_weight
    }

    fn is_final(&self, s: StateId) -> (r: bool) {
        self.states[s].final_weight.is_some()
    }

    fn num_output_epsilons(&self, s: StateId) -> (r: usize) {
        let trs = &self.states[s].trs;
        let mut count: usize = 0;
        let mut i: usize = 0;
        while i < trs.len()
            invariant
                i <= trs@.len(),
                count <= i,
                count == count_output_eps(trs@.take(i as int)),
            decreases trs@.len() - i,
        {
            proof {
                assert(trs@.take(i + 1).drop_last() =~= trs@.take(i as int));
                assert(trs@.take(i + 1).last() == trs@[i as int]);
            }
            if trs[i].olabel == Label::Eps {
                count = count + 1;
            }
            i = i + 1;
        }
        proof {
            assert(trs@.take(trs@.len() as int) =~= trs@);
        }
        count
    }

    fn num_input_epsilons(&self, s: StateId) -> (r: usize) {
        let trs = &self.states[s].trs;
        let mut count: usize = 0;
        let mut i: usize = 0;
        while i < trs.len()
            invariant
                i <= trs@.len(),
                count <= i,
                count == count_input_eps(trs@.take(i as int)),
            decreases trs@.len() - i,
        {
            proof {
                assert(trs@.take(i + 1).drop_last() =~= trs@.take(i as int));
                assert(trs@.take(i + 1).last() == trs@[i as int]);
            }
            if trs[i].ilabel == Label::Eps {
                count = count + 1;
            }
            i = i + 1;
        }
        proof {
            assert(trs@.take(trs@.len() as int) =~= trs@);
        }
        count
    }

    fn num_arcs(&self) -> (r: usize) {
        self.n_arcs
    }
}

impl MutableFst for VectorFst {
    fn new() -> (r: Self) {
        VectorFst { states: Vec::new(), start_state: None, n_arcs: 0 }
    }

    fn set_start(&mut self, s: StateId) {
        self.start_state = Some(s);
    }

    fn add_state(&mut self) -> (r: StateId) {
        let r = self.states.len();
        self.states.push(VectorFstState { trs: Vec::new(), final_weight: None });
        proof {
            lemma_vec_total_trs_congruence(self.states@, old(self).states@, r as int);
            assert(self.spec_trs(r as int) =~= Seq::<Tr>::empty());
            assert forall|s: int, i: int|
                0 <= s < self.states@.len() && 0 <= i < self.states@[s].trs@.len() implies {
                &&& (#[trigger] self.states@[s].trs@[i]).nextstate < self.states@.len()
                &&& self.states@[s].trs@[i].ilabel != Label::NoLabel
                &&& self.states@[s].trs@[i].olabel != Label::NoLabel
            } by {
                assert(s < old(self).states@.len());
                assert(self.states@[s] == old(self).states@[s]);
                assert(old(self).states@[s].trs@[i].nextstate < old(self).states@.len());
            }
        }
        r
    }

    fn add_arc(&mut self, source: StateId, arc: Tr) {
        self.states[source].trs.push(arc);
        self.n_arcs = self.n_arcs + 1;
        proof {
            let n = self.states@.len() as int;
            lemma_vec_total_trs_congruence(self.states@, old(self).states@, source as int);
            lemma_vec_total_trs_suffix_diff(
                self.states@,
                old(self).states@,
                source as int + 1,
                n,
            );
            assert(vec_total_trs(self.states@, source as int + 1) == vec_total_trs(
                self.states@,
                source as int,
            ) + self.states@[source as int].trs@.len());
            assert(vec_total_trs(old(self).states@, source as int + 1) == vec_total_trs(
                old(self).states@,
                source as int,
            ) + old(self).states@[source as int].trs@.len());
            assert forall|s: int, i: int|
                0 <= s < self.states@.len() && 0 <= i < self.states@[s].trs@.len() implies {
                &&& (#[trigger] self.states@[s].trs@[i]).nextstate < self.states@.len()
                &&& self.states@[s].trs@[i].ilabel != Label::NoLabel
                &&& self.states@[s].trs@[i].olabel != Label::NoLabel
            } by {
                if s == source as int && i == old(self).states@[s].trs@.len() {
                    assert(self.states@[s].trs@[i] == arc);
                } else {
                    assert(self.states@[s].trs@[i] == old(self).states@[s].trs@[i]);
                    assert(old(self).states@[s].trs@[i].nextstate < old(self).states@.len());
                }
            }
        }
    }

    fn set_final(&mut self, s: StateId, weight: Weight) {
        self.states[s].final_weight = Some(weight);
        proof {
            lemma_vec_total_trs_congruence(
                self.states@,
                old(self).states@,
                self.states@.len() as int,
            );
            assert forall|t: int, i: int|
                0 <= t < self.states@.len() && 0 <= i < self.states@[t].trs@.len() implies {
                &&& (#[trigger] self.states@[t].trs@[i]).nextstate < self.states@.len()
                &&& self.states@[t].trs@[i].ilabel != Label::NoLabel
                &&& self.states@[t].trs@[i].olabel != Label::NoLabel
            } by {
                assert(self.states@[t].trs@ == old(self).states@[t].trs@);
                assert(old(self).states@[t].trs@[i].nextstate < old(self).states@.len());
            }
        }
    }
}

impl ExpandedFst for VectorFst {
    fn num_states(&self) -> (r: usize) {
        self.states.len()
    }
}

} // verus!
