use vstd::prelude::*;
use crate::error::FstError;
use crate::fst::{Fst, MutableFst, ExpandedFst};
use crate::semiring::Weight;
use crate::tr::{Tr, Label, StateId};

verus! {

/// The epsilon transition that closes a path: from a final state back to
/// the start state, consuming and emitting nothing, at the multiplicative
/// identity.
pub open spec fn spec_closure_arc(start: StateId) -> Tr {
    Tr { ilabel: Label::Eps, olabel: Label::Eps, weight: Weight::spec_one(), nextstate: start }
}

/// Concatenative closure: if the automaton transduces `x` to `y` with
/// weight `a`, afterwards it also transduces `xx` to `yy` with weight
/// `a ⊗ a`, and so on, by an epsilon transition from each final state back
/// to the start state. An automaton without a start state is unchanged.
pub fn closure_plus<F: MutableFst + ExpandedFst>(fst: &mut F) -> (r: Result<(), FstError>)
    requires
        old(fst).wf(),
        old(fst).spec_num_arcs() + old(fst).spec_num_states() <= usize::MAX,
    ensures
        r is Ok,
        old(fst).spec_start() is None ==> *final(fst) == *old(fst),
        old(fst).spec_start() matches Some(start) ==> {
            &&& final(fst).wf()
            &&& final(fst).spec_num_states() == old(fst).spec_num_states()
            &&& final(fst).spec_start() == old(fst).spec_start()
            &&& forall|s: int|
                #[trigger] final(fst).spec_final_weight(s) == old(fst).spec_final_weight(s)
            &&& forall|s: int|
                0 <= s < old(fst).spec_num_states() ==> #[trigger] final(fst).spec_trs(s) == if old(
                    fst,
                ).spec_final_weight(s) is Some {
                    old(fst).spec_trs(s).push(spec_closure_arc(start))
                } else {
                    old(fst).spec_trs(s)
                }
        },
{
    let start_opt = fst.start();
    let start = match start_opt {
        Some(start) => start,
        None => {
            return Ok(());
        },
    };
    proof {
        fst.lemma_wf();
    }
    let n = fst.num_states();

    let mut final_states: Vec<StateId> = Vec::new();
    let mut s: usize = 0;
    while s < n
        invariant
            fst.wf(),
            *fst == *old(fst),
            n == fst.spec_num_states(),
            s <= n,
            final_states@.len() <= s,
            forall|idx: int|
                0 <= idx < final_states@.len() ==> (#[trigger] final_states@[idx]) < s
                    && fst.spec_final_weight(final_states@[idx] as int) is Some,
            forall|idx1: int, idx2: int|
                0 <= idx1 < idx2 < final_states@.len() ==> final_states@[idx1]
                    < final_states@[idx2],
            forall|w: int|
                0 <= w < s && fst.spec_final_weight(w) is Some ==> final_states@.contains(
                    w as StateId,
                ),
        decreases n - s,
    {
        let ghost before = final_states@;
        if fst.is_final(s) {
            final_states.push(s);
        }
        proof {
            assert forall|w: int|
                0 <= w < s + 1 && fst.spec_final_weight(w) is Some implies final_states@.contains(
            w as StateId) by {
                if w < s {
                    let idx = choose|idx: int|
                        0 <= idx < before.len() && before[idx] == w as StateId;
                    assert(final_states@[idx] == w as StateId);
                } else {
                    assert(final_states@[final_states@.len() - 1] == w as StateId);
                }
            }
        }
        s = s + 1;
    }

    let arc = Tr::new(Label::Eps, Label::Eps, Weight::one(), start);
    let mut j: usize = 0;
    while j < final_states.len()
        invariant
            fst.wf(),
            arc == spec_closure_arc(start),
            n == fst.spec_num_states(),
            n == old(fst).spec_num_states(),
            j <= final_states@.len(),
            final_states@.len() <= n,
            fst.spec_start() == old(fst).spec_start(),
            old(fst).spec_start() == Some(start),
            start < n,
            fst.spec_num_arcs() == old(fst).spec_num_arcs() + j,
            old(fst).spec_num_arcs() + n <= usize::MAX,
            forall|t: int| #[trigger] fst.spec_final_weight(t) == old(fst).spec_final_weight(t),
            forall|idx: int|
                0 <= idx < final_states@.len() ==> (#[trigger] final_states@[idx]) < n && old(
                    fst,
                ).spec_final_weight(final_states@[idx] as int) is Some,
            forall|idx1: int, idx2: int|
                0 <= idx1 < idx2 < final_states@.len() ==> final_states@[idx1]
                    < final_states@[idx2],
            forall|w: int|
                0 <= w < n && old(fst).spec_final_weight(w) is Some ==> final_states@.contains(
                    w as StateId,
                ),
            forall|idx: int|
                0 <= idx < j ==> #[trigger] fst.spec_trs(final_states@[idx] as int) == old(
                    fst,
                ).spec_trs(final_states@[idx] as int).push(spec_closure_arc(start)),
            forall|t: int|
                (forall|idx: int| 0 <= idx < j ==> t != final_states@[idx])
                    ==> #[trigger] fst.spec_trs(t) == old(fst).spec_trs(t),
        decreases final_states@.len() - j,
    {
        let f = final_states[j];
        proof {
            assert forall|idx: int| 0 <= idx < j implies f != final_states@[idx] by {
                assert(final_states@[idx] < final_states@[j as int]);
            }
        }
        fst.add_arc(f, arc);
        j = j + 1;
    }
    proof {
        assert forall|t: int|
            0 <= t < n implies #[trigger] fst.spec_trs(t) == if old(fst).spec_final_weight(t)
            is Some {
            old(fst).spec_trs(t).push(spec_closure_arc(start))
        } else {
            old(fst).spec_trs(t)
        } by {
            if old(fst).spec_final_weight(t) is Some {
                assert(final_states@.contains(t as StateId));
                let idx = choose|idx: int|
                    0 <= idx < final_states@.len() && final_states@[idx] == t as StateId;
                assert(fst.spec_trs(final_states@[idx] as int) == old(fst).spec_trs(
                    final_states@[idx] as int,
                ).push(spec_closure_arc(start)));
            } else {
                assert forall|idx: int|
                    0 <= idx < final_states@.len() implies t != final_states@[idx] by {
                    assert(old(fst).spec_final_weight(final_states@[idx] as int) is Some);
                }
            }
        }
    }
    Ok(())
}

} // verus!
