use vstd::prelude::*;
use crate::error::FstError;
use crate::fst::{Fst, ExpandedFst, VectorFst, VectorFstState};
use crate::tr::{Tr, StateId};

verus! {

/// `order` is a topological order for `fst`: it assigns every state a rank
/// below the state count, distinct states get distinct ranks, and every
/// transition leads from a lower rank to a strictly higher one.
pub open spec fn is_top_order(order: Seq<StateId>, fst: VectorFst) -> bool {
    let n = fst.spec_num_states() as int;
    &&& order.len() == n
    &&& forall|s: int| 0 <= s < n ==> (#[trigger] order[s]) < n
    &&& forall|s1: int, s2: int|
        0 <= s1 < n && 0 <= s2 < n && s1 != s2 ==> order[s1] != order[s2]
    &&& forall|s: int, i: int|
        0 <= s < n && 0 <= i < fst.spec_trs(s).len() ==> (order[s] as int) < (order[(
        #[trigger] fst.spec_trs(s)[i]).nextstate as int] as int)
}

/// How many of the first `upto` transitions of `trs` lead into `v`.
pub open spec fn count_into(trs: Seq<Tr>, v: int, upto: int) -> nat
    decreases upto,
{
    if upto <= 0 {
        0
    } else {
        count_into(trs, v, upto - 1) + if trs[upto - 1].nextstate == v {
            1nat
        } else {
            0nat
        }
    }
}

/// How many transitions into `v` leave a not-yet-processed state among the
/// states `0 .. upto`.
pub open spec fn live_in_deg(states: Seq<VectorFstState>, done: Seq<bool>, v: int, upto: int) -> nat
    decreases upto,
{
    if upto <= 0 {
        0
    } else {
        live_in_deg(states, done, v, upto - 1) + if !done[upto - 1] {
            count_into(states[upto - 1].trs@, v, states[upto - 1].trs@.len() as int)
        } else {
            0nat
        }
    }
}

/// How many of the first `upto` entries of `done` are set.
pub open spec fn count_trues(done: Seq<bool>, upto: int) -> nat
    decreases upto,
{
    if upto <= 0 {
        0
    } else {
        count_trues(done, upto - 1) + if done[upto - 1] {
            1nat
        } else {
            0nat
        }
    }
}

proof fn lemma_count_into_le(trs: Seq<Tr>, v: int, upto: int)
    ensures
        count_into(trs, v, upto) <= if upto <= 0 {
            0
        } else {
            upto as nat
        },
    decreases upto,
{
    if upto > 0 {
        lemma_count_into_le(trs, v, upto - 1);
    }
}

proof fn lemma_count_into_monotone(trs: Seq<Tr>, v: int, a: int, b: int)
    requires
        a <= b,
    ensures
        count_into(trs, v, a) <= count_into(trs, v, b),
    decreases b - a,
{
    if b > a {
        lemma_count_into_monotone(trs, v, a, b - 1);
    }
}

proof fn lemma_count_trues_le(done: Seq<bool>, upto: int)
    ensures
        count_trues(done, upto) <= if upto <= 0 {
            0
        } else {
            upto as nat
        },
    decreases upto,
{
    if upto > 0 {
        lemma_count_trues_le(done, upto - 1);
    }
}

proof fn lemma_count_trues_all(done: Seq<bool>, upto: int)
    requires
        count_trues(done, upto) == upto,
    ensures
        forall|i: int| 0 <= i < upto ==> done[i],
    decreases upto,
{
    if upto > 0 {
        lemma_count_trues_le(done, upto - 1);
        lemma_count_trues_all(done, upto - 1);
    }
}

proof fn lemma_count_trues_none(done: Seq<bool>, upto: int)
    requires
        forall|i: int| 0 <= i < upto ==> !done[i],
    ensures
        count_trues(done, upto) == 0,
    decreases upto,
{
    if upto > 0 {
        lemma_count_trues_none(done, upto - 1);
    }
}

proof fn lemma_count_trues_lt_if_false(done: Seq<bool>, v: int, upto: int)
    requires
        0 <= v < upto,
        !done[v],
    ensures
        count_trues(done, upto) < upto,
    decreases upto,
{
    if v == upto - 1 {
        lemma_count_trues_le(done, upto - 1);
    } else {
        lemma_count_trues_lt_if_false(done, v, upto - 1);
    }
}

proof fn lemma_count_trues_flip(done: Seq<bool>, v: int, upto: int)
    requires
        0 <= v < done.len(),
        upto <= done.len(),
        !done[v],
    ensures
        count_trues(done.update(v, true), upto) == count_trues(done, upto) + if v < upto {
            1int
        } else {
            0int
        },
    decreases upto,
{
    if upto > 0 {
        lemma_count_trues_flip(done, v, upto - 1);
    }
}

proof fn lemma_live_flip(states: Seq<VectorFstState>, done: Seq<bool>, v: int, w: int, upto: int)
    requires
        0 <= v < done.len(),
        upto <= done.len(),
        !done[v],
    ensures
        live_in_deg(states, done.update(v, true), w, upto) == live_in_deg(states, done, w, upto)
            - if v < upto {
            count_into(states[v].trs@, w, states[v].trs@.len() as int) as int
        } else {
            0int
        },
    decreases upto,
{
    if upto > 0 {
        lemma_live_flip(states, done, v, w, upto - 1);
    }
}

proof fn lemma_live_monotone(
    states: Seq<VectorFstState>,
    d1: Seq<bool>,
    d2: Seq<bool>,
    w: int,
    upto: int,
)
    requires
        forall|i: int| 0 <= i < upto ==> (d1[i] ==> d2[i]),
    ensures
        live_in_deg(states, d2, w, upto) <= live_in_deg(states, d1, w, upto),
    decreases upto,
{
    if upto > 0 {
        lemma_live_monotone(states, d1, d2, w, upto - 1);
    }
}

/// A transition into `w` from a live state below `upto` keeps `w`'s live
/// in-degree positive.
proof fn lemma_live_edge_pos(
    states: Seq<VectorFstState>,
    done: Seq<bool>,
    u: int,
    i: int,
    w: int,
    upto: int,
)
    requires
        0 <= u < upto,
        !done[u],
        0 <= i < states[u].trs@.len(),
        states[u].trs@[i].nextstate == w,
    ensures
        live_in_deg(states, done, w, upto) >= 1,
    decreases upto,
{
    if u == upto - 1 {
        lemma_count_into_monotone(states[u].trs@, w, i + 1, states[u].trs@.len() as int);
        lemma_count_into_ge_one(states[u].trs@, w, i);
    } else {
        lemma_live_edge_pos(states, done, u, i, w, upto - 1);
    }
}

proof fn lemma_count_into_ge_one(trs: Seq<Tr>, w: int, i: int)
    requires
        0 <= i < trs.len(),
        trs[i].nextstate == w,
    ensures
        count_into(trs, w, i + 1) >= 1,
{
    lemma_count_into_monotone(trs, w, 0, i);
}

/// A positive live in-degree names a live source state and a transition.
proof fn lemma_live_pos_witness(states: Seq<VectorFstState>, done: Seq<bool>, w: int, upto: int)
    requires
        live_in_deg(states, done, w, upto) >= 1,
    ensures
        exists|u: int, i: int|
            0 <= u < upto && !done[u] && 0 <= i < states[u].trs@.len() && (
            #[trigger] states[u].trs@[i]).nextstate == w,
    decreases upto,
{
    if upto > 0 {
        if !done[upto - 1] && count_into(
            states[upto - 1].trs@,
            w,
            states[upto - 1].trs@.len() as int,
        ) >= 1 {
            lemma_count_pos_witness(states[upto - 1].trs@, w, states[upto - 1].trs@.len() as int);
            let i = choose|i: int|
                0 <= i < states[upto - 1].trs@.len() && (#[trigger] states[upto - 1].trs@[i]).nextstate
                    == w;
            assert(0 <= upto - 1 < upto && !done[upto - 1] && 0 <= i < states[upto
                - 1].trs@.len() && states[upto - 1].trs@[i].nextstate == w);
        } else {
            lemma_live_pos_witness(states, done, w, upto - 1);
            let (u, i) = choose|u: int, i: int|
                0 <= u < upto - 1 && !done[u] && 0 <= i < states[u].trs@.len() && (
                #[trigger] states[u].trs@[i]).nextstate == w;
            assert(0 <= u < upto && !done[u] && 0 <= i < states[u].trs@.len()
                && states[u].trs@[i].nextstate == w);
        }
    }
}

proof fn lemma_count_pos_witness(trs: Seq<Tr>, w: int, upto: int)
    requires
        count_into(trs, w, upto) >= 1,
        upto <= trs.len(),
    ensures
        exists|i: int| 0 <= i < trs.len() && (#[trigger] trs[i]).nextstate == w,
    decreases upto,
{
    if upto > 0 {
        if trs[upto - 1].nextstate == w {
            assert(0 <= upto - 1 < trs.len() && trs[upto - 1].nextstate == w);
        } else {
            lemma_count_pos_witness(trs, w, upto - 1);
        }
    }
}

/// The live in-degree never exceeds the transition total.
proof fn lemma_live_le_total(states: Seq<VectorFstState>, done: Seq<bool>, w: int, upto: int)
    ensures
        live_in_deg(states, done, w, upto) <= crate::fst::vec_total_trs(states, upto),
    decreases upto,
{
    if upto > 0 {
        lemma_live_le_total(states, done, w, upto - 1);
        lemma_count_into_le(states[upto - 1].trs@, w, states[upto - 1].trs@.len() as int);
    }
}

/// In a graph where every live state keeps a live in-neighbour, a
/// topological order must give every live state a rank of at least `k`,
/// for every `k`: following in-neighbours descends ranks forever.
proof fn lemma_live_rank_ge(fst: VectorFst, done: Seq<bool>, ord: Seq<StateId>, k: int)
    requires
        is_top_order(ord, fst),
        done.len() == fst.spec_num_states(),
        forall|w: int|
            0 <= w < fst.spec_num_states() && !done[w] ==> live_in_deg(
                fst.states@,
                done,
                w,
                fst.spec_num_states() as int,
            ) >= 1,
        k >= 0,
    ensures
        forall|v: int|
            0 <= v < fst.spec_num_states() && !done[v] ==> (#[trigger] ord[v]) as int >= k,
    decreases k,
{
    let n = fst.spec_num_states() as int;
    if k > 0 {
        lemma_live_rank_ge(fst, done, ord, k - 1);
        assert forall|v: int|
            0 <= v < n && !done[v] implies (#[trigger] ord[v]) as int >= k by {
            lemma_live_pos_witness(fst.states@, done, v, n);
            let (u, i) = choose|u: int, i: int|
                0 <= u < n && !done[u] && 0 <= i < fst.states@[u].trs@.len() && (
                #[trigger] fst.states@[u].trs@[i]).nextstate == v;
            assert(fst.spec_trs(u)[i] == fst.states@[u].trs@[i]);
            assert((ord[u] as int) < (ord[v] as int));
            assert((ord[u] as int) >= k - 1);
        }
    }
}

/// Depth-ordered ranking of an acyclic graph by repeatedly retiring states
/// with no remaining incoming transition. Returns a topological order when
/// one exists; reports the cycle otherwise, rather than producing a partial
/// or wrong order.
pub fn top_sort(fst: &VectorFst) -> (r: Result<Vec<StateId>, FstError>)
    requires
        fst.wf(),
    ensures
        r matches Ok(order) ==> is_top_order(order@, *fst),
        r is Err ==> !(exists|order: Seq<StateId>| is_top_order(order, *fst)),
        r is Err ==> r == Err::<Vec<StateId>, FstError>(FstError::CyclicTopology),
{
    let n = fst.num_states();
    let ghost states = fst.states@;
    let total = fst.num_arcs();

    // indeg[v] = number of transitions into v from live (unprocessed) states
    let mut indeg: Vec<usize> = Vec::new();
    while indeg.len() < n
        invariant
            indeg@.len() <= n,
            forall|w: int| 0 <= w < indeg@.len() ==> (#[trigger] indeg@[w]) == 0,
        decreases n - indeg@.len(),
    {
        indeg.push(0);
    }

    let ghost falses = Seq::<bool>::new(n as nat, |i: int| false);

    let mut u: usize = 0;
    while u < n
        invariant
            fst.wf(),
            n == fst.spec_num_states(),
            states == fst.states@,
            falses == Seq::<bool>::new(n as nat, |i: int| false),
            total == fst.spec_num_arcs(),
            u <= n,
            indeg@.len() == n,
            forall|w: int|
                0 <= w < n ==> (#[trigger] indeg@[w]) == live_in_deg(states, falses, w, u as int),
        decreases n - u,
    {
        let trs = fst.trs(u);
        let mut i: usize = 0;
        while i < trs.len()
            invariant
                fst.wf(),
                n == fst.spec_num_states(),
                states == fst.states@,
                falses == Seq::<bool>::new(n as nat, |i: int| false),
                total == fst.spec_num_arcs(),
                u < n,
                trs@ == states[u as int].trs@,
                i <= trs@.len(),
                indeg@.len() == n,
                forall|w: int|
                    0 <= w < n ==> (#[trigger] indeg@[w]) == live_in_deg(states, falses, w, u as int)
                        + count_into(states[u as int].trs@, w, i as int),
            decreases trs@.len() - i,
        {
            let d = trs[i].nextstate;
            proof {
                lemma_live_le_total(states, falses, d as int, u as int);
                lemma_count_into_le(states[u as int].trs@, d as int, i as int);
                lemma_total_prefix(states, u as int + 1, n as int);
                assert(crate::fst::vec_total_trs(states, u as int + 1) == crate::fst::vec_total_trs(
                    states,
                    u as int,
                ) + states[u as int].trs@.len());
            }
            indeg[d] = indeg[d] + 1;
            i = i + 1;
        }
        u = u + 1;
    }

    // order[v] = rank of v once retired; done[v] = v already retired
    let mut order: Vec<StateId> = Vec::new();
    while order.len() < n
        invariant
            order@.len() <= n,
            forall|w: int| 0 <= w < order@.len() ==> (#[trigger] order@[w]) == 0,
        decreases n - order@.len(),
    {
        order.push(0);
    }
    let mut done: Vec<bool> = Vec::new();
    while done.len() < n
        invariant
            done@.len() <= n,
            forall|w: int| 0 <= w < done@.len() ==> !(#[trigger] done@[w]),
        decreases n - done@.len(),
    {
        done.push(false);
    }

    let mut worklist: Vec<StateId> = Vec::new();
    let mut v0: usize = 0;
    while v0 < n
        invariant
            v0 <= n,
            indeg@.len() == n,
            forall|idx: int|
                0 <= idx < worklist@.len() ==> (#[trigger] worklist@[idx]) < v0 && indeg@[worklist@[idx] as int]
                    == 0,
            forall|i1: int, i2: int|
                0 <= i1 < i2 < worklist@.len() ==> worklist@[i1] != worklist@[i2],
            forall|w: int|
                0 <= w < v0 && indeg@[w] == 0 ==> worklist@.contains(w as StateId),
        decreases n - v0,
    {
        let ghost wl_before = worklist@;
        if indeg[v0] == 0 {
            proof {
                assert forall|i1: int|
                    0 <= i1 < worklist@.len() implies worklist@[i1] != v0 as StateId by {
                    assert(worklist@[i1] < v0);
                }
            }
            worklist.push(v0);
            proof {
                assert forall|w: int|
                    0 <= w < v0 + 1 && indeg@[w] == 0 implies worklist@.contains(
                    w as StateId,
                ) by {
                    if w < v0 {
                        let idx = choose|idx: int|
                            0 <= idx < wl_before.len() && wl_before[idx] == w as StateId;
                        assert(worklist@[idx] == w as StateId);
                    } else {
                        assert(worklist@[worklist@.len() - 1] == v0 as StateId);
                    }
                }
            }
        }
        v0 = v0 + 1;
    }

    let mut next_rank: usize = 0;

    proof {
        lemma_live_falses(states, done@, falses, n as int);
        lemma_count_trues_none(done@, n as int);
    }

    while worklist.len() > 0
        invariant
            fst.wf(),
            n == fst.spec_num_states(),
            states == fst.states@,
            indeg@.len() == n,
            done@.len() == n,
            order@.len() == n,
            next_rank == count_trues(done@, n as int),
            next_rank <= n,
            forall|w: int| 0 <= w < n && done@[w] ==> (#[trigger] order@[w]) < next_rank,
            forall|w1: int, w2: int|
                0 <= w1 < n && 0 <= w2 < n && w1 != w2 && done@[w1] && done@[w2] ==> order@[w1]
                    != order@[w2],
            forall|w: int|
                0 <= w < n && !done@[w] ==> (#[trigger] indeg@[w]) == live_in_deg(
                    states,
                    done@,
                    w,
                    n as int,
                ),
            forall|w: int|
                0 <= w < n && done@[w] ==> live_in_deg(states, done@, w, n as int) == 0,
            forall|uu: int, i: int|
                0 <= uu < n && done@[uu] && 0 <= i < states[uu].trs@.len() && done@[(
                #[trigger] states[uu].trs@[i]).nextstate as int] ==> (order@[uu] as int) < (
                order@[states[uu].trs@[i].nextstate as int] as int),
            forall|idx: int|
                0 <= idx < worklist@.len() ==> (#[trigger] worklist@[idx]) < n
                    && !done@[worklist@[idx] as int] && indeg@[worklist@[idx] as int] == 0,
            forall|i1: int, i2: int|
                0 <= i1 < i2 < worklist@.len() ==> worklist@[i1] != worklist@[i2],
            forall|w: int|
                0 <= w < n && !done@[w] && indeg@[w] == 0 ==> worklist@.contains(w as StateId),
        decreases n - next_rank,
    {
        let ghost wl0 = worklist@;
        let v = worklist.pop().unwrap();
        let ghost done_before = done@;

        proof {
            assert(v == wl0[wl0.len() - 1]);
            assert(worklist@ == wl0.subrange(0, wl0.len() - 1));
            lemma_count_trues_lt_if_false(done@, v as int, n as int);
            lemma_count_trues_flip(done@, v as int, n as int);
            // all transitions into v leave already-retired states
            assert forall|uu: int, i: int|
                0 <= uu < n && !done_before[uu] && 0 <= i < states[uu].trs@.len() implies (
            #[trigger] states[uu].trs@[i]).nextstate != v by {
                if states[uu].trs@[i].nextstate == v {
                    lemma_live_edge_pos(states, done_before, uu, i, v as int, n as int);
                }
            }
        }

        done[v] = true;
        order[v] = next_rank;
        next_rank = next_rank + 1;

        proof {
            // retiring v keeps every retired state's live in-degree at zero
            assert forall|d: int|
                0 <= d < n && done@[d] implies live_in_deg(states, done@, d, n as int) == 0 by {
                assert(done@ == done_before.update(v as int, true));
                lemma_live_monotone(states, done_before, done@, d, n as int);
                if d == v as int {
                    assert(live_in_deg(states, done_before, d, n as int) == 0);
                }
            }
            // and the edge-order property extends to the pairs involving v
            assert forall|uu: int, i: int|
                0 <= uu < n && done@[uu] && 0 <= i < states[uu].trs@.len() && done@[(
                #[trigger] states[uu].trs@[i]).nextstate as int] implies (order@[uu] as int) < (
            order@[states[uu].trs@[i].nextstate as int] as int) by {
                let d = states[uu].trs@[i].nextstate as int;
                if uu == v as int {
                    if d == v as int {
                        assert(false);
                    } else {
                        assert(done_before[d]);
                        assert(live_in_deg(states, done_before, d, n as int) == 0);
                        lemma_live_edge_pos(states, done_before, uu, i, d, n as int);
                        assert(false);
                    }
                } else {
                    assert(done_before[uu]);
                }
            }
            // the remaining worklist entries are still live with zero degree
            assert forall|idx: int|
                0 <= idx < worklist@.len() implies (#[trigger] worklist@[idx]) < n
                && !done@[worklist@[idx] as int] && indeg@[worklist@[idx] as int] == 0 by {
                assert(worklist@[idx] == wl0[idx]);
                assert(wl0[idx] != wl0[wl0.len() - 1]);
            }
            // v has no self-loop: a transition from the still-live v into v
            // would contradict its zero live in-degree
            assert forall|ii: int|
                0 <= ii < states[v as int].trs@.len() implies (
            #[trigger] states[v as int].trs@[ii]).nextstate != v by {}
        }

        let ghost done_new = done@;
        let trs = fst.trs(v);
        let mut i: usize = 0;
        proof {
            assert forall|w: int|
                0 <= w < n && !done_new[w] implies (#[trigger] indeg@[w]) as int == live_in_deg(
                states,
                done_new,
                w,
                n as int,
            ) + count_into(states[v as int].trs@, w, states[v as int].trs@.len() as int)
                - count_into(states[v as int].trs@, w, 0) by {
                lemma_live_flip(states, done_before, v as int, w, n as int);
            }
            assert forall|w: int|
                0 <= w < n && !done@[w] && indeg@[w] == 0 implies worklist@.contains(
            w as StateId) by {
                assert(!done_before[w]);
                assert(wl0.contains(w as StateId));
                let idx = choose|idx: int| 0 <= idx < wl0.len() && wl0[idx] == w as StateId;
                assert(w != v as int);
                assert(idx != wl0.len() - 1);
                assert(worklist@[idx] == w as StateId);
            }
        }
        while i < trs.len()
            invariant
                fst.wf(),
                n == fst.spec_num_states(),
                states == fst.states@,
                v < n,
                done_new == done@,
                done@.len() == n,
                order@.len() == n,
                indeg@.len() == n,
                trs@ == states[v as int].trs@,
                i <= trs@.len(),
                done@[v as int],
                done_before.len() == n,
                !done_before[v as int],
                done@ == done_before.update(v as int, true),
                forall|dd: int|
                    0 <= dd < n && done_before[dd] ==> live_in_deg(states, done_before, dd, n as int)
                        == 0,
                forall|ii: int|
                    0 <= ii < states[v as int].trs@.len() ==> (
                    #[trigger] states[v as int].trs@[ii]).nextstate != v,
                next_rank == count_trues(done@, n as int),
                next_rank <= n,
                forall|w: int| 0 <= w < n && done@[w] ==> (#[trigger] order@[w]) < next_rank,
                forall|w1: int, w2: int|
                    0 <= w1 < n && 0 <= w2 < n && w1 != w2 && done@[w1] && done@[w2] ==> order@[w1]
                        != order@[w2],
                forall|w: int|
                    0 <= w < n && !done@[w] ==> (#[trigger] indeg@[w]) as int == live_in_deg(
                        states,
                        done@,
                        w,
                        n as int,
                    ) + count_into(states[v as int].trs@, w, states[v as int].trs@.len() as int)
                        - count_into(states[v as int].trs@, w, i as int),
                forall|w: int|
                    0 <= w < n && done@[w] ==> live_in_deg(states, done@, w, n as int) == 0,
                forall|uu: int, ii: int|
                    0 <= uu < n && done@[uu] && 0 <= ii < states[uu].trs@.len() && done@[(
                    #[trigger] states[uu].trs@[ii]).nextstate as int] ==> (order@[uu] as int) < (
                    order@[states[uu].trs@[ii].nextstate as int] as int),
                forall|idx: int|
                    0 <= idx < worklist@.len() ==> (#[trigger] worklist@[idx]) < n
                        && !done@[worklist@[idx] as int] && indeg@[worklist@[idx] as int] == 0,
                forall|i1: int, i2: int|
                    0 <= i1 < i2 < worklist@.len() ==> worklist@[i1] != worklist@[i2],
                forall|w: int|
                    0 <= w < n && !done@[w] && indeg@[w] == 0 ==> worklist@.contains(w as StateId),
            decreases trs@.len() - i,
        {
            let d = trs[i].nextstate;
            proof {
                fst.lemma_wf();
                lemma_count_into_monotone(
                    states[v as int].trs@,
                    d as int,
                    i as int + 1,
                    states[v as int].trs@.len() as int,
                );
                lemma_count_into_ge_one(states[v as int].trs@, d as int, i as int);
                assert(!done@[d as int]) by {
                    assert(d != v);
                    if done@[d as int] {
                        assert(done_before[d as int]);
                        lemma_live_edge_pos(
                            states,
                            done_before,
                            v as int,
                            i as int,
                            d as int,
                            n as int,
                        );
                    }
                }
            }
            let ghost indeg_before = indeg@;
            let ghost wl_before = worklist@;
            indeg[d] = indeg[d] - 1;
            if indeg[d] == 0 {
                proof {
                    assert forall|i1: int|
                        0 <= i1 < worklist@.len() implies worklist@[i1] != d by {
                        assert(indeg_before[worklist@[i1] as int] == 0);
                        assert(indeg_before[d as int] >= 1);
                    }
                }
                worklist.push(d);
                proof {
                    assert forall|w: int|
                        0 <= w < n && !done@[w] && indeg@[w] == 0 implies worklist@.contains(
                    w as StateId) by {
                        if w == d as int {
                            assert(worklist@[worklist@.len() - 1] == d);
                        } else {
                            assert(indeg_before[w] == 0);
                            let idx = choose|idx: int|
                                0 <= idx < wl_before.len() && wl_before[idx] == w as StateId;
                            assert(worklist@[idx] == w as StateId);
                        }
                    }
                }
            } else {
                proof {
                    assert forall|w: int|
                        0 <= w < n && !done@[w] && indeg@[w] == 0 implies worklist@.contains(
                    w as StateId) by {
                        assert(w != d as int);
                        assert(indeg_before[w] == 0);
                    }
                }
            }
            i = i + 1;
        }
        proof {
            assert(count_into(states[v as int].trs@, 0, 0) == 0);
        }
    }

    if next_rank == n {
        proof {
            lemma_count_trues_all(done@, n as int);
            assert forall|s: int, i: int|
                0 <= s < n && 0 <= i < fst.spec_trs(s).len() implies (order@[s] as int) < (order@[(
            #[trigger] fst.spec_trs(s)[i]).nextstate as int] as int) by {
                fst.lemma_wf();
                assert(fst.spec_trs(s)[i] == states[s].trs@[i]);
                assert(done@[s] && done@[fst.spec_trs(s)[i].nextstate as int]);
            }
        }
        Ok(order)
    } else {
        proof {
            assert(exists|w: int| 0 <= w < n && !done@[w]) by {
                if forall|w: int| 0 <= w < n ==> done@[w] {
                    lemma_count_trues_all_true(done@, n as int);
                }
            }
            assert forall|w: int|
                0 <= w < n && !done@[w] implies live_in_deg(states, done@, w, n as int) >= 1 by {
                if indeg@[w] == 0 {
                    assert(worklist@.contains(w as StateId));
                }
            }
            assert(!(exists|ord: Seq<StateId>| is_top_order(ord, *fst))) by {
                if exists|ord: Seq<StateId>| is_top_order(ord, *fst) {
                    let ord = choose|ord: Seq<StateId>| is_top_order(ord, *fst);
                    let w = choose|w: int| 0 <= w < n && !done@[w];
                    lemma_live_rank_ge(*fst, done@, ord, n as int);
                    assert(ord[w] < n);
                    assert((ord[w] as int) >= n as int);
                }
            }
        }
        Err(FstError::CyclicTopology)
    }
}

/// With nothing retired, the live in-degree is the plain in-degree.
proof fn lemma_live_falses(
    states: Seq<VectorFstState>,
    done: Seq<bool>,
    falses: Seq<bool>,
    upto: int,
)
    requires
        done.len() >= upto,
        falses.len() >= upto,
        forall|i: int| 0 <= i < upto ==> !done[i] && !falses[i],
    ensures
        forall|w: int|
            live_in_deg(states, done, w, upto) == live_in_deg(states, falses, w, upto),
{
    assert forall|w: int|
        live_in_deg(states, done, w, upto) == live_in_deg(states, falses, w, upto) by {
        lemma_live_congruence(states, done, falses, w, upto);
    }
}

proof fn lemma_live_congruence(
    states: Seq<VectorFstState>,
    d1: Seq<bool>,
    d2: Seq<bool>,
    w: int,
    upto: int,
)
    requires
        forall|i: int| 0 <= i < upto ==> d1[i] == d2[i],
    ensures
        live_in_deg(states, d1, w, upto) == live_in_deg(states, d2, w, upto),
    decreases upto,
{
    if upto > 0 {
        lemma_live_congruence(states, d1, d2, w, upto - 1);
    }
}

proof fn lemma_count_trues_all_true(done: Seq<bool>, upto: int)
    requires
        forall|i: int| 0 <= i < upto ==> done[i],
    ensures
        count_trues(done, upto) == if upto <= 0 {
            0
        } else {
            upto as nat
        },
    decreases upto,
{
    if upto > 0 {
        lemma_count_trues_all_true(done, upto - 1);
    }
}

/// The transition total over a prefix never exceeds the full total.
proof fn lemma_total_prefix(states: Seq<VectorFstState>, a: int, b: int)
    requires
        a <= b,
    ensures
        crate::fst::vec_total_trs(states, a) <= crate::fst::vec_total_trs(states, b),
    decreases b - a,
{
    if b > a {
        lemma_total_prefix(states, a, b - 1);
    }
}

} // verus!
