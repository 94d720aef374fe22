use vstd::prelude::*;
use crate::error::FstError;
use crate::fst::{Fst, ExpandedFst};
use crate::tr::Tr;

verus! {

/// How often `t` occurs in `trs`.
pub open spec fn count_tr(trs: Seq<Tr>, t: Tr) -> nat
    decreases trs.len(),
{
    if trs.len() == 0 {
        0
    } else {
        count_tr(trs.drop_last(), t) + if trs.last() == t {
            1nat
        } else {
            0nat
        }
    }
}

proof fn lemma_count_tr_pos(trs: Seq<Tr>, t: Tr)
    requires
        count_tr(trs, t) >= 1,
    ensures
        exists|j: int| 0 <= j < trs.len() && trs[j] == t,
    decreases trs.len(),
{
    if trs.len() > 0 {
        if trs.last() == t {
            assert(trs[trs.len() - 1] == t);
        } else {
            lemma_count_tr_pos(trs.drop_last(), t);
            let j = choose|j: int| 0 <= j < trs.drop_last().len() && trs.drop_last()[j] == t;
            assert(trs[j] == t);
        }
    }
}

/// Two automata are observationally equal: same state count, same start
/// state, per state the same final weight, and per state the same
/// transitions counted as a multiset — the storage order of transitions is
/// not observable through a lazily expanded automaton.
pub open spec fn spec_obs_equal<F1: Fst, F2: Fst>(a: F1, b: F2) -> bool {
    &&& a.spec_num_states() == b.spec_num_states()
    &&& a.spec_start() == b.spec_start()
    &&& forall|s: int|
        0 <= s < a.spec_num_states() ==> #[trigger] a.spec_final_weight(s)
            == b.spec_final_weight(s)
    &&& forall|s: int|
        0 <= s < a.spec_num_states() ==> (#[trigger] a.spec_trs(s)).len() == b.spec_trs(s).len()
    &&& forall|s: int, t: Tr|
        0 <= s < a.spec_num_states() ==> #[trigger] count_tr(a.spec_trs(s), t) == count_tr(
            b.spec_trs(s),
            t,
        )
}

/// How often `t` occurs in `v`.
fn count_tr_exec(v: &Vec<Tr>, t: Tr) -> (r: usize)
    ensures
        r == count_tr(v@, t),
{
    let mut count: usize = 0;
    let mut i: usize = 0;
    while i < v.len()
        invariant
            i <= v@.len(),
            count <= i,
            count == count_tr(v@.take(i as int), t),
        decreases v@.len() - i,
    {
        proof {
            assert(v@.take(i + 1).drop_last() =~= v@.take(i as int));
            assert(v@.take(i + 1).last() == v@[i as int]);
        }
        if v[i] == t {
            count = count + 1;
        }
        i = i + 1;
    }
    proof {
        assert(v@.take(v@.len() as int) =~= v@);
    }
    count
}

/// Compare an eagerly stored automaton with one materialized from a lazily
/// expanded result: they must agree on the state count, the start state,
/// every final weight, and every state's transition multiset. Succeeds
/// exactly when the two are observationally equal.
pub fn compare_fst_static_lazy<F1: ExpandedFst, F2: ExpandedFst>(
    fst_static: &F1,
    fst_lazy: &F2,
) -> (r: Result<(), FstError>)
    requires
        fst_static.wf(),
        fst_lazy.wf(),
    ensures
        r is Ok <==> spec_obs_equal(*fst_static, *fst_lazy),
        r is Err ==> r == Err::<(), FstError>(FstError::FstMismatch),
{
    let n = fst_static.num_states();
    if fst_lazy.num_states() != n {
        return Err(FstError::FstMismatch);
    }
    let sa = fst_static.start();
    let sb = fst_lazy.start();
    let start_eq = match (sa, sb) {
        (None, None) => true,
        (Some(x), Some(y)) => x == y,
        _ => false,
    };
    if !start_eq {
        return Err(FstError::FstMismatch);
    }
    let mut s: usize = 0;
    while s < n
        invariant
            fst_static.wf(),
            fst_lazy.wf(),
            n == fst_static.spec_num_states(),
            n == fst_lazy.spec_num_states(),
            fst_static.spec_start() == fst_lazy.spec_start(),
            s <= n,
            forall|s2: int|
                0 <= s2 < s ==> #[trigger] fst_static.spec_final_weight(s2)
                    == fst_lazy.spec_final_weight(s2),
            forall|s2: int|
                0 <= s2 < s ==> (#[trigger] fst_static.spec_trs(s2)).len() == fst_lazy.spec_trs(
                    s2,
                ).len(),
            forall|s2: int, t: Tr|
                0 <= s2 < s ==> #[trigger] count_tr(fst_static.spec_trs(s2), t) == count_tr(
                    fst_lazy.spec_trs(s2),
                    t,
                ),
        decreases n - s,
    {
        let fa = fst_static.final_weight(s);
        let fb = fst_lazy.final_weight(s);
        let final_eq = match (fa, fb) {
            (None, None) => true,
            (Some(w1), Some(w2)) => w1 == w2,
            _ => false,
        };
        if !final_eq {
            return Err(FstError::FstMismatch);
        }
        let ta = fst_static.trs(s);
        let tb = fst_lazy.trs(s);
        if ta.len() != tb.len() {
            return Err(FstError::FstMismatch);
        }
        let mut i: usize = 0;
        while i < ta.len()
            invariant
                fst_static.wf(),
                fst_lazy.wf(),
                s < n,
                n == fst_static.spec_num_states(),
                n == fst_lazy.spec_num_states(),
                ta@ == fst_static.spec_trs(s as int),
                tb@ == fst_lazy.spec_trs(s as int),
                i <= ta@.len(),
                forall|j: int|
                    0 <= j < i ==> count_tr(ta@, #[trigger] ta@[j]) == count_tr(tb@, ta@[j]),
            decreases ta@.len() - i,
        {
            let ca = count_tr_exec(ta, ta[i]);
            let cb = count_tr_exec(tb, ta[i]);
            if ca != cb {
                proof {
                    assert(count_tr(fst_static.spec_trs(s as int), ta@[i as int]) != count_tr(
                        fst_lazy.spec_trs(s as int),
                        ta@[i as int],
                    ));
                }
                return Err(FstError::FstMismatch);
            }
            i = i + 1;
        }
        let mut i2: usize = 0;
        while i2 < tb.len()
            invariant
                fst_static.wf(),
                fst_lazy.wf(),
                s < n,
                n == fst_static.spec_num_states(),
                n == fst_lazy.spec_num_states(),
                ta@ == fst_static.spec_trs(s as int),
                tb@ == fst_lazy.spec_trs(s as int),
                i2 <= tb@.len(),
                forall|j: int|
                    0 <= j < ta@.len() ==> count_tr(ta@, #[trigger] ta@[j]) == count_tr(
                        tb@,
                        ta@[j],
                    ),
                forall|j: int|
                    0 <= j < i2 ==> count_tr(ta@, #[trigger] tb@[j]) == count_tr(tb@, tb@[j]),
            decreases tb@.len() - i2,
        {
            let ca = count_tr_exec(ta, tb[i2]);
            let cb = count_tr_exec(tb, tb[i2]);
            if ca != cb {
                proof {
                    assert(count_tr(fst_static.spec_trs(s as int), tb@[i2 as int]) != count_tr(
                        fst_lazy.spec_trs(s as int),
                        tb@[i2 as int],
                    ));
                }
                return Err(FstError::FstMismatch);
            }
            i2 = i2 + 1;
        }
        proof {
            assert forall|t: Tr|
                count_tr(fst_static.spec_trs(s as int), t) == count_tr(
                fst_lazy.spec_trs(s as int),
                t,
            ) by {
                if count_tr(ta@, t) >= 1 {
                    lemma_count_tr_pos(ta@, t);
                    let j = choose|j: int| 0 <= j < ta@.len() && ta@[j] == t;
                    assert(count_tr(ta@, ta@[j]) == count_tr(tb@, ta@[j]));
                } else if count_tr(tb@, t) >= 1 {
                    lemma_count_tr_pos(tb@, t);
                    let j = choose|j: int| 0 <= j < tb@.len() && tb@[j] == t;
                    assert(count_tr(ta@, tb@[j]) == count_tr(tb@, tb@[j]));
                }
            }
        }
        s = s + 1;
    }
    Ok(())
}

} // verus!
