use std::rc::Rc;

use fst_compose::filter::{FilterState, SequenceComposeFilterBuilder};
use fst_compose::fst::{Fst, MutableFst, VectorFst};
use fst_compose::matcher::{IterItemMatcher, MatchType};
use fst_compose::semiring::Weight;
use fst_compose::tr::{Label, StateId, Tr};

/// A single accepting state with one self-loop `input:output`.
fn one_state_loop(input: Label, output: Label) -> VectorFst {
    let mut fst = VectorFst::new();
    fst.add_state();
    fst.set_start(0);
    fst.set_final(0, Weight::one());
    fst.add_arc(0, Tr::new(input, output, Weight::one(), 0));
    fst
}

/// One move of the composition of two single-state operands, as the driver
/// would take it: either a pair matched on the connecting label, or a
/// one-sided move against the other side's virtual epsilon self-loop.
#[derive(Clone, Copy, PartialEq, Eq, Debug)]
struct Move {
    input: Label,
    output: Label,
    fs: FilterState,
}

/// All filter-accepted moves available at the composed state
/// `(s1, s2, fs)`, produced exactly as the composition driver would: each
/// transition of operand 1 is paired with operand 2's answers to a query
/// for the connecting label (including the virtual epsilon self-loop), and
/// each epsilon-input transition of operand 2 is paired with operand 1's
/// virtual self-loop.
fn accepted_moves(a: &VectorFst, b: &VectorFst, s1: StateId, s2: StateId, fs: FilterState) -> Vec<Move> {
    let builder =
        SequenceComposeFilterBuilder::new(Rc::new(a.clone_fst()), Rc::new(b.clone_fst()), None, None)
            .unwrap();
    let mut filter = builder.build().unwrap();
    filter.set_state(s1, s2, &fs);

    let mut moves = Vec::new();
    let shared = filter.get_shared_data();
    for tr1 in a.trs(s1).clone() {
        let mut it = shared.matcher2.iter(s2, tr1.olabel);
        while let Some(item) = it.next() {
            let tr2 = item.into_tr(s2, MatchType::MatchInput).unwrap();
            let next = filter.filter_tr(&tr1, &tr2);
            if next != FilterState::NoState {
                moves.push(Move { input: tr1.ilabel, output: tr2.olabel, fs: next });
            }
        }
    }
    let mut it1 = shared.matcher1.iter(s1, Label::Eps);
    while let Some(item) = it1.next() {
        if item == IterItemMatcher::EpsLoop {
            let tr1 = item.into_tr(s1, MatchType::MatchOutput).unwrap();
            for tr2 in b.trs(s2).clone() {
                if tr2.ilabel == Label::Eps {
                    let next = filter.filter_tr(&tr1, &tr2);
                    if next != FilterState::NoState {
                        moves.push(Move { input: tr1.ilabel, output: tr2.olabel, fs: next });
                    }
                }
            }
        }
    }
    moves
}

trait CloneFst {
    fn clone_fst(&self) -> VectorFst;
}

impl CloneFst for VectorFst {
    fn clone_fst(&self) -> VectorFst {
        let mut fst = VectorFst::new();
        for _ in 0..self.states.len() {
            fst.add_state();
        }
        if let Some(st) = self.start_state {
            fst.set_start(st);
        }
        for s in 0..self.states.len() {
            if let Some(w) = self.states[s].final_weight {
                fst.set_final(s, w);
            }
            for tr in self.states[s].trs.clone() {
                fst.add_arc(s, tr);
            }
        }
        fst
    }
}

/// Count the accepted composed paths of `2 * n` moves that read `a^n` and
/// write `b^n`, starting neutral at the pair of start states.
fn count_paths(a: &VectorFst, b: &VectorFst, n: usize) -> usize {
    fn rec(
        a: &VectorFst,
        b: &VectorFst,
        fs: FilterState,
        reads_left: usize,
        writes_left: usize,
    ) -> usize {
        if reads_left == 0 && writes_left == 0 {
            return 1; // both operands stay in their accepting state
        }
        let mut total = 0;
        for mv in accepted_moves(a, b, 0, 0, fs) {
            let reads = if mv.input == Label::Sym(1) { 1 } else { 0 };
            let writes = if mv.output == Label::Sym(2) { 1 } else { 0 };
            if reads <= reads_left && writes <= writes_left && (reads + writes > 0) {
                total += rec(a, b, mv.fs, reads_left - reads, writes_left - writes);
            }
        }
        total
    }
    rec(a, b, FilterState::State(0), n, n)
}

#[test]
fn sequence_filter_yields_exactly_one_path_per_repetition() {
    // operand 1 reads `a` (symbol 1) and writes epsilon; operand 2 reads
    // epsilon and writes `b` (symbol 2)
    let a = one_state_loop(Label::Sym(1), Label::Eps);
    let b = one_state_loop(Label::Eps, Label::Sym(2));
    for n in 0..4 {
        assert_eq!(count_paths(&a, &b, n), 1);
    }
}

#[test]
fn without_the_pending_bookkeeping_paths_would_multiply() {
    // sanity check on the scenario itself: counting move interleavings
    // while ignoring the filter state (treating pending like neutral)
    // yields more than one path for two repetitions
    let a = one_state_loop(Label::Sym(1), Label::Eps);
    let b = one_state_loop(Label::Eps, Label::Sym(2));

    fn rec(a: &VectorFst, b: &VectorFst, reads_left: usize, writes_left: usize) -> usize {
        if reads_left == 0 && writes_left == 0 {
            return 1;
        }
        let mut total = 0;
        // always query from neutral: the ordering discipline is disabled
        for mv in accepted_moves(a, b, 0, 0, FilterState::State(0)) {
            let reads = if mv.input == Label::Sym(1) { 1 } else { 0 };
            let writes = if mv.output == Label::Sym(2) { 1 } else { 0 };
            if reads <= reads_left && writes <= writes_left && (reads + writes > 0) {
                total += rec(a, b, reads_left - reads, writes_left - writes);
            }
        }
        total
    }
    assert_eq!(rec(&a, &b, 2, 2), 6);
}
