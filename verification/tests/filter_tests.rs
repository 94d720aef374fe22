use std::rc::Rc;

use fst_compose::filter::{FilterState, SequenceComposeFilterBuilder, SharedDataComposeFilter};
use fst_compose::fst::{MutableFst, VectorFst};
use fst_compose::matcher::{GenericMatcher, MatchType};
use fst_compose::semiring::Weight;
use fst_compose::tr::{Label, Tr};

/// Operand 1 for the filter table tests: state 0 has one output-epsilon
/// transition and one plain one and is accepting (so neither "all epsilon"
/// nor "no epsilon"); state 1 has only output epsilons and is not
/// accepting; state 2 has no output epsilon at all.
fn operand1() -> VectorFst {
    let mut fst = VectorFst::new();
    for _ in 0..3 {
        fst.add_state();
    }
    fst.set_start(0);
    fst.set_final(0, Weight::one());
    fst.add_arc(0, Tr::new(Label::Sym(1), Label::Eps, Weight::one(), 1));
    fst.add_arc(0, Tr::new(Label::Sym(1), Label::Sym(2), Weight::one(), 2));
    fst.add_arc(1, Tr::new(Label::Sym(1), Label::Eps, Weight::one(), 1));
    fst.add_arc(2, Tr::new(Label::Sym(1), Label::Sym(3), Weight::one(), 2));
    fst
}

fn operand2() -> VectorFst {
    let mut fst = VectorFst::new();
    fst.add_state();
    fst.set_start(0);
    fst.set_final(0, Weight::one());
    fst.add_arc(0, Tr::new(Label::Sym(2), Label::Sym(9), Weight::one(), 0));
    fst
}

fn op2_only_move() -> (Tr, Tr) {
    // operand 2 moves alone: tr1 carries the synthetic output sentinel
    (
        Tr::new(Label::Eps, Label::NoLabel, Weight::one(), 0),
        Tr::new(Label::Eps, Label::Sym(5), Weight::one(), 0),
    )
}

fn op1_only_move() -> (Tr, Tr) {
    // operand 1 moves alone: tr2 carries the synthetic input sentinel
    (
        Tr::new(Label::Sym(1), Label::Eps, Weight::one(), 1),
        Tr::new(Label::NoLabel, Label::Eps, Weight::one(), 0),
    )
}

#[test]
fn filter_state_constructors_are_distinguishable() {
    assert_eq!(FilterState::new(0), FilterState::State(0));
    assert_eq!(FilterState::new_no_state(), FilterState::NoState);
    assert_ne!(FilterState::new(0), FilterState::new(1));
    assert_ne!(FilterState::new(0), FilterState::new_no_state());
}

#[test]
fn builder_defaults_connect_output_to_input() {
    let b = SequenceComposeFilterBuilder::new(
        Rc::new(operand1()),
        Rc::new(operand2()),
        None,
        None,
    )
    .unwrap();
    assert_eq!(b.shared_data.matcher1.match_type(false), MatchType::MatchOutput);
    assert_eq!(b.shared_data.matcher2.match_type(false), MatchType::MatchInput);
    let f = b.build().unwrap();
    assert_eq!(f.s1, None);
    assert_eq!(f.s2, None);
    assert_eq!(f.fs, FilterState::NoState);
    assert_eq!(f.start(), FilterState::State(0));
    assert_eq!(f.num_summary_recomputes(), 0);
    assert_eq!(f.get_shared_data().matcher2.match_type(false), MatchType::MatchInput);
}

#[test]
fn builder_accepts_supplied_matchers() {
    let fst1 = Rc::new(operand1());
    let fst2 = Rc::new(operand2());
    let m1 = GenericMatcher::new(Rc::clone(&fst1), MatchType::MatchOutput).unwrap();
    let m2 = GenericMatcher::new(Rc::clone(&fst2), MatchType::MatchInput).unwrap();
    let shared = SharedDataComposeFilter::new(m1, m2);
    assert_eq!(shared.matcher1.match_type(false), MatchType::MatchOutput);
    let b =
        SequenceComposeFilterBuilder::new(fst1, fst2, Some(shared.matcher1), Some(shared.matcher2))
            .unwrap();
    let f1 = b.build().unwrap();
    let f2 = b.build().unwrap();
    assert_eq!(f1.fs, f2.fs);
}

#[test]
fn op2_only_move_depends_on_operand1_summary() {
    let b = SequenceComposeFilterBuilder::new(
        Rc::new(operand1()),
        Rc::new(operand2()),
        None,
        None,
    )
    .unwrap();
    let mut f = b.build().unwrap();
    let (tr1, tr2) = op2_only_move();

    // state 0: has both epsilon and non-epsilon options: pending
    f.set_state(0, 0, &FilterState::new(0));
    assert_eq!(f.filter_tr(&tr1, &tr2), FilterState::State(1));

    // state 1: only epsilons leave it and it is not accepting: blocked
    f.set_state(1, 0, &FilterState::new(0));
    assert_eq!(f.filter_tr(&tr1, &tr2), FilterState::NoState);

    // state 2: no output epsilon leaves it: neutral
    f.set_state(2, 0, &FilterState::new(0));
    assert_eq!(f.filter_tr(&tr1, &tr2), FilterState::State(0));
}

#[test]
fn op1_only_move_is_legal_only_while_neutral() {
    let b = SequenceComposeFilterBuilder::new(
        Rc::new(operand1()),
        Rc::new(operand2()),
        None,
        None,
    )
    .unwrap();
    let mut f = b.build().unwrap();
    let (tr1, tr2) = op1_only_move();

    f.set_state(0, 0, &FilterState::new(0));
    assert_eq!(f.filter_tr(&tr1, &tr2), FilterState::State(0));

    // once pending, an operand-1-only move must be blocked
    f.set_state(0, 0, &FilterState::new(1));
    assert_eq!(f.filter_tr(&tr1, &tr2), FilterState::NoState);
}

#[test]
fn two_sided_moves_clear_pending_but_true_eps_pairs_are_blocked() {
    let b = SequenceComposeFilterBuilder::new(
        Rc::new(operand1()),
        Rc::new(operand2()),
        None,
        None,
    )
    .unwrap();
    let mut f = b.build().unwrap();
    f.set_state(0, 0, &FilterState::new(1));

    // a genuine two-sided match returns to neutral, even from pending
    let tr1 = Tr::new(Label::Sym(1), Label::Sym(2), Weight::one(), 2);
    let tr2 = Tr::new(Label::Sym(2), Label::Sym(9), Weight::one(), 0);
    assert_eq!(f.filter_tr(&tr1, &tr2), FilterState::State(0));

    // a true epsilon:epsilon pairing is handled by the one-sided branches
    // only; here it must be blocked
    let e1 = Tr::new(Label::Sym(1), Label::Eps, Weight::one(), 1);
    let e2 = Tr::new(Label::Eps, Label::Sym(9), Weight::one(), 0);
    assert_eq!(f.filter_tr(&e1, &e2), FilterState::NoState);
}

#[test]
fn set_state_memoizes_identical_triples() {
    let b = SequenceComposeFilterBuilder::new(
        Rc::new(operand1()),
        Rc::new(operand2()),
        None,
        None,
    )
    .unwrap();
    let mut f = b.build().unwrap();
    assert_eq!(f.num_summary_recomputes(), 0);
    f.set_state(0, 0, &FilterState::new(0));
    assert_eq!(f.num_summary_recomputes(), 1);
    // identical triple: no recomputation of the per-state summaries
    f.set_state(0, 0, &FilterState::new(0));
    assert_eq!(f.num_summary_recomputes(), 1);
    f.set_state(0, 0, &FilterState::new(0));
    assert_eq!(f.num_summary_recomputes(), 1);
    // any change of the triple recomputes
    f.set_state(0, 0, &FilterState::new(1));
    assert_eq!(f.num_summary_recomputes(), 2);
    f.set_state(1, 0, &FilterState::new(1));
    assert_eq!(f.num_summary_recomputes(), 3);
    f.set_state(1, 0, &FilterState::new(1));
    assert_eq!(f.num_summary_recomputes(), 3);
}

#[test]
fn filter_final_performs_no_adjustment() {
    let b = SequenceComposeFilterBuilder::new(
        Rc::new(operand1()),
        Rc::new(operand2()),
        None,
        None,
    )
    .unwrap();
    let f = b.build().unwrap();
    let mut w1 = Weight::new(4);
    let mut w2 = Weight::new(6);
    f.filter_final(&mut w1, &mut w2);
    assert_eq!(w1, Weight::new(4));
    assert_eq!(w2, Weight::new(6));
}
