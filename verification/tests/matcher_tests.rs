use std::rc::Rc;

use fst_compose::error::FstError;
use fst_compose::fst::{Fst, MutableFst, VectorFst};
use fst_compose::matcher::{
    eps_loop, GenericMatcher, IterItemMatcher, MatchType, MatcherFlags, ILABEL_LOOKAHEAD_FLAGS,
    INPUT_LOOKAHEAD_MATCHER, LOOKAHEAD_EPSILONS, LOOKAHEAD_FLAGS, LOOKAHEAD_NON_EPSILONS,
    LOOKAHEAD_NON_EPSILON_PREFIX, LOOKAHEAD_PREFIX, LOOKAHEAD_WEIGHT, OLABEL_LOOKAHEAD_FLAGS,
    OUTPUT_LOOKAHEAD_MATCHER, REQUIRE_PRIORITY,
};
use fst_compose::semiring::Weight;
use fst_compose::tr::{Label, Tr};

fn two_state_fst() -> VectorFst {
    let mut fst = VectorFst::new();
    let s0 = fst.add_state();
    let s1 = fst.add_state();
    fst.set_start(s0);
    fst.set_final(s1, Weight::new(3));
    fst.add_arc(s0, Tr::new(Label::Sym(1), Label::Sym(2), Weight::one(), s1));
    fst.add_arc(s0, Tr::new(Label::Eps, Label::Sym(4), Weight::one(), s1));
    fst.add_arc(s0, Tr::new(Label::Sym(1), Label::Eps, Weight::new(2), s0));
    fst
}

#[test]
fn eps_loop_match_input_synthesizes_input_sentinel() {
    let tr = eps_loop(7, MatchType::MatchInput).unwrap();
    assert_eq!(tr.ilabel, Label::NoLabel);
    assert_eq!(tr.olabel, Label::Eps);
    assert_eq!(tr.weight, Weight::one());
    assert_eq!(tr.nextstate, 7);
}

#[test]
fn eps_loop_match_output_swaps_labels() {
    let tr = eps_loop(3, MatchType::MatchOutput).unwrap();
    assert_eq!(tr.ilabel, Label::Eps);
    assert_eq!(tr.olabel, Label::NoLabel);
    assert_eq!(tr.weight, Weight::one());
    assert_eq!(tr.nextstate, 3);
}

#[test]
fn eps_loop_rejects_unsupported_match_types() {
    assert_eq!(eps_loop(0, MatchType::MatchBoth), Err(FstError::UnsupportedMatchType));
    assert_eq!(eps_loop(0, MatchType::MatchNone), Err(FstError::UnsupportedMatchType));
    assert_eq!(eps_loop(0, MatchType::MatchUnknown), Err(FstError::UnsupportedMatchType));
}

#[test]
fn into_tr_returns_genuine_transition_unchanged() {
    let tr = Tr::new(Label::Sym(5), Label::Sym(6), Weight::new(9), 2);
    assert_eq!(IterItemMatcher::Tr(tr).into_tr(0, MatchType::MatchBoth), Ok(tr));
}

#[test]
fn into_tr_materializes_eps_loop() {
    let got = IterItemMatcher::EpsLoop.into_tr(4, MatchType::MatchInput).unwrap();
    assert_eq!(got, eps_loop(4, MatchType::MatchInput).unwrap());
    assert_eq!(
        IterItemMatcher::EpsLoop.into_tr(4, MatchType::MatchNone),
        Err(FstError::UnsupportedMatchType)
    );
}

#[test]
fn matcher_new_accepts_single_sided_types_only() {
    let fst = Rc::new(two_state_fst());
    assert!(GenericMatcher::new(Rc::clone(&fst), MatchType::MatchInput).is_ok());
    assert!(GenericMatcher::new(Rc::clone(&fst), MatchType::MatchOutput).is_ok());
    assert!(GenericMatcher::new(Rc::clone(&fst), MatchType::MatchBoth).is_err());
    assert!(GenericMatcher::new(Rc::clone(&fst), MatchType::MatchNone).is_err());
    assert!(GenericMatcher::new(fst, MatchType::MatchUnknown).is_err());
}

#[test]
fn matcher_iter_finds_matching_transitions_in_order() {
    let fst = Rc::new(two_state_fst());
    let m = GenericMatcher::new(Rc::clone(&fst), MatchType::MatchInput).unwrap();
    let mut it = m.iter(0, Label::Sym(1));
    assert_eq!(
        it.next(),
        Some(IterItemMatcher::Tr(Tr::new(Label::Sym(1), Label::Sym(2), Weight::one(), 1)))
    );
    assert_eq!(
        it.next(),
        Some(IterItemMatcher::Tr(Tr::new(Label::Sym(1), Label::Eps, Weight::new(2), 0)))
    );
    assert_eq!(it.next(), None);
    assert_eq!(it.next(), None);
}

#[test]
fn matcher_iter_epsilon_query_starts_with_loop_marker() {
    let fst = Rc::new(two_state_fst());
    let m = GenericMatcher::new(Rc::clone(&fst), MatchType::MatchInput).unwrap();
    let mut it = m.iter(0, Label::Eps);
    assert_eq!(it.next(), Some(IterItemMatcher::EpsLoop));
    assert_eq!(
        it.next(),
        Some(IterItemMatcher::Tr(Tr::new(Label::Eps, Label::Sym(4), Weight::one(), 1)))
    );
    assert_eq!(it.next(), None);
}

#[test]
fn matcher_iter_output_side() {
    let fst = Rc::new(two_state_fst());
    let m = GenericMatcher::new(Rc::clone(&fst), MatchType::MatchOutput).unwrap();
    let mut it = m.iter(0, Label::Sym(4));
    assert_eq!(
        it.next(),
        Some(IterItemMatcher::Tr(Tr::new(Label::Eps, Label::Sym(4), Weight::one(), 1)))
    );
    assert_eq!(it.next(), None);
}

#[test]
fn peekable_peek_does_not_consume() {
    let fst = Rc::new(two_state_fst());
    let m = GenericMatcher::new(Rc::clone(&fst), MatchType::MatchInput).unwrap();
    let mut p = m.iter(0, Label::Sym(1)).peekable();
    let first = p.peek();
    assert_eq!(first, p.peek());
    assert_eq!(first, p.next());
    assert_ne!(first, p.peek());
    assert!(p.next().is_some());
    assert_eq!(p.peek(), None);
    assert_eq!(p.next(), None);
}

#[test]
fn matcher_reports_final_weight_and_match_type() {
    let fst = Rc::new(two_state_fst());
    let m = GenericMatcher::new(Rc::clone(&fst), MatchType::MatchInput).unwrap();
    assert_eq!(m.match_type(false), MatchType::MatchInput);
    assert_eq!(m.match_type(true), MatchType::MatchInput);
    assert_eq!(m.final_weight(0), None);
    assert_eq!(m.final_weight(1), Some(Weight::new(3)));
    assert_eq!(m.fst().num_arcs(), 3);
}

#[test]
fn matcher_priority_is_out_degree_never_mandatory() {
    let fst = Rc::new(two_state_fst());
    let m = GenericMatcher::new(Rc::clone(&fst), MatchType::MatchInput).unwrap();
    assert_eq!(m.priority(0), 3);
    assert_eq!(m.priority(1), 0);
    assert_ne!(m.priority(0), REQUIRE_PRIORITY);
    // querying priority twice is observationally idempotent for this matcher
    assert_eq!(m.priority(0), 3);
}

#[test]
fn flag_groups_cover_their_members() {
    let all = MatcherFlags::from_bits(LOOKAHEAD_FLAGS);
    assert!(all.contains(MatcherFlags::from_bits(INPUT_LOOKAHEAD_MATCHER)));
    assert!(all.contains(MatcherFlags::from_bits(OUTPUT_LOOKAHEAD_MATCHER)));
    assert!(all.contains(MatcherFlags::from_bits(LOOKAHEAD_WEIGHT)));
    assert!(all.contains(MatcherFlags::from_bits(LOOKAHEAD_PREFIX)));
    assert!(all.contains(MatcherFlags::from_bits(LOOKAHEAD_NON_EPSILONS)));
    assert!(all.contains(MatcherFlags::from_bits(LOOKAHEAD_EPSILONS)));
    assert!(all.contains(MatcherFlags::from_bits(LOOKAHEAD_NON_EPSILON_PREFIX)));

    let ilook = MatcherFlags::from_bits(ILABEL_LOOKAHEAD_FLAGS);
    assert!(ilook.contains(MatcherFlags::from_bits(INPUT_LOOKAHEAD_MATCHER)));
    assert!(!ilook.contains(MatcherFlags::from_bits(OUTPUT_LOOKAHEAD_MATCHER)));
    assert!(!ilook.contains(MatcherFlags::from_bits(LOOKAHEAD_NON_EPSILONS)));

    let olook = MatcherFlags::from_bits(OLABEL_LOOKAHEAD_FLAGS);
    assert!(olook.contains(MatcherFlags::from_bits(OUTPUT_LOOKAHEAD_MATCHER)));
    assert!(!olook.contains(MatcherFlags::from_bits(INPUT_LOOKAHEAD_MATCHER)));

    assert_eq!(all.union(ilook), all);
    let m = GenericMatcher::new(Rc::new(two_state_fst()), MatchType::MatchInput).unwrap();
    assert_eq!(m.flags(), MatcherFlags::empty());
}
