use fst_compose::closure::closure_plus;
use fst_compose::compare::compare_fst_static_lazy;
use fst_compose::error::FstError;
use fst_compose::fst::{ExpandedFst, Fst, MutableFst, VectorFst};
use fst_compose::semiring::Weight;
use fst_compose::tr::{Label, Tr};

#[test]
fn weight_operators_are_exact_and_saturating() {
    assert_eq!(Weight::one().value, 1);
    assert_eq!(Weight::zero().value, 0);
    assert_eq!(Weight::new(6).times(Weight::new(7)), Weight::new(42));
    assert_eq!(Weight::new(6).plus(Weight::new(7)), Weight::new(13));
    assert_eq!(Weight::one().times(Weight::new(9)), Weight::new(9));
    assert_eq!(Weight::new(u64::MAX).times(Weight::new(2)), Weight::new(u64::MAX));
    assert_eq!(Weight::new(u64::MAX).plus(Weight::one()), Weight::new(u64::MAX));
}

#[test]
fn vector_fst_accessors_report_stored_data() {
    let mut fst = VectorFst::new();
    assert_eq!(fst.start(), None);
    assert_eq!(fst.num_states(), 0);
    let s0 = fst.add_state();
    let s1 = fst.add_state();
    assert_eq!((s0, s1), (0, 1));
    fst.set_start(s0);
    fst.set_final(s1, Weight::new(2));
    fst.add_arc(s0, Tr::new(Label::Sym(1), Label::Eps, Weight::one(), s1));
    fst.add_arc(s0, Tr::new(Label::Eps, Label::Sym(2), Weight::one(), s0));
    assert_eq!(fst.start(), Some(0));
    assert_eq!(fst.num_states(), 2);
    assert_eq!(fst.num_trs(0), 2);
    assert_eq!(fst.num_trs(1), 0);
    assert_eq!(fst.num_arcs(), 2);
    assert_eq!(fst.num_input_epsilons(0), 1);
    assert_eq!(fst.num_output_epsilons(0), 1);
    assert_eq!(fst.final_weight(1), Some(Weight::new(2)));
    assert_eq!(fst.final_weight(0), None);
    assert!(fst.is_final(1));
    assert!(!fst.is_final(0));
    assert_eq!(fst.trs(0)[0], Tr::new(Label::Sym(1), Label::Eps, Weight::one(), 1));
}

#[test]
fn closure_plus_adds_one_epsilon_arc_per_final_state() {
    let mut fst = VectorFst::new();
    for _ in 0..3 {
        fst.add_state();
    }
    fst.set_start(0);
    fst.set_final(1, Weight::new(2));
    fst.set_final(2, Weight::new(3));
    fst.add_arc(0, Tr::new(Label::Sym(1), Label::Sym(1), Weight::one(), 1));
    fst.add_arc(1, Tr::new(Label::Sym(2), Label::Sym(2), Weight::one(), 2));
    closure_plus(&mut fst).unwrap();
    assert_eq!(fst.num_trs(0), 1);
    assert_eq!(fst.num_trs(1), 2);
    assert_eq!(fst.num_trs(2), 1);
    let back = Tr::new(Label::Eps, Label::Eps, Weight::one(), 0);
    assert_eq!(fst.trs(1)[1], back);
    assert_eq!(fst.trs(2)[0], back);
    // final weights and the start are untouched
    assert_eq!(fst.final_weight(1), Some(Weight::new(2)));
    assert_eq!(fst.start(), Some(0));
}

#[test]
fn closure_plus_without_start_changes_nothing() {
    let mut fst = VectorFst::new();
    fst.add_state();
    fst.set_final(0, Weight::one());
    closure_plus(&mut fst).unwrap();
    assert_eq!(fst.num_trs(0), 0);
}

#[test]
fn compare_accepts_reordered_transitions() {
    let t1 = Tr::new(Label::Sym(1), Label::Sym(2), Weight::one(), 0);
    let t2 = Tr::new(Label::Sym(3), Label::Sym(4), Weight::new(2), 1);

    let mut a = VectorFst::new();
    a.add_state();
    a.add_state();
    a.set_start(0);
    a.set_final(1, Weight::one());
    a.add_arc(0, t1);
    a.add_arc(0, t2);

    let mut b = VectorFst::new();
    b.add_state();
    b.add_state();
    b.set_start(0);
    b.set_final(1, Weight::one());
    b.add_arc(0, t2);
    b.add_arc(0, t1);

    assert_eq!(compare_fst_static_lazy(&a, &b), Ok(()));
    assert_eq!(compare_fst_static_lazy(&a, &a), Ok(()));
}

#[test]
fn compare_rejects_each_kind_of_mismatch() {
    let mut a = VectorFst::new();
    a.add_state();
    a.set_start(0);
    a.set_final(0, Weight::one());
    a.add_arc(0, Tr::new(Label::Sym(1), Label::Sym(1), Weight::one(), 0));

    // state count
    let mut b = VectorFst::new();
    b.add_state();
    b.add_state();
    b.set_start(0);
    assert_eq!(compare_fst_static_lazy(&a, &b), Err(FstError::FstMismatch));

    // start state
    let mut c = VectorFst::new();
    c.add_state();
    c.set_final(0, Weight::one());
    c.add_arc(0, Tr::new(Label::Sym(1), Label::Sym(1), Weight::one(), 0));
    assert_eq!(compare_fst_static_lazy(&a, &c), Err(FstError::FstMismatch));

    // final weight
    let mut d = VectorFst::new();
    d.add_state();
    d.set_start(0);
    d.set_final(0, Weight::new(5));
    d.add_arc(0, Tr::new(Label::Sym(1), Label::Sym(1), Weight::one(), 0));
    assert_eq!(compare_fst_static_lazy(&a, &d), Err(FstError::FstMismatch));

    // transition multiset
    let mut e = VectorFst::new();
    e.add_state();
    e.set_start(0);
    e.set_final(0, Weight::one());
    e.add_arc(0, Tr::new(Label::Sym(2), Label::Sym(1), Weight::one(), 0));
    assert_eq!(compare_fst_static_lazy(&a, &e), Err(FstError::FstMismatch));

    // same elements, different multiplicities
    let mut f = VectorFst::new();
    f.add_state();
    f.set_start(0);
    f.set_final(0, Weight::one());
    f.add_arc(0, Tr::new(Label::Sym(1), Label::Sym(1), Weight::one(), 0));
    f.add_arc(0, Tr::new(Label::Sym(1), Label::Sym(1), Weight::one(), 0));
    assert_eq!(compare_fst_static_lazy(&a, &f), Err(FstError::FstMismatch));
}

#[test]
fn compare_accepts_empty_automata() {
    let a = VectorFst::new();
    let b = VectorFst::new();
    assert_eq!(compare_fst_static_lazy(&a, &b), Ok(()));
}
