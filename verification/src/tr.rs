use vstd::prelude::*;
use crate::semiring::Weight;

verus! {

/// A state identifier of an automaton.
pub type StateId = usize;

/// A transition label.
///
/// `Eps` is the real epsilon symbol: a stored label meaning "no symbol is
/// consumed on this side". `NoLabel` is an out-of-band sentinel meaning
/// "this transition record is synthetic": it never appears in a stored
/// automaton and is only manufactured transiently during composition to
/// represent a one-sided move.
#[derive(Clone, Copy, Debug, PartialEq, Eq, Structural, Hash)]
pub enum Label {
    Eps,
    NoLabel,
    Sym(u64),
}

/// A transition of a weighted finite-state transducer: it consumes `ilabel`,
/// emits `olabel`, costs `weight` and moves to `nextstate`.
#[derive(Clone, Copy, Debug, PartialEq, Eq, Structural, Hash)]
pub struct Tr {
    pub ilabel: Label,
    pub olabel: Label,
    pub weight: Weight,
    pub nextstate: StateId,
}

impl Tr {
    pub fn new(ilabel: Label, olabel: Label, weight: Weight, nextstate: StateId) -> (r: Tr)
        ensures
            r == (Tr { ilabel, olabel, weight, nextstate }),
    {
        Tr { ilabel, olabel, weight, nextstate }
    }
}

/// The number of transitions in `trs` whose output label is the real
/// epsilon.
pub open spec fn count_output_eps(trs: Seq<Tr>) -> nat
    decreases trs.len(),
{
    if trs.len() == 0 {
        0
    } else {
        count_output_eps(trs.drop_last()) + if trs.last().olabel == Label::Eps {
            1nat
        } else {
            0nat
        }
    }
}

/// The number of transitions in `trs` whose input label is the real epsilon.
pub open spec fn count_input_eps(trs: Seq<Tr>) -> nat
    decreases trs.len(),
{
    if trs.len() == 0 {
        0
    } else {
        count_input_eps(trs.drop_last()) + if trs.last().ilabel == Label::Eps {
            1nat
        } else {
            0nat
        }
    }
}

} // verus!
