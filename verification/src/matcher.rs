use vstd::prelude::*;
use std::rc::Rc;
use crate::error::FstError;
use crate::fst::Fst;
use crate::semiring::Weight;
use crate::tr::{Tr, Label, StateId};

verus! {

/// Capability flag: the matcher must be used for matching (it is not merely
/// an optimization hint).
pub const REQUIRE_MATCH: u32 = 1u32;

/// Capability flag: the matcher supports lookahead on input labels.
pub const INPUT_LOOKAHEAD_MATCHER: u32 = 16u32;

/// Capability flag: the matcher supports lookahead on output labels.
pub const OUTPUT_LOOKAHEAD_MATCHER: u32 = 32u32;

/// Capability flag: lookahead includes weight pushing.
pub const LOOKAHEAD_WEIGHT: u32 = 64u32;

/// Capability flag: lookahead includes prefix computation.
pub const LOOKAHEAD_PREFIX: u32 = 128u32;

/// Capability flag: lookahead considers non-epsilon transitions.
pub const LOOKAHEAD_NON_EPSILONS: u32 = 256u32;

/// Capability flag: lookahead considers epsilon transitions.
pub const LOOKAHEAD_EPSILONS: u32 = 512u32;

/// Capability flag: lookahead computes a non-epsilon prefix.
pub const LOOKAHEAD_NON_EPSILON_PREFIX: u32 = 1024u32;

/// The group of all lookahead capability flags.
pub const LOOKAHEAD_FLAGS: u32 = INPUT_LOOKAHEAD_MATCHER | OUTPUT_LOOKAHEAD_MATCHER
    | LOOKAHEAD_WEIGHT | LOOKAHEAD_PREFIX | LOOKAHEAD_NON_EPSILONS | LOOKAHEAD_EPSILONS
    | LOOKAHEAD_NON_EPSILON_PREFIX;

/// The group of flags a downstream optimizer tests for input-side lookahead.
pub const ILABEL_LOOKAHEAD_FLAGS: u32 = INPUT_LOOKAHEAD_MATCHER | LOOKAHEAD_WEIGHT
    | LOOKAHEAD_PREFIX | LOOKAHEAD_EPSILONS | LOOKAHEAD_NON_EPSILON_PREFIX;

/// The group of flags a downstream optimizer tests for output-side lookahead.
pub const OLABEL_LOOKAHEAD_FLAGS: u32 = OUTPUT_LOOKAHEAD_MATCHER | LOOKAHEAD_WEIGHT
    | LOOKAHEAD_PREFIX | LOOKAHEAD_EPSILONS | LOOKAHEAD_NON_EPSILON_PREFIX;

/// A matcher's priority value meaning "this side must be the one used for
/// matching in composition".
pub const REQUIRE_PRIORITY: usize = usize::MAX;

/// A set of matcher capability flags, tested bit-for-bit by downstream
/// consumers.
#[derive(Clone, Copy, Debug, PartialEq, Eq, Structural)]
pub struct MatcherFlags {
    pub bits: u32,
}

impl MatcherFlags {
    pub fn empty() -> (r: MatcherFlags)
        ensures
            r.bits == 0,
    {
        MatcherFlags { bits: 0 }
    }

    pub fn from_bits(bits: u32) -> (r: MatcherFlags)
        ensures
            r.bits == bits,
    {
        MatcherFlags { bits }
    }

    /// Does this flag set include every bit of `other`?
    pub fn contains(self, other: MatcherFlags) -> (r: bool)
        ensures
            r == (self.bits & other.bits == other.bits),
    {
        self.bits & other.bits == other.bits
    }

    pub fn union(self, other: MatcherFlags) -> (r: MatcherFlags)
        ensures
            r.bits == self.bits | other.bits,
    {
        MatcherFlags { bits: self.bits | other.bits }
    }
}

/// Which label field a matcher compares against the query. Fixed for the
/// lifetime of a matcher instance.
#[derive(Clone, Copy, Debug, PartialEq, Eq, Structural)]
pub enum MatchType {
    /// Match the input label.
    MatchInput,
    /// Match the output label.
    MatchOutput,
    /// Match either label.
    MatchBoth,
    /// Match no label.
    MatchNone,
    /// The match side is not known.
    MatchUnknown,
}

/// The epsilon self-loop synthesized for `state` under `match_type`: the
/// queried side carries the real epsilon, the other side the synthetic
/// sentinel, the weight is the multiplicative identity and the destination
/// is the queried state itself. Loop synthesis is only supported when a
/// single side is matched.
pub open spec fn spec_eps_loop(state: StateId, match_type: MatchType) -> Result<Tr, FstError> {
    match match_type {
        MatchType::MatchInput => Ok(
            Tr {
                ilabel: Label::NoLabel,
                olabel: Label::Eps,
                weight: Weight::spec_one(),
                nextstate: state,
            },
        ),
        MatchType::MatchOutput => Ok(
            Tr {
                ilabel: Label::Eps,
                olabel: Label::NoLabel,
                weight: Weight::spec_one(),
                nextstate: state,
            },
        ),
        _ => Err(FstError::UnsupportedMatchType),
    }
}

/// Build the virtual epsilon self-loop at `state` for a matcher that
/// compares the side given by `match_type`; fails for the match types that
/// do not support loop synthesis.
pub fn eps_loop(state: StateId, match_type: MatchType) -> (r: Result<Tr, FstError>)
    ensures
        r == spec_eps_loop(state, match_type),
{
    match match_type {
        MatchType::MatchInput => Ok(
            Tr::new(Label::NoLabel, Label::Eps, Weight::one(), state),
        ),
        MatchType::MatchOutput => Ok(
            Tr::new(Label::Eps, Label::NoLabel, Weight::one(), state),
        ),
        _ => Err(FstError::UnsupportedMatchType),
    }
}

/// One item produced by a matcher query: either a genuine stored transition
/// or the `EpsLoop` marker standing for the virtual epsilon self-loop at the
/// queried state.
#[derive(Clone, Copy, Debug, PartialEq, Eq, Structural)]
pub enum IterItemMatcher {
    Tr(Tr),
    EpsLoop,
}

impl IterItemMatcher {
    /// Materialize this item as a transition at `state`: a genuine
    /// transition stands for itself, the `EpsLoop` marker becomes the
    /// synthesized self-loop, which fails under an unsupported match type.
    pub fn into_tr(self, state: StateId, match_type: MatchType) -> (r: Result<Tr, FstError>)
        ensures
            self matches IterItemMatcher::Tr(t) ==> r == Ok::<Tr, FstError>(t),
            self is EpsLoop ==> r == spec_eps_loop(state, match_type),
    {
        match self {
            IterItemMatcher::Tr(tr) => Ok(tr),
            IterItemMatcher::EpsLoop => eps_loop(state, match_type),
        }
    }
}

/// Does `tr` match a query for `label` on the side selected by `mt`?
pub open spec fn spec_tr_matches(tr: Tr, mt: MatchType, label: Label) -> bool {
    match mt {
        MatchType::MatchInput => tr.ilabel == label,
        MatchType::MatchOutput => tr.olabel == label,
        _ => false,
    }
}

/// The stored transitions of `trs` matching `label` on the side selected by
/// `mt`, in storage order.
pub open spec fn spec_matching_trs(trs: Seq<Tr>, mt: MatchType, label: Label) -> Seq<Tr>
    decreases trs.len(),
{
    if trs.len() == 0 {
        Seq::empty()
    } else if spec_tr_matches(trs.last(), mt, label) {
        spec_matching_trs(trs.drop_last(), mt, label).push(trs.last())
    } else {
        spec_matching_trs(trs.drop_last(), mt, label)
    }
}

/// The full item sequence answering a query for `label` at a state with
/// transitions `trs`: the virtual epsilon self-loop marker first when the
/// query is for epsilon, then every genuine matching transition.
pub open spec fn spec_match_items(trs: Seq<Tr>, mt: MatchType, label: Label) -> Seq<
    IterItemMatcher,
> {
    let genuine = spec_matching_trs(trs, mt, label).map_values(|t: Tr| IterItemMatcher::Tr(t));
    if label == Label::Eps {
        seq![IterItemMatcher::EpsLoop] + genuine
    } else {
        genuine
    }
}

/// A finite, non-restartable stream of matcher items for one query.
pub struct MatcherIterator {
    pub items: Vec<IterItemMatcher>,
    pub pos: usize,
}

impl MatcherIterator {
    /// The items not yet consumed, in the order they will come out.
    pub open spec fn remaining(&self) -> Seq<IterItemMatcher> {
        self.items@.skip(self.pos as int)
    }

    pub open spec fn wf(&self) -> bool {
        self.pos <= self.items@.len()
    }

    pub fn from_items(items: Vec<IterItemMatcher>) -> (r: MatcherIterator)
        ensures
            r.wf(),
            r.remaining() == items@,
    {
        let r = MatcherIterator { items, pos: 0 };
        proof {
            assert(r.remaining() =~= r.items@);
        }
        r
    }

    /// Pull the next item, consuming it; `None` once exhausted.
    pub fn next(&mut self) -> (r: Option<IterItemMatcher>)
        requires
            old(self).wf(),
        ensures
            final(self).wf(),
            old(self).remaining().len() == 0 ==> r is None && final(self).remaining()
                == old(self).remaining(),
            old(self).remaining().len() > 0 ==> r == Some(old(self).remaining()[0])
                && final(self).remaining() == old(self).remaining().skip(1),
    {
        if self.pos < self.items.len() {
            let item = self.items[self.pos];
            self.pos = self.pos + 1;
            proof {
                assert(final(self).remaining() =~= old(self).remaining().skip(1));
            }
            Some(item)
        } else {
            None
        }
    }

    /// Wrap this stream with a one-slot lookahead buffer.
    pub fn peekable(self) -> (r: MatcherPeekable)
        requires
            self.wf(),
        ensures
            r.wf(),
            r.remaining() == self.remaining(),
    {
        MatcherPeekable { next: None, iter: self }
    }
}

/// A matcher iterator with a one-slot lookahead buffer: `peek` reads the
/// upcoming item without consuming it, so the composition driver can detect
/// exhaustion or apply tie-breaks before committing to a candidate.
pub struct MatcherPeekable {
    pub iter: MatcherIterator,
    pub next: Option<IterItemMatcher>,
}

impl MatcherPeekable {
    /// The items not yet consumed, the buffered one first.
    pub open spec fn remaining(&self) -> Seq<IterItemMatcher> {
        match self.next {
            Some(item) => seq![item] + self.iter.remaining(),
            None => self.iter.remaining(),
        }
    }

    pub open spec fn wf(&self) -> bool {
        self.iter.wf()
    }

    /// Pull the next item: the buffered one if present, else a fresh one.
    pub fn next(&mut self) -> (r: Option<IterItemMatcher>)
        requires
            old(self).wf(),
        ensures
            final(self).wf(),
            old(self).remaining().len() == 0 ==> r is None && final(self).remaining()
                == old(self).remaining(),
            old(self).remaining().len() > 0 ==> r == Some(old(self).remaining()[0])
                && final(self).remaining() == old(self).remaining().skip(1),
    {
        match self.next.take() {
            Some(item) => {
                proof {
                    assert(final(self).remaining() =~= old(self).remaining().skip(1));
                }
                Some(item)
            },
            None => {
                let r = self.iter.next();
                proof {
                    if old(self).remaining().len() > 0 {
                        assert(final(self).remaining() =~= old(self).remaining().skip(1));
                    }
                }
                r
            },
        }
    }

    /// Compute and buffer the upcoming item without consuming it.
    pub fn peek(&mut self) -> (r: Option<IterItemMatcher>)
        requires
            old(self).wf(),
        ensures
            final(self).wf(),
            final(self).remaining() == old(self).remaining(),
            old(self).remaining().len() == 0 ==> r is None,
            old(self).remaining().len() > 0 ==> r == Some(old(self).remaining()[0]),
    {
        if self.next.is_none() {
            self.next = self.iter.next();
        }
        proof {
            assert(final(self).remaining() =~= old(self).remaining());
        }
        match &self.next {
            Some(item) => Some(*item),
            None => None,
        }
    }
}

/// A matcher that finds the transitions carrying a requested label at a
/// state of one automaton by scanning the state's transition list, and
/// synthesizes the virtual epsilon self-loop for epsilon bookkeeping. It
/// abstracts the storage side chosen at construction and is read-only
/// thereafter.
pub struct GenericMatcher<F: Fst> {
    pub fst: Rc<F>,
    pub match_type: MatchType,
}

impl<F: Fst> GenericMatcher<F> {
    pub open spec fn spec_fst(&self) -> F {
        *self.fst
    }

    pub open spec fn spec_match_type(&self) -> MatchType {
        self.match_type
    }

    /// Bind a matcher to one automaton and one match side; fails for the
    /// match types that cannot support epsilon-loop synthesis.
    pub fn new(fst: Rc<F>, match_type: MatchType) -> (r: Result<GenericMatcher<F>, FstError>)
        ensures
            (match_type == MatchType::MatchInput || match_type == MatchType::MatchOutput)
                <==> r is Ok,
            r matches Ok(m) ==> m.spec_fst() == *fst && m.spec_match_type() == match_type,
            r is Err ==> r == Err::<GenericMatcher<F>, FstError>(FstError::UnsupportedMatchType),
    {
        match match_type {
            MatchType::MatchInput => Ok(GenericMatcher { fst, match_type }),
            MatchType::MatchOutput => Ok(GenericMatcher { fst, match_type }),
            _ => Err(FstError::UnsupportedMatchType),
        }
    }

    /// The automaton this matcher is bound to.
    pub fn fst(&self) -> (r: &Rc<F>)
        ensures
            *r == self.spec_fst(),
    {
        &self.fst
    }

    /// Report which side this matcher compares. With `test`, the caller
    /// asks that the choice be validated against the automaton; every
    /// single-sided choice is supported here, so validation never demotes
    /// the reported type.
    pub fn match_type(&self, test: bool) -> (r: MatchType)
        ensures
            r == self.spec_match_type(),
    {
        let _ = test;
        self.match_type
    }

    /// Answer one `(state, label)` query: a lazy, finite, non-restartable
    /// stream holding the virtual epsilon self-loop marker (for an epsilon
    /// query) followed by the genuine matching transitions in storage order.
    pub fn iter(&self, state: StateId, label: Label) -> (r: MatcherIterator)
        requires
            self.spec_fst().wf(),
            state < self.spec_fst().spec_num_states(),
            label != Label::NoLabel,
        ensures
            r.wf(),
            r.remaining() == spec_match_items(
                self.spec_fst().spec_trs(state as int),
                self.spec_match_type(),
                label,
            ),
    {
        let trs = self.fst.trs(state);
        let mut items: Vec<IterItemMatcher> = Vec::new();
        if label == Label::Eps {
            items.push(IterItemMatcher::EpsLoop);
        }
        let ghost prefix = items@;
        let mut i: usize = 0;
        while i < trs.len()
            invariant
                i <= trs@.len(),
                items@ == prefix + spec_matching_trs(
                    trs@.take(i as int),
                    self.spec_match_type(),
                    label,
                ).map_values(|t: Tr| IterItemMatcher::Tr(t)),
            decreases trs@.len() - i,
        {
            proof {
                assert(trs@.take(i + 1).drop_last() =~= trs@.take(i as int));
                assert(trs@.take(i + 1).last() == trs@[i as int]);
            }
            let tr = trs[i];
            let matched = match self.match_type {
                MatchType::MatchInput => tr.ilabel == label,
                MatchType::MatchOutput => tr.olabel == label,
                _ => false,
            };
            if matched {
                items.push(IterItemMatcher::Tr(tr));
                proof {
                    assert(spec_matching_trs(
                        trs@.take(i + 1),
                        self.spec_match_type(),
                        label,
                    ).map_values(|t: Tr| IterItemMatcher::Tr(t)) =~= spec_matching_trs(
                        trs@.take(i as int),
                        self.spec_match_type(),
                        label,
                    ).map_values(|t: Tr| IterItemMatcher::Tr(t)).push(IterItemMatcher::Tr(tr)));
                }
            }
            i = i + 1;
        }
        proof {
            assert(trs@.take(trs@.len() as int) =~= trs@);
            assert(items@ =~= spec_match_items(
                self.spec_fst().spec_trs(state as int),
                self.spec_match_type(),
                label,
            ));
        }
        MatcherIterator::from_items(items)
    }

    /// The accepting weight of `state`, independent of label matching.
    pub fn final_weight(&self, state: StateId) -> (r: Option<Weight>)
        requires
            self.spec_fst().wf(),
            state < self.spec_fst().spec_num_states(),
        ensures
            r == self.spec_fst().spec_final_weight(state as int),
    {
        self.fst.final_weight(state)
    }

    /// Capability flags: plain label matching, no lookahead support.
    pub fn flags(&self) -> (r: MatcherFlags)
        ensures
            r.bits == 0,
    {
        MatcherFlags::empty()
    }

    /// Preference for being the side used for matching in composition at
    /// `state`: this matcher scores a state by its out-degree, so the
    /// narrower side wins. Never the mandatory sentinel.
    pub fn priority(&self, state: StateId) -> (r: usize)
        requires
            self.spec_fst().wf(),
            state < self.spec_fst().spec_num_states(),
        ensures
            r == self.spec_fst().spec_trs(state as int).len(),
    {
        self.fst.num_trs(state)
    }
}

} // verus!
