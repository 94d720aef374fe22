use vstd::prelude::*;
use crate::semiring::Weight;
use crate::tr::{Tr, StateId, count_input_eps, count_output_eps};

verus! {

/// A per-state quantity of the lazy result cache: either not yet computed,
/// or computed and thereafter frozen for the state's lifetime.
#[derive(Debug, PartialEq, Eq)]
pub enum CacheStatus<T> {
    NotComputed,
    Computed(T),
}

impl<T> CacheStatus<T> {
    pub fn is_computed(&self) -> (r: bool)
        ensures
            r == (self is Computed),
    {
        match self {
            CacheStatus::Computed(_) => true,
            CacheStatus::NotComputed => false,
        }
    }

    pub fn into_option(self) -> (r: Option<T>)
        ensures
            self matches CacheStatus::Computed(t) ==> r == Some(t),
            self is NotComputed ==> r is None,
    {
        match self {
            CacheStatus::Computed(t) => Some(t),
            CacheStatus::NotComputed => None,
        }
    }
}

/// The abstract value of a cached transition list.
pub open spec fn trs_status_view(s: CacheStatus<Vec<Tr>>) -> CacheStatus<Seq<Tr>> {
    match s {
        CacheStatus::Computed(v) => CacheStatus::Computed(v@),
        CacheStatus::NotComputed => CacheStatus::NotComputed,
    }
}

/// Memoization of a lazily expanded automaton: per composed state its
/// outgoing transitions and final weight, plus the automaton's start state.
/// Every entry is written at most once — a second insert for the same key
/// leaves the cache unchanged — so repeated visits and independent
/// traversal passes observe one coherent, monotonically growing view.
pub trait FstCache: Sized {
    spec fn spec_start(&self) -> CacheStatus<Option<StateId>>;

    spec fn spec_trs(&self, id: int) -> CacheStatus<Seq<Tr>>;

    spec fn spec_final_weight(&self, id: int) -> CacheStatus<Option<Weight>>;

    /// How many states have at least one cached quantity.
    spec fn spec_num_known_states(&self) -> nat;

    /// How many slots the transition store holds.
    spec fn spec_len_trs(&self) -> nat;

    /// How many slots the final-weight store holds.
    spec fn spec_len_final_weights(&self) -> nat;

    fn get_start(&self) -> (r: CacheStatus<Option<StateId>>)
        ensures
            r == self.spec_start(),
    ;

    fn insert_start(&mut self, id: Option<StateId>)
        ensures
            old(self).spec_start() is Computed ==> *final(self) == *old(self),
            old(self).spec_start() is NotComputed ==> {
                &&& final(self).spec_start() == CacheStatus::Computed(id)
                &&& forall|t: int| #[trigger] final(self).spec_trs(t) == old(self).spec_trs(t)
                &&& forall|t: int|
                    #[trigger] final(self).spec_final_weight(t) == old(self).spec_final_weight(t)
            },
    ;

    fn get_trs(&self, id: StateId) -> (r: CacheStatus<Vec<Tr>>)
        ensures
            trs_status_view(r) == self.spec_trs(id as int),
    ;

    fn insert_trs(&mut self, id: StateId, trs: Vec<Tr>)
        requires
            id < usize::MAX,
        ensures
            old(self).spec_trs(id as int) is Computed ==> *final(self) == *old(self),
            old(self).spec_trs(id as int) is NotComputed ==> {
                &&& final(self).spec_trs(id as int) == CacheStatus::Computed(trs@)
                &&& final(self).spec_start() == old(self).spec_start()
                &&& forall|t: int|
                    t != id ==> #[trigger] final(self).spec_trs(t) == old(self).spec_trs(t)
                &&& forall|t: int|
                    #[trigger] final(self).spec_final_weight(t) == old(self).spec_final_weight(t)
            },
    ;

    fn get_final_weight(&self, id: StateId) -> (r: CacheStatus<Option<Weight>>)
        ensures
            r == self.spec_final_weight(id as int),
    ;

    fn insert_final_weight(&mut self, id: StateId, weight: Option<Weight>)
        requires
            id < usize::MAX,
        ensures
            old(self).spec_final_weight(id as int) is Computed ==> *final(self) == *old(self),
            old(self).spec_final_weight(id as int) is NotComputed ==> {
                &&& final(self).spec_final_weight(id as int) == CacheStatus::Computed(weight)
                &&& final(self).spec_start() == old(self).spec_start()
                &&& forall|t: int| #[trigger] final(self).spec_trs(t) == old(self).spec_trs(t)
                &&& forall|t: int|
                    t != id ==> #[trigger] final(self).spec_final_weight(t) == old(
                        self,
                    ).spec_final_weight(t)
            },
    ;

    fn num_known_states(&self) -> (r: usize)
        ensures
            r == self.spec_num_known_states(),
    ;

    /// The cached transition count, present only if the transitions were
    /// already cached.
    fn num_trs(&self, id: StateId) -> (r: Option<usize>)
        ensures
            r matches Some(n) ==> self.spec_trs(id as int) matches CacheStatus::Computed(s) && n
                == s.len(),
            r is None <==> self.spec_trs(id as int) is NotComputed,
    ;

    fn num_input_epsilons(&self, id: StateId) -> (r: Option<usize>)
        ensures
            r matches Some(n) ==> self.spec_trs(id as int) matches CacheStatus::Computed(s) && n
                == count_input_eps(s),
            r is None <==> self.spec_trs(id as int) is NotComputed,
    ;

    /// As `num_input_epsilons`, but the caller must already know the
    /// transitions are cached, skipping the presence check.
    fn num_input_epsilons_unchecked(&self, id: StateId) -> (r: usize)
        requires
            self.spec_trs(id as int) is Computed,
        ensures
            self.spec_trs(id as int) matches CacheStatus::Computed(s) && r == count_input_eps(s),
    ;

    fn num_output_epsilons(&self, id: StateId) -> (r: Option<usize>)
        ensures
            r matches Some(n) ==> self.spec_trs(id as int) matches CacheStatus::Computed(s) && n
                == count_output_eps(s),
            r is None <==> self.spec_trs(id as int) is NotComputed,
    ;

    fn num_output_epsilons_unchecked(&self, id: StateId) -> (r: usize)
        requires
            self.spec_trs(id as int) is Computed,
        ensures
            self.spec_trs(id as int) matches CacheStatus::Computed(s) && r == count_output_eps(s),
    ;

    /// The size of the transition store.
    fn len_trs(&self) -> (r: usize)
        ensures
            r == self.spec_len_trs(),
    ;

    /// The size of the final-weight store.
    fn len_final_weights(&self) -> (r: usize)
        ensures
            r == self.spec_len_final_weights(),
    ;

    /// Whether `id` is accepting: not yet known, or a known boolean.
    fn is_final(&self, id: StateId) -> (r: CacheStatus<bool>)
        ensures
            r matches CacheStatus::Computed(b) ==> self.spec_final_weight(id as int)
                matches CacheStatus::Computed(w) && b == (w is Some),
            r is NotComputed <==> self.spec_final_weight(id as int) is NotComputed,
    ;

    fn is_final_unchecked(&self, id: StateId) -> (r: bool)
        requires
            self.spec_final_weight(id as int) is Computed,
        ensures
            self.spec_final_weight(id as int) matches CacheStatus::Computed(w) && r == (w
                is Some),
    ;
}

/// Vector-backed cache: state ids index two status vectors, grown on demand.
pub struct SimpleVecCache {
    pub start: CacheStatus<Option<StateId>>,
    pub trs: Vec<CacheStatus<Vec<Tr>>>,
    pub final_weights: Vec<CacheStatus<Option<Weight>>>,
}

impl SimpleVecCache {
    pub fn new() -> (r: SimpleVecCache)
        ensures
            r.spec_start() is NotComputed,
            forall|t: int| #[trigger] r.spec_trs(t) is NotComputed,
            forall|t: int| #[trigger] r.spec_final_weight(t) is NotComputed,
            r.spec_num_known_states() == 0,
    {
        SimpleVecCache { start: CacheStatus::NotComputed, trs: Vec::new(), final_weights: Vec::new() }
    }
}

/// Copy a transition list; transitions are plain values.
fn clone_trs(v: &Vec<Tr>) -> (r: Vec<Tr>)
    ensures
        r@ == v@,
{
    let mut r: Vec<Tr> = Vec::new();
    let mut i: usize = 0;
    while i < v.len()
        invariant
            i <= v@.len(),
            r@ == v@.take(i as int),
        decreases v@.len() - i,
    {
        r.push(v[i]);
        proof {
            assert(v@.take(i + 1) =~= v@.take(i as int).push(v@[i as int]));
        }
        i = i + 1;
    }
    proof {
        assert(v@.take(v@.len() as int) =~= v@);
    }
    r
}

/// Grow `v` with `NotComputed` placeholders until index `id` exists.
fn ensure_slot<T>(v: &mut Vec<CacheStatus<T>>, id: StateId)
    requires
        id < usize::MAX,
    ensures
        final(v)@.len() > id,
        old(v)@.len() > id ==> final(v)@ == old(v)@,
        forall|t: int|
            0 <= t < final(v)@.len() ==> #[trigger] final(v)@[t] == if t < old(v)@.len() {
                old(v)@[t]
            } else {
                CacheStatus::<T>::NotComputed
            },
{
    while v.len() <= id
        invariant
            v@.len() >= old(v)@.len(),
            old(v)@.len() > id ==> v@ == old(v)@,
            forall|t: int|
                0 <= t < v@.len() ==> #[trigger] v@[t] == if t < old(v)@.len() {
                    old(v)@[t]
                } else {
                    CacheStatus::<T>::NotComputed
                },
        decreases id + 1 - v@.len(),
    {
        v.push(CacheStatus::NotComputed);
    }
    proof {
        if old(v)@.len() > id {
            assert(v@ =~= old(v)@);
        }
    }
}

impl FstCache for SimpleVecCache {
    open spec fn spec_start(&self) -> CacheStatus<Option<StateId>> {
        self.start
    }

    open spec fn spec_trs(&self, id: int) -> CacheStatus<Seq<Tr>> {
        if 0 <= id < self.trs@.len() {
            trs_status_view(self.trs@[id])
        } else {
            CacheStatus::NotComputed
        }
    }

    open spec fn spec_final_weight(&self, id: int) -> CacheStatus<Option<Weight>> {
        if 0 <= id < self.final_weights@.len() {
            self.final_weights@[id]
        } else {
            CacheStatus::NotComputed
        }
    }

    open spec fn spec_num_known_states(&self) -> nat {
        if self.trs@.len() >= self.final_weights@.len() {
            self.trs@.len()
        } else {
            self.final_weights@.len()
        }
    }

    open spec fn spec_len_trs(&self) -> nat {
        self.trs@.len()
    }

    open spec fn spec_len_final_weights(&self) -> nat {
        self.final_weights@.len()
    }

    fn get_start(&self) -> (r: CacheStatus<Option<StateId>>) {
        match &self.start {
            CacheStatus::Computed(id) => CacheStatus::Computed(*id),
            CacheStatus::NotComputed => CacheStatus::NotComputed,
        }
    }

    fn insert_start(&mut self, id: Option<StateId>) {
        match &self.start {
            CacheStatus::NotComputed => {
                self.start = CacheStatus::Computed(id);
            },
            CacheStatus::Computed(_) => {},
        }
    }

    fn get_trs(&self, id: StateId) -> (r: CacheStatus<Vec<Tr>>) {
        if id < self.trs.len() {
            match &self.trs[id] {
                CacheStatus::Computed(v) => CacheStatus::Computed(clone_trs(v)),
                CacheStatus::NotComputed => CacheStatus::NotComputed,
            }
        } else {
            CacheStatus::NotComputed
        }
    }

    fn insert_trs(&mut self, id: StateId, trs: Vec<Tr>) {
        let already = if id < self.trs.len() {
            self.trs[id].is_computed()
        } else {
            false
        };
        if !already {
            ensure_slot(&mut self.trs, id);
            self.trs[id] = CacheStatus::Computed(trs);
        }
    }

    fn get_final_weight(&self, id: StateId) -> (r: CacheStatus<Option<Weight>>) {
        if id < self.final_weights.len() {
            match &self.final_weights[id] {
                CacheStatus::Computed(w) => CacheStatus::Computed(*w),
                CacheStatus::NotComputed => CacheStatus::NotComputed,
            }
        } else {
            CacheStatus::NotComputed
        }
    }

    fn insert_final_weight(&mut self, id: StateId, weight: Option<Weight>) {
        let already = if id < self.final_weights.len() {
            self.final_weights[id].is_computed()
        } else {
            false
        };
        if !already {
            ensure_slot(&mut self.final_weights, id);
            self.final_weights[id] = CacheStatus::Computed(weight);
        }
    }

    fn num_known_states(&self) -> (r: usize) {
        if self.trs.len() >= self.final_weights.len() {
            self.trs.len()
        } else {
            self.final_weights.len()
        }
    }

    fn num_trs(&self, id: StateId) -> (r: Option<usize>) {
        if id < self.trs.len() {
            match &self.trs[id] {
                CacheStatus::Computed(v) => Some(v.len()),
                CacheStatus::NotComputed => None,
            }
        } else {
            None
        }
    }

    fn num_input_epsilons(&self, id: StateId) -> (r: Option<usize>) {
        if id < self.trs.len() {
            match &self.trs[id] {
                CacheStatus::Computed(v) => Some(count_input_eps_exec(v)),
                CacheStatus::NotComputed => None,
            }
        } else {
            None
        }
    }

    fn num_input_epsilons_unchecked(&self, id: StateId) -> (r: usize) {
        match &self.trs[id] {
            CacheStatus::Computed(v) => count_input_eps_exec(v),
            CacheStatus::NotComputed => 0,
        }
    }

    fn num_output_epsilons(&self, id: StateId) -> (r: Option<usize>) {
        if id < self.trs.len() {
            match &self.trs[id] {
                CacheStatus::Computed(v) => Some(count_output_eps_exec(v)),
                CacheStatus::NotComputed => None,
            }
        } else {
            None
        }
    }

    fn num_output_epsilons_unchecked(&self, id: StateId) -> (r: usize) {
        match &self.trs[id] {
            CacheStatus::Computed(v) => count_output_eps_exec(v),
            CacheStatus::NotComputed => 0,
        }
    }

    fn len_trs(&self) -> (r: usize) {
        self.trs.len()
    }

    fn len_final_weights(&self) -> (r: usize) {
        self.final_weights.len()
    }

    fn is_final(&self, id: StateId) -> (r: CacheStatus<bool>) {
        if id < self.final_weights.len() {
            match &self.final_weights[id] {
                CacheStatus::Computed(w) => CacheStatus::Computed(w.is_some()),
                CacheStatus::NotComputed => CacheStatus::NotComputed,
            }
        } else {
            CacheStatus::NotComputed
        }
    }

    fn is_final_unchecked(&self, id: StateId) -> (r: bool) {
        match &self.final_weights[id] {
            CacheStatus::Computed(w) => w.is_some(),
            CacheStatus::NotComputed => false,
        }
    }
}

/// Count the input epsilons of a transition list.
fn count_input_eps_exec(v: &Vec<Tr>) -> (r: usize)
    ensures
        r == count_input_eps(v@),
{
    let mut count: usize = 0;
    let mut i: usize = 0;
    while i < v.len()
        invariant
            i <= v@.len(),
            count <= i,
            count == count_input_eps(v@.take(i as int)),
        decreases v@.len() - i,
    {
        proof {
            assert(v@.take(i + 1).drop_last() =~= v@.take(i as int));
            assert(v@.take(i + 1).last() == v@[i as int]);
        }
        if v[i].ilabel == crate::tr::Label::Eps {
            count = count + 1;
        }
        i = i + 1;
    }
    proof {
        assert(v@.take(v@.len() as int) =~= v@);
    }
    count
}

/// Count the output epsilons of a transition list.
fn count_output_eps_exec(v: &Vec<Tr>) -> (r: usize)
    ensures
        r == count_output_eps(v@),
{
    let mut count: usize = 0;
    let mut i: usize = 0;
    while i < v.len()
        invariant
            i <= v@.len(),
            count <= i,
            count == count_output_eps(v@.take(i as int)),
        decreases v@.len() - i,
    {
        proof {
            assert(v@.take(i + 1).drop_last() =~= v@.take(i as int));
            assert(v@.take(i + 1).last() == v@[i as int]);
        }
        if v[i].olabel == crate::tr::Label::Eps {
            count = count + 1;
        }
        i = i + 1;
    }
    proof {
        assert(v@.take(v@.len() as int) =~= v@);
    }
    count
}

/// A handle wrapping any cache implementation and forwarding every
/// operation to it, so a consumer can hold either the cache itself or a
/// handle to it interchangeably: the handle satisfies the same contract,
/// operation for operation, as the cache it wraps.
pub struct CacheHandle<C: FstCache> {
    pub inner: C,
}

impl<C: FstCache> CacheHandle<C> {
    pub fn new(inner: C) -> (r: CacheHandle<C>)
        ensures
            r.inner == inner,
    {
        CacheHandle { inner }
    }

    pub fn into_inner(self) -> (r: C)
        ensures
            r == self.inner,
    {
        self.inner
    }
}

impl<C: FstCache> FstCache for CacheHandle<C> {
    open spec fn spec_start(&self) -> CacheStatus<Option<StateId>> {
        self.inner.spec_start()
    }

    open spec fn spec_trs(&self, id: int) -> CacheStatus<Seq<Tr>> {
        self.inner.spec_trs(id)
    }

    open spec fn spec_final_weight(&self, id: int) -> CacheStatus<Option<Weight>> {
        self.inner.spec_final_weight(id)
    }

    open spec fn spec_num_known_states(&self) -> nat {
        self.inner.spec_num_known_states()
    }

    open spec fn spec_len_trs(&self) -> nat {
        self.inner.spec_len_trs()
    }

    open spec fn spec_len_final_weights(&self) -> nat {
        self.inner.spec_len_final_weights()
    }

    fn get_start(&self) -> (r: CacheStatus<Option<StateId>>) {
        self.inner.get_start()
    }

    fn insert_start(&mut self, id: Option<StateId>) {
        self.inner.insert_start(id)
    }

    fn get_trs(&self, id: StateId) -> (r: CacheStatus<Vec<Tr>>) {
        self.inner.get_trs(id)
    }

    fn insert_trs(&mut self, id: StateId, trs: Vec<Tr>) {
        self.inner.insert_trs(id, trs)
    }

    fn get_final_weight(&self, id: StateId) -> (r: CacheStatus<Option<Weight>>) {
        self.inner.get_final_weight(id)
    }

    fn insert_final_weight(&mut self, id: StateId, weight: Option<Weight>) {
        self.inner.insert_final_weight(id, weight)
    }

    fn num_known_states(&self) -> (r: usize) {
        self.inner.num_known_states()
    }

    fn num_trs(&self, id: StateId) -> (r: Option<usize>) {
        self.inner.num_trs(id)
    }

    fn num_input_epsilons(&self, id: StateId) -> (r: Option<usize>) {
        self.inner.num_input_epsilons(id)
    }

    fn num_input_epsilons_unchecked(&self, id: StateId) -> (r: usize) {
        self.inner.num_input_epsilons_unchecked(id)
    }

    fn num_output_epsilons(&self, id: StateId) -> (r: Option<usize>) {
        self.inner.num_output_epsilons(id)
    }

    fn num_output_epsilons_unchecked(&self, id: StateId) -> (r: usize) {
        self.inner.num_output_epsilons_unchecked(id)
    }

    fn len_trs(&self) -> (r: usize) {
        self.inner.len_trs()
    }

    fn len_final_weights(&self) -> (r: usize) {
        self.inner.len_final_weights()
    }

    fn is_final(&self, id: StateId) -> (r: CacheStatus<bool>) {
        self.inner.is_final(id)
    }

    fn is_final_unchecked(&self, id: StateId) -> (r: bool) {
        self.inner.is_final_unchecked(id)
    }
}

} // verus!
