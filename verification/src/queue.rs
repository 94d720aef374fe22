use vstd::prelude::*;
use crate::error::FstError;
use crate::fst::{Fst, VectorFst};
use crate::topsort::{top_sort, is_top_order};
use crate::tr::StateId;

verus! {

/// Which visitation-order discipline a queue implements, for algorithms
/// that branch on it.
#[derive(Clone, Copy, Debug, PartialEq, Eq, Structural)]
pub enum QueueType {
    /// First in, first out.
    FifoQueue,
    /// Least weight first.
    ShortestFirstQueue,
    /// Topological order; the state graph must be acyclic.
    TopOrderQueue,
}

/// Topological-order queue discipline: a slot array indexed by topological
/// rank, each slot holding at most one pending state, and a `[front, back]`
/// rank window bounding the non-empty slots. Enqueuing writes a state into
/// its rank slot and only slides the window's edges, never rescanning, so
/// enqueue and dequeue are amortized constant-time.
pub struct TopOrderQueue {
    /// The permutation mapping each state id to its topological rank.
    pub order: Vec<StateId>,
    /// Rank-indexed slots: the state pending at that rank, if any.
    pub state: Vec<Option<StateId>>,
    /// The least rank that may hold a pending state.
    pub front: usize,
    /// The greatest rank holding a pending state, `None` when nothing was
    /// enqueued since the last clear.
    pub back: Option<usize>,
}

impl TopOrderQueue {
    /// Every rank is in range; every filled slot holds a state whose rank
    /// is that slot; outside the `[front, back]` window every slot is
    /// empty, and the front slot is filled whenever the window is
    /// non-empty.
    pub open spec fn wf(&self) -> bool {
        &&& self.state@.len() == self.order@.len()
        &&& forall|q: int|
            0 <= q < self.order@.len() ==> (#[trigger] self.order@[q]) < self.order@.len()
        &&& forall|i: int|
            0 <= i < self.state@.len() ==> ((#[trigger] self.state@[i]) matches Some(q) ==> q
                < self.order@.len() && self.order@[q as int] == i)
        &&& match self.back {
            None => self.front == 0 && forall|i: int|
                0 <= i < self.state@.len() ==> (#[trigger] self.state@[i]) is None,
            Some(b) => {
                &&& b < self.state@.len()
                &&& forall|i: int|
                    0 <= i < self.state@.len() && (i < self.front || i > b) ==> (
                    #[trigger] self.state@[i]) is None
                &&& (self.front <= b ==> self.state@[self.front as int] is Some)
            },
        }
    }

    /// Nothing is pending.
    pub open spec fn spec_is_empty(&self) -> bool {
        match self.back {
            None => true,
            Some(b) => self.front > b,
        }
    }

    /// Build the queue for `fst` by running a depth-ordered topological
    /// sort once; fails exactly when the graph has no topological order,
    /// that is, when it has a cycle.
    pub fn new(fst: &VectorFst) -> (r: Result<TopOrderQueue, FstError>)
        requires
            fst.wf(),
        ensures
            r matches Ok(q) ==> q.wf() && q.spec_is_empty() && is_top_order(q.order@, *fst),
            r is Err <==> !(exists|order: Seq<StateId>| is_top_order(order, *fst)),
            r is Err ==> r == Err::<TopOrderQueue, FstError>(FstError::CyclicTopology),
    {
        match top_sort(fst) {
            Ok(order) => {
                proof {
                    assert(is_top_order(order@, *fst));
                }
                Ok(TopOrderQueue::from_precomputed_order(order))
            },
            Err(_) => Err(FstError::CyclicTopology),
        }
    }

    /// Build the queue over a precomputed topological order: a vector
    /// mapping each state id to its rank, every rank below the state
    /// count.
    pub fn from_precomputed_order(order: Vec<StateId>) -> (r: TopOrderQueue)
        requires
            forall|q: int| 0 <= q < order@.len() ==> (#[trigger] order@[q]) < order@.len(),
        ensures
            r.wf(),
            r.order@ == order@,
            r.spec_is_empty(),
    {
        let n = order.len();
        let mut state: Vec<Option<StateId>> = Vec::new();
        while state.len() < n
            invariant
                state@.len() <= n,
                forall|i: int| 0 <= i < state@.len() ==> (#[trigger] state@[i]) is None,
            decreases n - state@.len(),
        {
            state.push(None);
        }
        TopOrderQueue { order, state, front: 0, back: None }
    }

    /// The currently due pending state: the one at the front rank, if any.
    pub fn head(&self) -> (r: Option<StateId>)
        requires
            self.wf(),
        ensures
            self.spec_is_empty() ==> r is None,
            !self.spec_is_empty() ==> r == self.state@[self.front as int] && r is Some,
            r matches Some(q) ==> q < self.order@.len() && self.order@[q as int] == self.front,
    {
        match self.back {
            None => None,
            Some(b) => {
                if self.front > b {
                    None
                } else {
                    self.state[self.front]
                }
            },
        }
    }

    /// Mark `s` pending: write it into its rank slot and widen the window
    /// to include that rank — reset the window to exactly that rank when
    /// the queue was empty.
    pub fn enqueue(&mut self, s: StateId)
        requires
            old(self).wf(),
            s < old(self).order@.len(),
        ensures
            final(self).wf(),
            final(self).order@ == old(self).order@,
            final(self).state@ == old(self).state@.update(
                old(self).order@[s as int] as int,
                Some(s),
            ),
            !final(self).spec_is_empty(),
            old(self).spec_is_empty() ==> final(self).front == old(self).order@[s as int]
                && final(self).back == Some(old(self).order@[s as int]),
            !old(self).spec_is_empty() ==> {
                &&& final(self).front == if old(self).order@[s as int] < old(self).front {
                    old(self).order@[s as int]
                } else {
                    old(self).front
                }
                &&& final(self).back matches Some(nb) && old(self).back matches Some(ob) && nb == (
                if old(self).order@[s as int] > ob {
                    old(self).order@[s as int]
                } else {
                    ob
                })
            },
    {
        let rank = self.order[s];
        let empty = match self.back {
            None => true,
            Some(b) => self.front > b,
        };
        if empty {
            self.front = rank;
            self.back = Some(rank);
        } else {
            let b = match self.back {
                Some(b) => b,
                None => 0,
            };
            if rank > b {
                self.back = Some(rank);
            } else if rank < self.front {
                self.front = rank;
            }
        }
        self.state[rank] = Some(s);
    }

    /// Remove the current head: clear the front slot, then advance the
    /// front past empty slots up to the back. The front rank never
    /// decreases, so successive heads come out in non-decreasing
    /// topological rank.
    #[verifier::loop_isolation(false)]
    pub fn dequeue(&mut self)
        requires
            old(self).wf(),
            !old(self).spec_is_empty(),
        ensures
            final(self).wf(),
            final(self).order@ == old(self).order@,
            final(self).back == old(self).back,
            final(self).state@ == old(self).state@.update(old(self).front as int, None),
            final(self).front >= old(self).front,
            forall|i: int|
                old(self).front < i < final(self).front ==> old(self).state@[i] is None,
    {
        let b = match self.back {
            Some(b) => b,
            None => 0,
        };
        let n = self.state.len();
        self.state[self.front] = None;
        while self.front <= b && self.state[self.front].is_none()
            invariant
                old(self).back == Some(b),
                self.back == old(self).back,
                self.order@ == old(self).order@,
                self.state@ == old(self).state@.update(old(self).front as int, None),
                old(self).front <= self.front <= b + 1,
                n == self.state@.len(),
                b < n,
                forall|i: int| old(self).front < i < self.front ==> old(self).state@[i] is None,
                forall|i: int|
                    old(self).front <= i < self.front ==> (#[trigger] self.state@[i]) is None,
            decreases b + 1 - self.front,
        {
            self.front = self.front + 1;
        }
    }

    /// A state already pending changed priority: topological rank never
    /// changes, so nothing to do.
    pub fn update(&mut self, s: StateId)
        ensures
            *final(self) == *old(self),
    {
        let _ = s;
    }

    /// Is nothing pending?
    pub fn is_empty(&self) -> (r: bool)
        requires
            self.wf(),
        ensures
            r == self.spec_is_empty(),
    {
        match self.back {
            Some(b) => self.front > b,
            None => true,
        }
    }

    /// Empty every slot in the current window and reset the window.
    #[verifier::loop_isolation(false)]
    pub fn clear(&mut self)
        requires
            old(self).wf(),
        ensures
            final(self).wf(),
            final(self).order@ == old(self).order@,
            final(self).front == 0,
            final(self).back is None,
            final(self).spec_is_empty(),
            forall|i: int|
                0 <= i < final(self).state@.len() ==> (#[trigger] final(self).state@[i]) is None,
    {
        let b_opt = self.back;
        match b_opt {
            Some(b) => {
                let n = self.state.len();
                let mut s = self.front;
                while s <= b
                    invariant
                        old(self).back == Some(b),
                        self.back == old(self).back,
                        self.front == old(self).front,
                        self.order@ == old(self).order@,
                        old(self).front <= s,
                        n == self.state@.len(),
                        b < n,
                        self.state@.len() == old(self).state@.len(),
                        forall|i: int|
                            0 <= i < self.state@.len() && !(old(self).front <= i < s)
                                ==> #[trigger] self.state@[i] == old(self).state@[i],
                        forall|i: int|
                            old(self).front <= i < s ==> (#[trigger] self.state@[i]) is None,
                    decreases b + 1 - s,
                {
                    self.state[s] = None;
                    s = s + 1;
                }
            },
            None => {},
        }
        self.front = 0;
        self.back = None;
    }

    /// Which discipline this queue implements.
    pub fn queue_type(&self) -> (r: QueueType)
        ensures
            r == QueueType::TopOrderQueue,
    {
        QueueType::TopOrderQueue
    }
}

/// Law: under the queue's invariant, the queue reports empty exactly when
/// no state is pending in any slot.
pub proof fn lemma_empty_iff_no_pending(q: TopOrderQueue)
    requires
        q.wf(),
    ensures
        q.spec_is_empty() <==> forall|i: int|
            0 <= i < q.state@.len() ==> (#[trigger] q.state@[i]) is None,
{
    match q.back {
        None => {},
        Some(b) => {
            if q.front <= b {
                assert(q.state@[q.front as int] is Some);
            }
        },
    }
}

} // verus!
