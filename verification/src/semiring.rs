use vstd::prelude::*;

verus! {

/// A weight drawn from the saturating counting semiring over `u64`.
///
/// The composition core treats weights as an abstract algebra: it only ever
/// copies them, compares them for equality, and asks for the multiplicative
/// identity when synthesizing epsilon self-loops. The concrete carrier here
/// is the natural numbers clamped at `u64::MAX`, with saturating addition as
/// the collecting operator and saturating multiplication as the extending
/// operator.
#[derive(Clone, Copy, Debug, PartialEq, Eq, Structural, Hash)]
pub struct Weight {
    pub value: u64,
}

impl Weight {
    /// The multiplicative identity, the weight of a path that consumes
    /// nothing.
    pub open spec fn spec_one() -> Weight {
        Weight { value: 1 }
    }

    /// The additive identity, the weight of an impossible path.
    pub open spec fn spec_zero() -> Weight {
        Weight { value: 0 }
    }

    pub open spec fn spec_times(self, other: Weight) -> Weight {
        if self.value * other.value > u64::MAX {
            Weight { value: u64::MAX }
        } else {
            Weight { value: (self.value * other.value) as u64 }
        }
    }

    pub open spec fn spec_plus(self, other: Weight) -> Weight {
        if self.value + other.value > u64::MAX {
            Weight { value: u64::MAX }
        } else {
            Weight { value: (self.value + other.value) as u64 }
        }
    }

    pub fn new(value: u64) -> (r: Weight)
        ensures
            r.value == value,
    {
        Weight { value }
    }

    pub fn one() -> (r: Weight)
        ensures
            r == Weight::spec_one(),
    {
        Weight { value: 1 }
    }

    pub fn zero() -> (r: Weight)
        ensures
            r == Weight::spec_zero(),
    {
        Weight { value: 0 }
    }

    /// The extending operator: combines the weights of consecutive
    /// transitions along one path.
    pub fn times(self, other: Weight) -> (r: Weight)
        ensures
            r == self.spec_times(other),
    {
        match self.value.checked_mul(other.value) {
            Some(v) => Weight { value: v },
            None => Weight { value: u64::MAX },
        }
    }

    /// The collecting operator: combines the weights of alternative paths.
    pub fn plus(self, other: Weight) -> (r: Weight)
        ensures
            r == self.spec_plus(other),
    {
        match self.value.checked_add(other.value) {
            Some(v) => Weight { value: v },
            None => Weight { value: u64::MAX },
        }
    }
}

} // verus!
