use vstd::prelude::*;
use crate::bignum::BigNum;

verus! {

/// A relocatable address: an offset inside a memory segment.
#[derive(Clone, Copy, Debug, PartialEq, Eq, Structural)]
pub struct Relocatable {
    pub segment_index: usize,
    pub offset: usize,
}

impl Relocatable {
    /// The address `offset` cells into segment `segment_index`.
    pub fn new(segment_index: usize, offset: usize) -> (r: Relocatable)
        ensures
            r == (Relocatable { segment_index, offset }),
    {
        Relocatable { segment_index, offset }
    }
}

/// A memory value: an integer or a relocatable address.
#[derive(Clone, Debug)]
pub enum MaybeRelocatable {
    Int(BigNum),
    RelocatableValue(Relocatable),
}

impl MaybeRelocatable {
    /// Whether two values are equal: integers by value, addresses by their
    /// segment and offset.
    pub open spec fn same_as(&self, other: &MaybeRelocatable) -> bool {
        match (self, other) {
            (MaybeRelocatable::Int(a), MaybeRelocatable::Int(b)) => a.value() == b.value(),
            (MaybeRelocatable::RelocatableValue(a), MaybeRelocatable::RelocatableValue(b)) => a
                == b,
            _ => false,
        }
    }

    /// The address `(segment_index, offset)` as a value.
    pub fn from_address(segment_index: usize, offset: usize) -> (r: MaybeRelocatable)
        ensures
            r == MaybeRelocatable::RelocatableValue(Relocatable { segment_index, offset }),
    {
        MaybeRelocatable::RelocatableValue(Relocatable { segment_index, offset })
    }

    /// A copy of this value.
    pub fn copy(&self) -> (r: MaybeRelocatable)
        ensures
            r.same_as(self),
            match (r, *self) {
                (MaybeRelocatable::Int(a), MaybeRelocatable::Int(b)) => a.digits@ == b.digits@
                    && a.negative == b.negative,
                (MaybeRelocatable::RelocatableValue(a), MaybeRelocatable::RelocatableValue(b)) => a
                    == b,
                _ => false,
            },
    {
        match self {
            MaybeRelocatable::Int(n) => MaybeRelocatable::Int(n.copy()),
            MaybeRelocatable::RelocatableValue(a) => MaybeRelocatable::RelocatableValue(*a),
        }
    }
}

impl PartialEq for MaybeRelocatable {
    fn eq(&self, other: &MaybeRelocatable) -> (r: bool) {
        match (self, other) {
            (MaybeRelocatable::Int(a), MaybeRelocatable::Int(b)) => a == b,
            (MaybeRelocatable::RelocatableValue(a), MaybeRelocatable::RelocatableValue(b)) => a
                == b,
            _ => false,
        }
    }
}

impl vstd::std_specs::cmp::PartialEqSpecImpl for MaybeRelocatable {
    open spec fn obeys_eq_spec() -> bool {
        true
    }

    open spec fn eq_spec(&self, other: &MaybeRelocatable) -> bool {
        self.same_as(other)
    }
}

} // verus!
