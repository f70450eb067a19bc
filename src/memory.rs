use vstd::prelude::*;
use crate::bignum::BigNum;
use crate::errors::MemoryError;
use crate::relocatable::{MaybeRelocatable, Relocatable};

verus! {

/// The value that an optional reference points to.
pub open spec fn deref_cell(c: Option<&MaybeRelocatable>) -> Option<MaybeRelocatable> {
    match c {
        Some(v) => Some(*v),
        None => None,
    }
}

/// A rule that memory runs on the first write to each address of a segment.
#[derive(Clone, Debug)]
pub enum ValidationRule {
    /// The cell must hold an integer in `[0, bound)`.
    RangeCheck { bound: BigNum },
}

impl ValidationRule {
    /// What the rule says of an address whose cell holds `cell`: the address
    /// itself when accepted, else the reason for refusal.
    pub open spec fn outcome(&self, cell: Option<MaybeRelocatable>, address: Relocatable) -> Result<
        Relocatable,
        MemoryError,
    > {
        match self {
            ValidationRule::RangeCheck { bound } => match cell {
                Some(MaybeRelocatable::Int(n)) => if 0 <= n.value() && n.value() < bound.value() {
                    Ok(address)
                } else {
                    Err(MemoryError::NumOutOfBounds)
                },
                _ => Err(MemoryError::FoundNonInt),
            },
        }
    }

    /// Applies the rule to a cell's content.
    pub fn check(&self, cell: Option<&MaybeRelocatable>, address: &Relocatable) -> (r: Result<
        Relocatable,
        MemoryError,
    >)
        ensures
            r == self.outcome(deref_cell(cell), *address),
    {
        match self {
            ValidationRule::RangeCheck { bound } => match cell {
                Some(MaybeRelocatable::Int(n)) => {
                    let zero = BigNum::zero();
                    let above_zero = match n.compare(&zero) {
                        core::cmp::Ordering::Less => false,
                        _ => true,
                    };
                    let below_bound = match n.compare(bound) {
                        core::cmp::Ordering::Less => true,
                        _ => false,
                    };
                    if above_zero && below_bound {
                        Ok(*address)
                    } else {
                        Err(MemoryError::NumOutOfBounds)
                    }
                },
                _ => Err(MemoryError::FoundNonInt),
            },
        }
    }

    /// Applies the rule to the cell of `memory` at `address`.
    pub fn validate(&self, memory: &Memory, address: &Relocatable) -> (r: Result<
        Relocatable,
        MemoryError,
    >)
        ensures
            r == self.outcome(memory.cell(*address), *address),
    {
        self.check(memory.get(address), address)
    }
}

/// Segmented memory: each segment a sequence of cells that may be unset, the
/// validation rule installed for each segment, and the addresses that a rule
/// has already accepted.
pub struct Memory {
    pub data: Vec<Vec<Option<MaybeRelocatable>>>,
    pub validation_rules: Vec<Option<ValidationRule>>,
    pub validated_addresses: Vec<Relocatable>,
}

impl Memory {
    /// The content of the cell at `a`; `None` where it is unset or outside
    /// every segment.
    pub open spec fn cell(&self, a: Relocatable) -> Option<MaybeRelocatable> {
        if a.segment_index < self.data@.len() && a.offset < self.data@[a.segment_index as int]@.len() {
            self.data@[a.segment_index as int]@[a.offset as int]
        } else {
            None
        }
    }

    /// The number of segments.
    pub open spec fn num_segments(&self) -> nat {
        self.data@.len()
    }

    /// The rule installed for segment `segment_index`, if any.
    pub open spec fn rule_of(&self, segment_index: usize) -> Option<ValidationRule> {
        if segment_index < self.validation_rules@.len() {
            self.validation_rules@[segment_index as int]
        } else {
            None
        }
    }

    /// Whether a rule has already accepted the address `a`.
    pub open spec fn is_validated(&self, a: Relocatable) -> bool {
        self.validated_addresses@.contains(a)
    }

    /// What `insert(key, val)` returns on this memory.
    pub open spec fn insert_outcome(&self, key: Relocatable, val: MaybeRelocatable) -> Result<
        (),
        MemoryError,
    > {
        if key.segment_index >= self.data@.len() {
            Err(MemoryError::UnallocatedSegment(key.segment_index, self.data@.len() as usize))
        } else if self.cell(key) is Some && !self.cell(key)->Some_0.same_as(&val) {
            Err(MemoryError::InconsistentMemory(key))
        } else if self.rule_of(key.segment_index) is Some && !self.is_validated(key)
            && self.rule_of(key.segment_index)->Some_0.outcome(Some(val), key) is Err {
            Err(self.rule_of(key.segment_index)->Some_0.outcome(Some(val), key)->Err_0)
        } else {
            Ok(())
        }
    }

    /// An empty memory: no segment, no rule.
    pub fn new() -> (r: Memory)
        ensures
            r.data@.len() == 0,
            r.validation_rules@.len() == 0,
            r.validated_addresses@.len() == 0,
    {
        Memory { data: Vec::new(), validation_rules: Vec::new(), validated_addresses: Vec::new() }
    }

    /// The content of the cell at `a`.
    pub fn get(&self, a: &Relocatable) -> (r: Option<&MaybeRelocatable>)
        ensures
            deref_cell(r) == self.cell(*a),
    {
        if a.segment_index < self.data.len() && a.offset < self.data[a.segment_index].len() {
            self.data[a.segment_index][a.offset].as_ref()
        } else {
            None
        }
    }

    /// Appends an empty segment.
    pub fn add_segment(&mut self)
        ensures
            final(self).data@.len() == old(self).data@.len() + 1,
            final(self).data@.last()@.len() == 0,
            forall|a: Relocatable| a.segment_index < old(self).data@.len() ==> #[trigger] final(self).cell(a) == old(self).cell(a),
            forall|a: Relocatable| a.segment_index == old(self).data@.len() ==> #[trigger] final(self).cell(a) is None,
            final(self).validation_rules == old(self).validation_rules,
            final(self).validated_addresses == old(self).validated_addresses,
    {
        self.data.push(Vec::new());
    }

    /// Installs `rule` for segment `segment_index`, in place of any earlier one.
    pub fn add_validation_rule(&mut self, segment_index: usize, rule: ValidationRule)
        ensures
            final(self).rule_of(segment_index) == Some(rule),
            forall|s: usize| s != segment_index ==> #[trigger] final(self).rule_of(s) == old(self).rule_of(s),
            final(self).data == old(self).data,
            final(self).validated_addresses == old(self).validated_addresses,
    {
        let ghost old_rules = self.validation_rules@;
        while self.validation_rules.len() <= segment_index
            invariant
                old_rules.len() <= self.validation_rules@.len(),
                self.validation_rules@.subrange(0, old_rules.len() as int) == old_rules,
                forall|i: int|
                    old_rules.len() <= i < self.validation_rules@.len()
                        ==> #[trigger] self.validation_rules@[i] is None,
                self.data == old(self).data,
                self.validated_addresses == old(self).validated_addresses,
            decreases segment_index + 1 - self.validation_rules@.len(),
        {
            self.validation_rules.push(None);
        }
        assert forall|s: usize| s < old_rules.len() implies self.validation_rules@[s as int] == old_rules[s as int] by {
            assert(self.validation_rules@.subrange(0, old_rules.len() as int)[s as int] == self.validation_rules@[s as int]);
        }
        let mut slot = Some(rule);
        self.validation_rules.set_and_swap(segment_index, &mut slot);
    }

    /// Whether a rule has already accepted the address `a`.
    pub fn check_validated(&self, a: &Relocatable) -> (r: bool)
        ensures
            r == self.is_validated(*a),
    {
        let n = self.validated_addresses.len();
        let mut i: usize = 0;
        while i < n
            invariant
                n == self.validated_addresses@.len(),
                i <= n,
                forall|j: int| 0 <= j < i ==> self.validated_addresses@[j] != *a,
            decreases n - i,
        {
            if self.validated_addresses[i] == *a {
                return true;
            }
            i = i + 1;
        }
        false
    }

    /// Writes `val` at `key`. Refused when the segment was never allocated,
    /// when the cell already holds a different value, or when the segment's
    /// rule, on the first write to `key`, refuses `val`; a refused write
    /// leaves memory unchanged. Gaps before `key` in its segment stay unset.
    pub fn insert(&mut self, key: &Relocatable, val: MaybeRelocatable) -> (r: Result<(), MemoryError>)
        ensures
            r == old(self).insert_outcome(*key, val),
            r is Err ==> *final(self) == *old(self),
            r is Ok ==> {
                &&& final(self).cell(*key) == Some(val)
                &&& forall|a: Relocatable| a != *key ==> #[trigger] final(self).cell(a) == old(self).cell(a)
                &&& final(self).num_segments() == old(self).num_segments()
                &&& final(self).validation_rules == old(self).validation_rules
                &&& old(self).rule_of(key.segment_index) is Some ==> final(self).is_validated(*key)
                &&& forall|a: Relocatable| #[trigger] final(self).is_validated(a) ==> old(self).is_validated(a) || a == *key
                &&& forall|a: Relocatable| old(self).is_validated(a) ==> #[trigger] final(self).is_validated(a)
                &&& (old(self).rule_of(key.segment_index) is Some && !old(self).is_validated(*key))
                    ==> old(self).rule_of(key.segment_index)->Some_0.outcome(final(self).cell(*key), *key)
                    == Ok::<Relocatable, MemoryError>(*key)
            },
    {
        let seg = key.segment_index;
        let off = key.offset;
        let n = self.data.len();
        if seg >= n {
            return Err(MemoryError::UnallocatedSegment(seg, n));
        }
        match self.get(key) {
            Some(cur) => {
                if !cur.eq(&val) {
                    return Err(MemoryError::InconsistentMemory(*key));
                }
            },
            None => {},
        }
        let validated = self.check_validated(key);
        let mut newly_validated = false;
        if seg < self.validation_rules.len() {
            match &self.validation_rules[seg] {
                Some(rule) => {
                    if !validated {
                        match rule.check(Some(&val), key) {
                            Err(e) => {
                                return Err(e);
                            },
                            Ok(_) => {
                                newly_validated = true;
                            },
                        }
                    }
                },
                None => {},
            }
        }
        if newly_validated {
            self.validated_addresses.push(*key);
        }
        proof {
            assert forall|a: Relocatable| old(self).is_validated(a) implies self.is_validated(a) by {
                let j = choose|j: int| 0 <= j < old(self).validated_addresses@.len() && old(self).validated_addresses@[j] == a;
                assert(self.validated_addresses@[j] == a);
            }
            if newly_validated {
                assert(self.validated_addresses@[self.validated_addresses@.len() - 1] == *key);
            }
            assert forall|a: Relocatable| self.is_validated(a) implies old(self).is_validated(a) || a == *key by {
                let j = choose|j: int| 0 <= j < self.validated_addresses@.len() && self.validated_addresses@[j] == a;
                if j < old(self).validated_addresses@.len() {
                    assert(old(self).validated_addresses@[j] == a);
                }
            }
        }
        let ghost mid = *self;
        let mut row: Vec<Option<MaybeRelocatable>> = Vec::new();
        self.data.set_and_swap(seg, &mut row);
        let ghost orig = row@;
        while row.len() < off
            invariant
                orig.len() <= row@.len(),
                row@.subrange(0, orig.len() as int) == orig,
                forall|i: int| orig.len() <= i < row@.len() ==> #[trigger] row@[i] is None,
            decreases off - row@.len(),
        {
            row.push(None);
        }
        if off < row.len() {
            row.set(off, Some(val));
        } else {
            row.push(Some(val));
        }
        proof {
            assert forall|i: int| 0 <= i < orig.len() && i != off implies row@[i] == orig[i] by {
                assert(orig[i] == row@.subrange(0, orig.len() as int)[i]);
            }
        }
        self.data.set_and_swap(seg, &mut row);
        proof {
            assert forall|a: Relocatable| a != *key implies #[trigger] self.cell(a) == mid.cell(a) by {
                if a.segment_index == seg && a.offset < self.data@[seg as int]@.len() {
                    if a.offset < orig.len() {
                        assert(self.data@[seg as int]@[a.offset as int] == orig[a.offset as int]);
                    }
                }
            }
        }
        Ok(())
    }
}

/// A rule's verdict on an address depends on that address's cell alone: once
/// it has accepted an address, running it again on any memory in which that
/// cell is unchanged accepts again, and hands back the same address.
pub proof fn lemma_validation_idempotent(
    rule: ValidationRule,
    first: Memory,
    second: Memory,
    address: Relocatable,
)
    requires
        rule.outcome(first.cell(address), address) == Ok::<Relocatable, MemoryError>(address),
        second.cell(address) == first.cell(address),
    ensures
        rule.outcome(second.cell(address), address) == rule.outcome(first.cell(address), address),
        rule.outcome(second.cell(address), address) == Ok::<Relocatable, MemoryError>(address),
{
}

} // verus!
