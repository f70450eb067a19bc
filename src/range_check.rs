use vstd::prelude::*;
use vstd::arithmetic::power::{lemma_pow1, lemma_pow_strictly_increases, pow};
use crate::bignum::BigNum;
use crate::errors::RunnerError;
use crate::memory::{Memory, ValidationRule};
use crate::relocatable::{MaybeRelocatable, Relocatable};
use crate::segments::MemorySegmentManager;

verus! {

/// Width of one limb of a range-checked value: 2^16.
pub open spec fn inner_rc_bound() -> int {
    65536
}

/// The range-check builtin: every integer written to its segment must lie in
/// `[0, bound)` with `bound = (2^16)^n_parts`, and nothing but integers may be
/// written there.
pub struct RangeCheckBuiltinRunner {
    pub _ratio: BigNum,
    pub base: usize,
    pub _stop_ptr: Option<Relocatable>,
    pub _cells_per_instance: i32,
    pub _n_input_cells: i32,
    pub _inner_rc_bound: BigNum,
    pub _bound: BigNum,
    pub _n_parts: u32,
}

impl RangeCheckBuiltinRunner {
    /// The first address of this builtin's segment.
    pub open spec fn base_address(&self) -> Relocatable {
        Relocatable { segment_index: self.base, offset: 0 }
    }

    /// A runner with the given ratio and number of 16-bit parts, whose
    /// segment is not yet claimed: its base is 0.
    pub fn new(ratio: BigNum, n_parts: u32) -> (r: RangeCheckBuiltinRunner)
        ensures
            r._bound.value() == pow(inner_rc_bound(), n_parts as nat),
            r._inner_rc_bound.value() == inner_rc_bound(),
            n_parts > 1 ==> r._bound.value() > r._inner_rc_bound.value(),
            r._n_parts == n_parts,
            r._ratio == ratio,
            r.base == 0,
            r.base_address() == (Relocatable { segment_index: 0, offset: 0 }),
            r._stop_ptr is None,
            r._cells_per_instance == 1,
            r._n_input_cells == 1,
    {
        let inner = BigNum::from_u64(65536);
        let bound = inner.pow(n_parts);
        proof {
            if n_parts > 1 {
                lemma_pow1(inner_rc_bound());
                lemma_pow_strictly_increases(inner_rc_bound() as nat, 1, n_parts as nat);
            }
        }
        RangeCheckBuiltinRunner {
            _ratio: ratio,
            base: 0,
            _stop_ptr: None,
            _cells_per_instance: 1,
            _n_input_cells: 1,
            _inner_rc_bound: inner,
            _bound: bound,
            _n_parts: n_parts,
        }
    }

    /// Claims a fresh segment and makes it this runner's base.
    pub fn initialize_segments(&mut self, segments: &mut MemorySegmentManager, memory: &mut Memory)
        requires
            old(segments).num_segments < usize::MAX,
        ensures
            final(self).base == old(segments).num_segments,
            final(self).base_address() == (Relocatable { segment_index: old(segments).num_segments, offset: 0 }),
            final(self)._bound == old(self)._bound,
            final(self)._ratio == old(self)._ratio,
            final(self)._n_parts == old(self)._n_parts,
            final(segments).num_segments == old(segments).num_segments + 1,
            final(memory).num_segments() == old(memory).num_segments() + 1,
            forall|a: Relocatable| a.segment_index < old(memory).num_segments() ==> #[trigger] final(memory).cell(a) == old(memory).cell(a),
            forall|a: Relocatable| a.segment_index == old(memory).num_segments() ==> #[trigger] final(memory).cell(a) is None,
            final(memory).validation_rules == old(memory).validation_rules,
            final(memory).validated_addresses == old(memory).validated_addresses,
    {
        self.base = segments.add(memory).segment_index;
    }

    /// The one value this builtin puts on the initial stack: its base address.
    pub fn initial_stack(&self) -> (r: Vec<MaybeRelocatable>)
        ensures
            r@ == seq![MaybeRelocatable::RelocatableValue(self.base_address())],
    {
        let mut stack: Vec<MaybeRelocatable> = Vec::new();
        stack.push(MaybeRelocatable::from_address(self.base, 0));
        stack
    }

    /// The first address of this builtin's segment.
    pub fn base(&self) -> (r: Relocatable)
        ensures
            r == self.base_address(),
    {
        Relocatable::new(self.base, 0)
    }

    /// The rule this builtin puts on its segment: integers in `[0, bound)`.
    pub fn validation_rule(&self) -> (r: ValidationRule)
        ensures
            r matches ValidationRule::RangeCheck { bound } && bound.value() == self._bound.value(),
    {
        ValidationRule::RangeCheck { bound: self._bound.copy() }
    }

    /// Installs the range-check rule for this builtin's segment.
    pub fn add_validation_rule(&self, memory: &mut Memory)
        ensures
            final(memory).rule_of(self.base) matches Some(ValidationRule::RangeCheck { bound })
                && bound.value() == self._bound.value(),
            forall|s: usize| s != self.base ==> #[trigger] final(memory).rule_of(s) == old(memory).rule_of(s),
            final(memory).data == old(memory).data,
            final(memory).validated_addresses == old(memory).validated_addresses,
    {
        memory.add_validation_rule(self.base, self.validation_rule());
    }

    /// Deduces nothing: the range check only constrains what is written.
    pub fn deduce_memory_cell(&mut self, _address: &Relocatable, _memory: &Memory) -> (r: Result<
        Option<MaybeRelocatable>,
        RunnerError,
    >)
        ensures
            r == Ok::<Option<MaybeRelocatable>, RunnerError>(None),
            *final(self) == *old(self),
    {
        Ok(None)
    }
}

} // verus!
