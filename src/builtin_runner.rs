use vstd::prelude::*;
use crate::errors::RunnerError;
use crate::memory::{Memory, ValidationRule};
use crate::output::OutputBuiltinRunner;
use crate::range_check::RangeCheckBuiltinRunner;
use crate::relocatable::{MaybeRelocatable, Relocatable};
use crate::segments::MemorySegmentManager;

verus! {

/// A builtin of either kind, with one operation per step of its lifecycle.
pub enum BuiltinRunner {
    Output(OutputBuiltinRunner),
    RangeCheck(RangeCheckBuiltinRunner),
}

impl BuiltinRunner {
    /// The first address of the builtin's segment.
    pub open spec fn base_address(&self) -> Relocatable {
        match self {
            BuiltinRunner::Output(b) => b.base_address(),
            BuiltinRunner::RangeCheck(b) => b.base_address(),
        }
    }

    /// The values the builtin puts on the initial stack.
    pub open spec fn initial_stack_spec(&self) -> Seq<MaybeRelocatable> {
        seq![MaybeRelocatable::RelocatableValue(self.base_address())]
    }

    /// Claims a fresh segment and makes it the builtin's base.
    pub fn initialize_segments(&mut self, segments: &mut MemorySegmentManager, memory: &mut Memory)
        requires
            old(segments).num_segments < usize::MAX,
        ensures
            final(self).base_address() == (Relocatable { segment_index: old(segments).num_segments, offset: 0 }),
            (*final(self) is Output) == (*old(self) is Output),
            final(segments).num_segments == old(segments).num_segments + 1,
            final(memory).num_segments() == old(memory).num_segments() + 1,
            forall|a: Relocatable| a.segment_index < old(memory).num_segments() ==> #[trigger] final(memory).cell(a) == old(memory).cell(a),
            forall|a: Relocatable| a.segment_index == old(memory).num_segments() ==> #[trigger] final(memory).cell(a) is None,
            final(memory).validation_rules == old(memory).validation_rules,
            final(memory).validated_addresses == old(memory).validated_addresses,
    {
        match self {
            BuiltinRunner::Output(b) => b.initialize_segments(segments, memory),
            BuiltinRunner::RangeCheck(b) => b.initialize_segments(segments, memory),
        }
    }

    /// The values the builtin puts on the initial stack: its base address.
    pub fn initial_stack(&self) -> (r: Vec<MaybeRelocatable>)
        ensures
            r@ == self.initial_stack_spec(),
    {
        match self {
            BuiltinRunner::Output(b) => b.initial_stack(),
            BuiltinRunner::RangeCheck(b) => b.initial_stack(),
        }
    }

    /// The first address of the builtin's segment.
    pub fn base(&self) -> (r: Relocatable)
        ensures
            r == self.base_address(),
    {
        match self {
            BuiltinRunner::Output(b) => b.base(),
            BuiltinRunner::RangeCheck(b) => b.base(),
        }
    }

    /// Installs the builtin's rule for its segment: none for the output
    /// builtin, the range check `[0, bound)` for the range-check builtin.
    pub fn add_validation_rule(&self, memory: &mut Memory)
        ensures
            final(memory).data == old(memory).data,
            final(memory).validated_addresses == old(memory).validated_addresses,
            forall|s: usize| s != self.base_address().segment_index ==> #[trigger] final(memory).rule_of(s) == old(memory).rule_of(s),
            self is Output ==> *final(memory) == *old(memory),
            self matches BuiltinRunner::RangeCheck(b) ==> (final(memory).rule_of(b.base) matches Some(ValidationRule::RangeCheck { bound })
                && bound.value() == b._bound.value()),
    {
        match self {
            BuiltinRunner::Output(b) => b.add_validation_rule(memory),
            BuiltinRunner::RangeCheck(b) => b.add_validation_rule(memory),
        }
    }

    /// Deduces the cell at `address`; neither kind deduces anything.
    pub fn deduce_memory_cell(&mut self, address: &Relocatable, memory: &Memory) -> (r: Result<
        Option<MaybeRelocatable>,
        RunnerError,
    >)
        ensures
            r == Ok::<Option<MaybeRelocatable>, RunnerError>(None),
            *final(self) == *old(self),
    {
        match self {
            BuiltinRunner::Output(b) => b.deduce_memory_cell(address, memory),
            BuiltinRunner::RangeCheck(b) => b.deduce_memory_cell(address, memory),
        }
    }
}

/// The initial stack is a function of the base alone: two builtins with the
/// same base, of either kind, put the same values on the stack, and asking a
/// builtin twice gives the same answer.
pub proof fn lemma_initial_stack_determined_by_base(b1: BuiltinRunner, b2: BuiltinRunner)
    requires
        b1.base_address() == b2.base_address(),
    ensures
        b1.initial_stack_spec() == b2.initial_stack_spec(),
        b1.initial_stack_spec().len() == 1,
        b1.initial_stack_spec()[0] == MaybeRelocatable::RelocatableValue(b1.base_address()),
{
}

} // verus!
