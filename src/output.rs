use vstd::prelude::*;
use crate::errors::RunnerError;
use crate::memory::Memory;
use crate::relocatable::{MaybeRelocatable, Relocatable};
use crate::segments::MemorySegmentManager;

verus! {

/// The output builtin: a segment where the program writes its public output,
/// with no rule on what is written and nothing deduced.
pub struct OutputBuiltinRunner {
    pub base: usize,
    pub _stop_ptr: Option<Relocatable>,
}

impl OutputBuiltinRunner {
    /// The first address of this builtin's segment.
    pub open spec fn base_address(&self) -> Relocatable {
        Relocatable { segment_index: self.base, offset: 0 }
    }

    /// A runner whose segment is not yet claimed: its base is 0.
    pub fn new() -> (r: OutputBuiltinRunner)
        ensures
            r.base == 0,
            r.base_address() == (Relocatable { segment_index: 0, offset: 0 }),
            r._stop_ptr is None,
    {
        OutputBuiltinRunner { base: 0, _stop_ptr: None }
    }

    /// Claims a fresh segment and makes it this runner's base.
    pub fn initialize_segments(&mut self, segments: &mut MemorySegmentManager, memory: &mut Memory)
        requires
            old(segments).num_segments < usize::MAX,
        ensures
            final(self).base == old(segments).num_segments,
            final(self).base_address() == (Relocatable { segment_index: old(segments).num_segments, offset: 0 }),
            final(self)._stop_ptr == old(self)._stop_ptr,
            final(segments).num_segments == old(segments).num_segments + 1,
            final(memory).num_segments() == old(memory).num_segments() + 1,
            forall|a: Relocatable| a.segment_index < old(memory).num_segments() ==> #[trigger] final(memory).cell(a) == old(memory).cell(a),
            forall|a: Relocatable| a.segment_index == old(memory).num_segments() ==> #[trigger] final(memory).cell(a) is None,
            final(memory).validation_rules == old(memory).validation_rules,
            final(memory).validated_addresses == old(memory).validated_addresses,
    {
        self.base = segments.add(memory).segment_index;
    }

    /// The one value this builtin puts on the initial stack: its base address.
    pub fn initial_stack(&self) -> (r: Vec<MaybeRelocatable>)
        ensures
            r@ == seq![MaybeRelocatable::RelocatableValue(self.base_address())],
    {
        let mut stack: Vec<MaybeRelocatable> = Vec::new();
        stack.push(MaybeRelocatable::from_address(self.base, 0));
        stack
    }

    /// The first address of this builtin's segment.
    pub fn base(&self) -> (r: Relocatable)
        ensures
            r == self.base_address(),
    {
        Relocatable::new(self.base, 0)
    }

    /// Installs no rule: any value may be written to the output segment.
    pub fn add_validation_rule(&self, memory: &mut Memory)
        ensures
            *final(memory) == *old(memory),
    {
    }

    /// Deduces nothing.
    pub fn deduce_memory_cell(&mut self, _address: &Relocatable, _memory: &Memory) -> (r: Result<
        Option<MaybeRelocatable>,
        RunnerError,
    >)
        ensures
            r == Ok::<Option<MaybeRelocatable>, RunnerError>(None),
            *final(self) == *old(self),
    {
        Ok(None)
    }
}

impl Default for OutputBuiltinRunner {
    fn default() -> (r: OutputBuiltinRunner)
        ensures
            r.base == 0,
            r._stop_ptr is None,
    {
        OutputBuiltinRunner::new()
    }
}

} // verus!
