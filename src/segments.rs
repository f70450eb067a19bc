use vstd::prelude::*;
use crate::memory::Memory;
use crate::relocatable::Relocatable;

verus! {

/// Hands out segments of a memory, one index after another.
pub struct MemorySegmentManager {
    pub num_segments: usize,
}

impl MemorySegmentManager {
    /// A manager that has allocated nothing yet.
    pub fn new() -> (r: MemorySegmentManager)
        ensures
            r.num_segments == 0,
    {
        MemorySegmentManager { num_segments: 0 }
    }

    /// Allocates a fresh, empty segment of `memory` and returns its first
    /// address.
    pub fn add(&mut self, memory: &mut Memory) -> (r: Relocatable)
        requires
            old(self).num_segments < usize::MAX,
        ensures
            r == (Relocatable { segment_index: old(self).num_segments, offset: 0 }),
            final(self).num_segments == old(self).num_segments + 1,
            final(memory).num_segments() == old(memory).num_segments() + 1,
            forall|a: Relocatable| a.segment_index < old(memory).num_segments() ==> #[trigger] final(memory).cell(a) == old(memory).cell(a),
            forall|a: Relocatable| a.segment_index == old(memory).num_segments() ==> #[trigger] final(memory).cell(a) is None,
            final(memory).validation_rules == old(memory).validation_rules,
            final(memory).validated_addresses == old(memory).validated_addresses,
    {
        let segment_index = self.num_segments;
        memory.add_segment();
        self.num_segments = segment_index + 1;
        Relocatable { segment_index, offset: 0 }
    }
}

} // verus!
