use vstd::prelude::*;
use crate::relocatable::Relocatable;

verus! {

/// Why a memory write, or the validation of a cell, was refused.
#[derive(Clone, Copy, Debug, PartialEq, Eq, Structural)]
pub enum MemoryError {
    /// The address names a segment that was never allocated: the segment
    /// index, and the number of segments.
    UnallocatedSegment(usize, usize),
    /// The cell already holds a different value.
    InconsistentMemory(Relocatable),
    /// A range-checked cell holds an integer outside the bound.
    NumOutOfBounds,
    /// A range-checked cell holds an address, or nothing.
    FoundNonInt,
}

/// Why a builtin could not deduce a memory cell.
#[derive(Clone, Copy, Debug, PartialEq, Eq, Structural)]
pub enum RunnerError {
    /// The cells that a deduction reads are not all set.
    MissingInputCells(Relocatable),
}

} // verus!
