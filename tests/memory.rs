use cairo_builtins::bignum::BigNum;
use cairo_builtins::builtin_runner::BuiltinRunner;
use cairo_builtins::errors::MemoryError;
use cairo_builtins::memory::Memory;
use cairo_builtins::output::OutputBuiltinRunner;
use cairo_builtins::range_check::RangeCheckBuiltinRunner;
use cairo_builtins::relocatable::{MaybeRelocatable, Relocatable};
use cairo_builtins::segments::MemorySegmentManager;
use std::cmp::Ordering;

#[test]
fn insert_into_unallocated_segment() {
    let mut memory = Memory::new();
    let value = MaybeRelocatable::Int(BigNum::from_u64(1));
    assert_eq!(
        memory.insert(&Relocatable::new(2, 0), value),
        Err(MemoryError::UnallocatedSegment(2, 0))
    );
}

#[test]
fn insert_inconsistent_value() {
    let mut segments = MemorySegmentManager::new();
    let mut memory = Memory::new();
    segments.add(&mut memory);
    let key = Relocatable::new(0, 3);
    assert_eq!(memory.insert(&key, MaybeRelocatable::Int(BigNum::from_u64(1))), Ok(()));
    assert_eq!(memory.insert(&key, MaybeRelocatable::Int(BigNum::from_u64(1))), Ok(()));
    assert_eq!(
        memory.insert(&key, MaybeRelocatable::Int(BigNum::from_u64(2))),
        Err(MemoryError::InconsistentMemory(key))
    );
    assert_eq!(memory.data[0].len(), 4);
    assert_eq!(memory.get(&Relocatable::new(0, 1)), None);
}

#[test]
fn bignum_from_u64_and_compare() {
    let big = BigNum::from_u64(0x1_0000_0005);
    assert_eq!(big.digits, vec![5, 1]);
    assert_eq!(big.compare(&BigNum::from_u64(6)), Ordering::Greater);
    assert_eq!(BigNum::from_u64(6).compare(&big), Ordering::Less);
    let minus_one = BigNum { negative: true, digits: vec![1] };
    assert_eq!(minus_one.compare(&BigNum::zero()), Ordering::Less);
    let padded_zero = BigNum { negative: true, digits: vec![0, 0] };
    assert_eq!(padded_zero.compare(&BigNum::zero()), Ordering::Equal);
    assert_eq!(padded_zero, BigNum::zero());
}

#[test]
fn bignum_pow() {
    let three = BigNum::from_u64(3);
    assert_eq!(three.pow(4), BigNum::from_u64(81));
    assert_eq!(three.pow(0), BigNum::from_u64(1));
    let minus_two = BigNum { negative: true, digits: vec![2] };
    assert_eq!(minus_two.pow(3), BigNum { negative: true, digits: vec![8] });
    assert_eq!(BigNum::from_u64(2).pow(64), BigNum { negative: false, digits: vec![0, 0, 1] });
}

#[test]
fn builtins_through_common_interface() {
    let mut segments = MemorySegmentManager::new();
    let mut memory = Memory::new();
    let mut builtins = vec![
        BuiltinRunner::Output(OutputBuiltinRunner::new()),
        BuiltinRunner::RangeCheck(RangeCheckBuiltinRunner::new(BigNum::from_u64(8), 8)),
    ];
    for b in builtins.iter() {
        assert_eq!(b.base(), Relocatable::new(0, 0));
    }
    for b in builtins.iter_mut() {
        b.initialize_segments(&mut segments, &mut memory);
        b.add_validation_rule(&mut memory);
    }
    assert_eq!(builtins[0].base(), Relocatable::new(0, 0));
    assert_eq!(builtins[1].base(), Relocatable::new(1, 0));
    let mut stack = Vec::new();
    for b in builtins.iter() {
        stack.extend(b.initial_stack());
    }
    assert_eq!(
        stack,
        vec![
            MaybeRelocatable::RelocatableValue(Relocatable::new(0, 0)),
            MaybeRelocatable::RelocatableValue(Relocatable::new(1, 0)),
        ]
    );
    let address = MaybeRelocatable::RelocatableValue(Relocatable::new(0, 0));
    assert_eq!(memory.insert(&Relocatable::new(0, 0), address.clone()), Ok(()));
    assert_eq!(
        memory.insert(&Relocatable::new(1, 0), address),
        Err(MemoryError::FoundNonInt)
    );
    assert_eq!(
        builtins[1].deduce_memory_cell(&Relocatable::new(1, 0), &memory),
        Ok(None)
    );
}
