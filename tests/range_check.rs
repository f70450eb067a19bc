use cairo_builtins::bignum::BigNum;
use cairo_builtins::errors::MemoryError;
use cairo_builtins::memory::{Memory, ValidationRule};
use cairo_builtins::range_check::RangeCheckBuiltinRunner;
use cairo_builtins::relocatable::{MaybeRelocatable, Relocatable};
use cairo_builtins::segments::MemorySegmentManager;

fn integer(negative: bool, digits: Vec<u32>) -> MaybeRelocatable {
    MaybeRelocatable::Int(BigNum { negative, digits })
}

fn two_pow_128() -> BigNum {
    BigNum { negative: false, digits: vec![0, 0, 0, 0, 1] }
}

#[test]
fn initialize_segments_for_range_check() {
    let mut builtin = RangeCheckBuiltinRunner::new(BigNum::from_u64(8), 8);
    let mut segments = MemorySegmentManager::new();
    let mut memory = Memory::new();
    builtin.initialize_segments(&mut segments, &mut memory);
    assert_eq!(builtin.base, 0);
}

#[test]
fn get_initial_stack_for_range_check_with_base() {
    let mut builtin = RangeCheckBuiltinRunner::new(BigNum::from_u64(8), 8);
    builtin.base = 1;
    let initial_stack = builtin.initial_stack();
    assert_eq!(
        initial_stack[0].clone(),
        MaybeRelocatable::RelocatableValue(builtin.base())
    );
    assert_eq!(initial_stack.len(), 1);
}

#[test]
fn range_check_bound_for_eight_parts() {
    let builtin = RangeCheckBuiltinRunner::new(BigNum::from_u64(8), 8);
    assert_eq!(builtin._bound, two_pow_128());
    assert_eq!(builtin._inner_rc_bound, BigNum::from_u64(65536));
}

#[test]
fn range_check_bound_for_one_part() {
    let builtin = RangeCheckBuiltinRunner::new(BigNum::from_u64(8), 1);
    assert_eq!(builtin._bound, BigNum::from_u64(65536));
    assert_eq!(builtin._bound.digits, vec![65536]);
}

#[test]
fn range_check_bound_for_three_parts() {
    let builtin = RangeCheckBuiltinRunner::new(BigNum::from_u64(8), 3);
    assert_eq!(builtin._bound, BigNum { negative: false, digits: vec![0, 65536] });
}

#[test]
fn range_check_scenario_initialization() {
    let mut builtin = RangeCheckBuiltinRunner::new(BigNum::from_u64(8), 8);
    assert_eq!(builtin.base(), Relocatable::new(0, 0));
    let mut segments = MemorySegmentManager::new();
    let mut memory = Memory::new();
    builtin.initialize_segments(&mut segments, &mut memory);
    assert_eq!(builtin.base(), Relocatable::new(0, 0));
    assert_eq!(
        builtin.initial_stack(),
        vec![MaybeRelocatable::RelocatableValue(Relocatable::new(0, 0))]
    );
}

fn range_checked_memory() -> (RangeCheckBuiltinRunner, Memory) {
    let mut builtin = RangeCheckBuiltinRunner::new(BigNum::from_u64(8), 8);
    let mut segments = MemorySegmentManager::new();
    let mut memory = Memory::new();
    builtin.initialize_segments(&mut segments, &mut memory);
    builtin.add_validation_rule(&mut memory);
    (builtin, memory)
}

#[test]
fn range_check_scenario_bounds() {
    let (_builtin, mut memory) = range_checked_memory();
    let below = integer(false, vec![u32::MAX; 4]);
    assert_eq!(memory.insert(&Relocatable::new(0, 0), below.clone()), Ok(()));
    assert_eq!(memory.get(&Relocatable::new(0, 0)), Some(&below));
    let at_bound = MaybeRelocatable::Int(two_pow_128());
    assert_eq!(
        memory.insert(&Relocatable::new(0, 1), at_bound),
        Err(MemoryError::NumOutOfBounds)
    );
    assert_eq!(memory.get(&Relocatable::new(0, 1)), None);
}

#[test]
fn range_check_scenario_address_value() {
    let (_builtin, mut memory) = range_checked_memory();
    let address = MaybeRelocatable::RelocatableValue(Relocatable::new(0, 0));
    assert_eq!(
        memory.insert(&Relocatable::new(0, 0), address),
        Err(MemoryError::FoundNonInt)
    );
    assert_eq!(memory.get(&Relocatable::new(0, 0)), None);
}

#[test]
fn range_check_rule_on_cells() {
    let (builtin, mut memory) = range_checked_memory();
    let rule = builtin.validation_rule();
    memory.data[0] = vec![
        Some(integer(false, vec![])),
        Some(integer(true, vec![1])),
        Some(MaybeRelocatable::Int(two_pow_128())),
        Some(MaybeRelocatable::RelocatableValue(Relocatable::new(3, 4))),
        None,
        Some(integer(false, vec![12345])),
    ];
    let at = |offset: usize| Relocatable::new(0, offset);
    assert_eq!(rule.validate(&memory, &at(0)), Ok(at(0)));
    assert_eq!(rule.validate(&memory, &at(1)), Err(MemoryError::NumOutOfBounds));
    assert_eq!(rule.validate(&memory, &at(2)), Err(MemoryError::NumOutOfBounds));
    assert_eq!(rule.validate(&memory, &at(3)), Err(MemoryError::FoundNonInt));
    assert_eq!(rule.validate(&memory, &at(4)), Err(MemoryError::FoundNonInt));
    assert_eq!(rule.validate(&memory, &at(5)), Ok(at(5)));
    assert_eq!(rule.validate(&memory, &at(9)), Err(MemoryError::FoundNonInt));
}

#[test]
fn range_check_rule_is_idempotent() {
    let (builtin, mut memory) = range_checked_memory();
    let value = integer(false, vec![42]);
    assert_eq!(memory.insert(&Relocatable::new(0, 0), value.clone()), Ok(()));
    let rule = builtin.validation_rule();
    let first = rule.validate(&memory, &Relocatable::new(0, 0));
    let second = rule.validate(&memory, &Relocatable::new(0, 0));
    assert_eq!(first, Ok(Relocatable::new(0, 0)));
    assert_eq!(first, second);
    assert_eq!(memory.insert(&Relocatable::new(0, 0), value), Ok(()));
    assert_eq!(memory.validated_addresses, vec![Relocatable::new(0, 0)]);
}

#[test]
fn range_check_rule_for_one_part() {
    let rule = ValidationRule::RangeCheck { bound: BigNum::from_u64(65536) };
    let a = Relocatable::new(0, 0);
    assert_eq!(rule.check(Some(&integer(false, vec![65535])), &a), Ok(a));
    assert_eq!(rule.check(Some(&integer(false, vec![65536])), &a), Err(MemoryError::NumOutOfBounds));
    assert_eq!(rule.check(None, &a), Err(MemoryError::FoundNonInt));
}

#[test]
fn range_check_deduces_nothing() {
    let (mut builtin, memory) = range_checked_memory();
    assert_eq!(builtin.deduce_memory_cell(&Relocatable::new(0, 0), &memory), Ok(None));
}
