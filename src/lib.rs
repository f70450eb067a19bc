//! Builtin runners of a segmented, relocatable-memory virtual machine: the
//! output builtin and the range-check builtin, with the memory model they
//! install their validation rules into.

pub mod bignum;
pub mod errors;
pub mod relocatable;
pub mod memory;
pub mod output;
pub mod segments;
pub mod range_check;
pub mod builtin_runner;
