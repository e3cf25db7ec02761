//! Primitive values the interpreter reads out of the simulated heap.

use vstd::prelude::*;
use crate::memory::MemoryPointer;

verus! {

/// A primitive value: raw bytes, a pointer, or undefined contents.
#[derive(Clone, Copy, Debug)]
pub enum PrimVal {
    Bytes(u128),
    Ptr(MemoryPointer),
    Undef,
}

/// A value of the interpreted program as the evaluator handles it.
#[derive(Clone, Copy, Debug)]
pub enum Value {
    ByRef(MemoryPointer),
    ByVal(PrimVal),
    ByValPair(PrimVal, PrimVal),
}

} // verus!
