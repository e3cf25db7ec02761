use evalcore::error::{BinOp, EvalError, MathError, Span, StaticEvalError};
use evalcore::memory::{MemoryPointer, PointerOffset};
use evalcore::render::dec_string;
use evalcore::ty::{FnSig, LayoutError, Ty};

#[test]
fn decimal_rendering() {
    assert_eq!(dec_string(0), "0");
    assert_eq!(dec_string(7), "7");
    assert_eq!(dec_string(10), "10");
    assert_eq!(dec_string(12345), "12345");
    assert_eq!(dec_string(u64::MAX as u128), "18446744073709551615");
}

#[test]
fn descriptions_are_fixed() {
    assert_eq!(
        EvalError::DanglingPointerDeref.description(),
        "dangling pointer was dereferenced"
    );
    assert_eq!(
        EvalError::ModifiedConstantMemory.description(),
        "tried to modify constant memory"
    );
    assert_eq!(
        EvalError::DeallocatedStaticMemory.description(),
        "tried to deallocate static memory"
    );
    assert_eq!(
        EvalError::HeapAllocZeroBytes.description(),
        "tried to re-, de- or allocate zero bytes on the heap"
    );
    assert_eq!(
        EvalError::PointerOutOfBounds {
            ptr: MemoryPointer::new(0, 0),
            access: true,
            allocation_size: 1,
        }
        .description(),
        "pointer offset outside bounds of allocation"
    );
    assert_eq!(
        EvalError::Unimplemented(String::from("something odd")).description(),
        "something odd"
    );
}

#[test]
fn message_pointer_out_of_bounds_access() {
    let e = EvalError::PointerOutOfBounds {
        ptr: MemoryPointer::new(0, 10),
        access: true,
        allocation_size: 8,
    };
    assert_eq!(
        e.message(),
        "memory access at offset 10, outside bounds of allocation 0 which has size 8"
    );
}

#[test]
fn message_pointer_out_of_bounds_computation() {
    let e = EvalError::PointerOutOfBounds {
        ptr: MemoryPointer::new(3, 10),
        access: false,
        allocation_size: 8,
    };
    assert_eq!(
        e.message(),
        "pointer computed at offset 10, outside bounds of allocation 3 which has size 8"
    );
}

#[test]
fn message_out_of_memory() {
    let e = EvalError::OutOfMemory {
        allocation_size: 24,
        memory_size: 16,
        memory_usage: 0,
    };
    assert_eq!(
        e.message(),
        "tried to allocate 24 more bytes, but only 16 bytes are free of the 16 byte memory"
    );
}

#[test]
fn message_alignment() {
    let e = EvalError::AlignmentCheckFailed { required: 8, has: 4 };
    assert_eq!(
        e.message(),
        "tried to access memory with alignment 4, but alignment 8 is required"
    );
}

#[test]
fn message_invalid_char() {
    assert_eq!(
        EvalError::InvalidChar(1114112).message(),
        "tried to interpret an invalid 32-bit value as a char: 1114112"
    );
}

#[test]
fn message_array_index() {
    let e = EvalError::ArrayIndexOutOfBounds(Span { lo: 3, hi: 9 }, 5, 7);
    assert_eq!(
        e.message(),
        "index out of bounds: the len is 5 but the index is 7 at span(3..9)"
    );
}

#[test]
fn message_math() {
    let e = EvalError::Math(Span { lo: 1, hi: 2 }, MathError::DivisionByZero);
    assert_eq!(e.message(), "DivisionByZero at span(1..2)");
    let e = EvalError::Math(Span { lo: 4, hi: 6 }, MathError::Overflow(BinOp::Add));
    assert_eq!(e.message(), "Overflow(Add) at span(4..6)");
}

#[test]
fn message_no_mir() {
    assert_eq!(
        EvalError::NoMirFor(String::from("foo")).message(),
        "no mir for `foo`"
    );
}

#[test]
fn message_fn_pointer_mismatch() {
    assert_eq!(
        EvalError::FunctionPointerTyMismatch(FnSig(3), FnSig(4)).message(),
        "tried to call a function with sig 3 through a function pointer of type 4"
    );
}

#[test]
fn message_type_not_primitive() {
    assert_eq!(
        EvalError::TypeNotPrimitive(Ty(12)).message(),
        "expected primitive type, got 12"
    );
}

#[test]
fn message_layout() {
    assert_eq!(
        EvalError::Layout(LayoutError::SizeOverflow(Ty(5))).message(),
        "layout computation failed: SizeOverflow(5)"
    );
}

#[test]
fn message_falls_back_to_description() {
    assert_eq!(EvalError::Panic.message(), "the evaluated program panicked");
    assert_eq!(
        EvalError::Unreachable.message(),
        "entered unreachable code"
    );
}

#[test]
fn projection_keeps_pointer_out_of_bounds_payload() {
    let e = EvalError::PointerOutOfBounds {
        ptr: MemoryPointer::new(2, 10),
        access: true,
        allocation_size: 8,
    };
    match StaticEvalError::from(e) {
        StaticEvalError::PointerOutOfBounds {
            ptr,
            access,
            allocation_size,
        } => {
            assert_eq!(ptr.alloc_id, 2);
            assert_eq!(ptr.offset, PointerOffset::Concrete(10));
            assert!(access);
            assert_eq!(allocation_size, 8);
        }
        _ => panic!("projected to the wrong variant"),
    }
}

#[test]
fn projection_keeps_plain_payloads() {
    match StaticEvalError::from(EvalError::NoMirFor(String::from("abc"))) {
        StaticEvalError::NoMirFor(s) => assert_eq!(s, "abc"),
        _ => panic!("projected to the wrong variant"),
    }
    match StaticEvalError::from(EvalError::OutOfMemory {
        allocation_size: 1,
        memory_size: 2,
        memory_usage: 3,
    }) {
        StaticEvalError::OutOfMemory {
            allocation_size,
            memory_size,
            memory_usage,
        } => {
            assert_eq!((allocation_size, memory_size, memory_usage), (1, 2, 3));
        }
        _ => panic!("projected to the wrong variant"),
    }
    match StaticEvalError::from(EvalError::ArrayIndexOutOfBounds(
        Span { lo: 3, hi: 9 },
        5,
        7,
    )) {
        StaticEvalError::ArrayIndexOutOfBounds(span, len, index) => {
            assert_eq!(span, Span { lo: 3, hi: 9 });
            assert_eq!((len, index), (5, 7));
        }
        _ => panic!("projected to the wrong variant"),
    }
    match StaticEvalError::from(EvalError::UnterminatedCString(MemoryPointer::new(4, 0))) {
        StaticEvalError::UnterminatedCString(p) => assert_eq!(p, MemoryPointer::new(4, 0)),
        _ => panic!("projected to the wrong variant"),
    }
}

#[test]
fn projection_erases_type_handles() {
    assert!(matches!(
        StaticEvalError::from(EvalError::TypeNotPrimitive(Ty(9))),
        StaticEvalError::TypeNotPrimitive
    ));
    assert!(matches!(
        StaticEvalError::from(EvalError::Layout(LayoutError::Unknown(Ty(1)))),
        StaticEvalError::Layout
    ));
    assert!(matches!(
        StaticEvalError::from(EvalError::FunctionPointerTyMismatch(FnSig(1), FnSig(2))),
        StaticEvalError::FunctionPointerTyMismatch
    ));
}

#[test]
fn projection_of_unit_variants() {
    assert!(matches!(
        StaticEvalError::from(EvalError::Panic),
        StaticEvalError::Panic
    ));
    assert!(matches!(
        StaticEvalError::from(EvalError::TypeckError),
        StaticEvalError::TypeckError
    ));
    assert!(matches!(
        StaticEvalError::from(EvalError::ExecutionTimeLimitReached),
        StaticEvalError::ExecutionTimeLimitReached
    ));
}
