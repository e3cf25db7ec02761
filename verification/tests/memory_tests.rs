use evalcore::error::EvalError;
use evalcore::memory::{Memory, MemoryPointer, PointerOffset};
use evalcore::ty::Instance;
use evalcore::value::{PrimVal, Value};

#[test]
fn allocate_zero_bytes_faults() {
    let mut m = Memory::new(8, 1000);
    assert!(matches!(m.allocate(0, 8), Err(EvalError::HeapAllocZeroBytes)));
}

#[test]
fn allocate_bad_alignment_faults() {
    let mut m = Memory::new(8, 1000);
    assert!(matches!(
        m.allocate(16, 3),
        Err(EvalError::HeapAllocNonPowerOfTwoAlignment(3))
    ));
}

#[test]
fn allocate_out_of_memory() {
    let mut m = Memory::new(8, 8);
    match m.allocate(16, 8) {
        Err(EvalError::OutOfMemory {
            allocation_size,
            memory_size,
            memory_usage,
        }) => {
            assert_eq!((allocation_size, memory_size, memory_usage), (16, 8, 0));
        }
        _ => panic!("expected the out-of-memory fault"),
    }
}

#[test]
fn write_read_round_trip() {
    let mut m = Memory::new(8, 1000);
    let base = m.allocate(16, 8).unwrap();
    assert_eq!(base.alloc_id, 0);
    assert_eq!(base.offset, PointerOffset::Concrete(0));
    let p = MemoryPointer::new(0, 8);
    m.write_usize(p, 77).unwrap();
    assert_eq!(m.read_usize(p).unwrap(), 77);
}

#[test]
fn read_undefined_bytes_faults() {
    let mut m = Memory::new(8, 1000);
    let p = m.allocate(8, 8).unwrap();
    assert!(matches!(m.read_usize(p), Err(EvalError::ReadUndefBytes)));
}

#[test]
fn read_pointer_as_bytes_faults() {
    let mut m = Memory::new(8, 1000);
    let p = m.allocate(8, 8).unwrap();
    m.write_ptr(p, MemoryPointer::new(9, 0)).unwrap();
    assert!(matches!(m.read_usize(p), Err(EvalError::ReadPointerAsBytes)));
    match m.read_ptr(p) {
        Ok(Value::ByVal(PrimVal::Ptr(q))) => assert_eq!(q, MemoryPointer::new(9, 0)),
        _ => panic!("expected the pointer back"),
    }
}

#[test]
fn out_of_bounds_read_reports_offset_and_size() {
    let mut m = Memory::new(8, 100);
    m.allocate(8, 8).unwrap();
    match m.read_usize(MemoryPointer::new(0, 10)) {
        Err(EvalError::PointerOutOfBounds {
            ptr,
            access,
            allocation_size,
        }) => {
            assert_eq!(ptr.offset, PointerOffset::Concrete(10));
            assert!(access);
            assert_eq!(allocation_size, 8);
        }
        _ => panic!("expected the out-of-bounds fault"),
    }
}

#[test]
fn out_of_bounds_fault_formats_exactly() {
    let mut m = Memory::new(8, 100);
    m.allocate(8, 8).unwrap();
    let e = m.read_usize(MemoryPointer::new(0, 10)).unwrap_err();
    assert_eq!(
        e.message(),
        "memory access at offset 10, outside bounds of allocation 0 which has size 8"
    );
}

#[test]
fn misaligned_access_faults() {
    let mut m = Memory::new(8, 100);
    m.allocate(16, 8).unwrap();
    match m.read_usize(MemoryPointer::new(0, 4)) {
        Err(EvalError::AlignmentCheckFailed { required, has }) => {
            assert_eq!((required, has), (8, 4));
        }
        _ => panic!("expected the alignment fault"),
    }
}

#[test]
fn dangling_pointer_faults() {
    let m = Memory::new(8, 100);
    assert!(matches!(
        m.read_usize(MemoryPointer::new(5, 0)),
        Err(EvalError::DanglingPointerDeref)
    ));
}

#[test]
fn deallocate_then_use_faults() {
    let mut m = Memory::new(8, 100);
    let p = m.allocate(8, 8).unwrap();
    m.deallocate(p).unwrap();
    assert!(matches!(m.read_usize(p), Err(EvalError::DanglingPointerDeref)));
    assert!(matches!(m.deallocate(p), Err(EvalError::DanglingPointerDeref)));
}

#[test]
fn static_memory_rejects_writes_and_deallocation() {
    let mut m = Memory::new(8, 100);
    let p = m.allocate(16, 8).unwrap();
    m.write_usize(p, 5).unwrap();
    m.mark_static_initalized(p.alloc_id).unwrap();
    assert!(matches!(
        m.write_usize(p, 6),
        Err(EvalError::ModifiedConstantMemory)
    ));
    assert!(matches!(
        m.write_usize(MemoryPointer::new(0, 8), 6),
        Err(EvalError::ModifiedConstantMemory)
    ));
    assert!(matches!(
        m.deallocate(p),
        Err(EvalError::DeallocatedStaticMemory)
    ));
    // reads still work
    assert_eq!(m.read_usize(p).unwrap(), 5);
}

#[test]
fn function_allocations() {
    let mut m = Memory::new(8, 100);
    let fp = m.create_fn_alloc(Instance::new(42, vec![1, 2]));
    let inst = m.get_fn(fp).unwrap();
    assert_eq!(inst.def_id, 42);
    assert_eq!(inst.substs, vec![1, 2]);
    // an interior function pointer is invalid
    let mid = MemoryPointer {
        alloc_id: fp.alloc_id,
        offset: PointerOffset::Concrete(4),
    };
    assert!(matches!(m.get_fn(mid), Err(EvalError::InvalidFunctionPointer)));
    // data memory is not a function
    let d = m.allocate(8, 8).unwrap();
    assert!(matches!(m.get_fn(d), Err(EvalError::ExecuteMemory)));
    // reading a function allocation as data faults
    assert!(matches!(m.read_usize(fp), Err(EvalError::DerefFunctionPointer)));
}

#[test]
fn offset_by_checks_overflow() {
    let p = MemoryPointer::new(0, u64::MAX);
    assert!(matches!(p.offset_by(1), Err(EvalError::OverflowingMath)));
    let q = MemoryPointer::new(0, 8).offset_by(8).unwrap();
    assert_eq!(q.offset, PointerOffset::Concrete(16));
}

#[test]
fn deallocate_frees_budget() {
    let mut m = Memory::new(8, 16);
    let p = m.allocate(16, 8).unwrap();
    assert!(matches!(m.allocate(8, 8), Err(EvalError::OutOfMemory { .. })));
    m.deallocate(p).unwrap();
    assert!(m.allocate(8, 8).is_ok());
}
