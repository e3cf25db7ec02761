use evalcore::dispatch::{EvalContext, FatalError};
use evalcore::error::EvalError;
use evalcore::memory::{Memory, MemoryPointer, PointerOffset};
use evalcore::ty::{
    AssocItem, AssocKind, CandidateKind, ImplEntry, Instance, LayoutError, MethodRef, TraitRef,
    Ty, TyArg, TyCtxt, TyLayout, Vtable,
};

fn empty_tcx() -> TyCtxt {
    TyCtxt {
        layouts: Vec::new(),
        destructors: Vec::new(),
        method_tables: Vec::new(),
        impls: Vec::new(),
        trait_owners: Vec::new(),
        item_names: Vec::new(),
        assoc_items: Vec::new(),
        n_infer_vars: 0,
    }
}

/// A context over a type 1 of size 16 / alignment 8 with a destructor,
/// and a trait 7 with two dispatchable methods over it.
fn sample_context() -> EvalContext {
    let mut tcx = empty_tcx();
    tcx.layouts.push((1, TyLayout::Sized { size: 16, align: 8 }));
    tcx.layouts.push((2, TyLayout::Sized { size: 4, align: 4 }));
    tcx.layouts.push((3, TyLayout::Unsized));
    tcx.layouts
        .push((4, TyLayout::Failed(LayoutError::SizeOverflow(Ty(4)))));
    tcx.destructors.push((1, Instance::new(55, vec![1])));
    tcx.method_tables.push((
        (7, 1),
        vec![
            Some(MethodRef {
                def_id: 100,
                substs: vec![1],
            }),
            Some(MethodRef {
                def_id: 101,
                substs: vec![1],
            }),
        ],
    ));
    tcx.method_tables.push(((7, 2), vec![None]));
    EvalContext {
        memory: Memory::new(8, 1000),
        tcx,
    }
}

fn trait_ref(trait_id: u64, self_ty: u64) -> TraitRef {
    TraitRef::new(trait_id, vec![TyArg::Ty(self_ty)])
}

#[test]
fn vtable_layout_and_size_align_round_trip() {
    let mut ctx = sample_context();
    let vt = ctx.get_vtable(1, &trait_ref(7, 1)).unwrap();
    assert_eq!(vt.alloc_id, 0);
    assert_eq!(vt.offset, PointerOffset::Concrete(0));
    // exactly pointer_size * (3 + 2) bytes were taken from the budget
    assert_eq!(ctx.memory.memory_usage, 8 * 5);
    let (size, align) = ctx.read_size_and_align_from_vtable(vt).unwrap();
    assert_eq!(size, 16);
    assert_eq!(align, 8);
}

#[test]
fn destructor_round_trip() {
    let mut ctx = sample_context();
    let vt = ctx.get_vtable(1, &trait_ref(7, 1)).unwrap();
    let drop_inst = ctx.read_drop_type_from_vtable(vt).unwrap();
    let inst = drop_inst.expect("type 1 has a destructor");
    assert_eq!(inst.def_id, 55);
    assert_eq!(inst.substs, vec![1]);
}

#[test]
fn no_destructor_reads_back_as_none() {
    let mut ctx = sample_context();
    let vt = ctx.get_vtable(2, &trait_ref(7, 2)).unwrap();
    assert!(ctx.read_drop_type_from_vtable(vt).unwrap().is_none());
}

#[test]
fn vtable_is_immutable_after_synthesis() {
    let mut ctx = sample_context();
    let vt = ctx.get_vtable(1, &trait_ref(7, 1)).unwrap();
    assert!(matches!(
        ctx.memory.write_usize(vt, 99),
        Err(EvalError::ModifiedConstantMemory)
    ));
    let interior = MemoryPointer::new(vt.alloc_id, 8);
    assert!(matches!(
        ctx.memory.write_usize(interior, 99),
        Err(EvalError::ModifiedConstantMemory)
    ));
    assert!(matches!(
        ctx.memory.deallocate(vt),
        Err(EvalError::DeallocatedStaticMemory)
    ));
    // it still reads fine
    assert!(ctx.read_size_and_align_from_vtable(vt).is_ok());
}

#[test]
fn method_slots_resolve_through_the_function_table() {
    let mut ctx = sample_context();
    let vt = ctx.get_vtable(1, &trait_ref(7, 1)).unwrap();
    // slot 3 holds the first method's function pointer
    let slot3 = MemoryPointer::new(vt.alloc_id, 8 * 3);
    let v = ctx.memory.read_ptr(slot3).unwrap();
    let p = match v {
        evalcore::value::Value::ByVal(evalcore::value::PrimVal::Ptr(p)) => p,
        _ => panic!("expected a function pointer in slot 3"),
    };
    let inst = ctx.memory.get_fn(p).unwrap();
    // no trait owns method 100, so it resolves to itself
    assert_eq!(inst.def_id, 100);
    assert_eq!(inst.substs, vec![1]);
}

#[test]
fn argumentless_method_slot_stays_unwritten() {
    let mut ctx = sample_context();
    let vt = ctx.get_vtable(2, &trait_ref(7, 2)).unwrap();
    let slot3 = MemoryPointer::new(vt.alloc_id, 8 * 3);
    assert!(matches!(
        ctx.memory.read_usize(slot3),
        Err(EvalError::ReadUndefBytes)
    ));
}

#[test]
fn unsized_type_faults() {
    let mut ctx = sample_context();
    match ctx.get_vtable(3, &trait_ref(7, 3)) {
        Err(EvalError::Layout(LayoutError::Unknown(Ty(3)))) => {}
        _ => panic!("expected a layout fault for an unsized type"),
    }
}

#[test]
fn layout_failure_faults() {
    let mut ctx = sample_context();
    match ctx.get_vtable(4, &trait_ref(7, 4)) {
        Err(EvalError::Layout(LayoutError::SizeOverflow(Ty(4)))) => {}
        _ => panic!("expected the table's layout failure"),
    }
}

#[test]
fn vtable_out_of_memory() {
    let mut ctx = sample_context();
    ctx.memory = Memory::new(8, 16);
    match ctx.get_vtable(2, &trait_ref(7, 2)) {
        Err(EvalError::OutOfMemory {
            allocation_size,
            memory_size,
            memory_usage,
        }) => {
            assert_eq!((allocation_size, memory_size, memory_usage), (32, 16, 0));
        }
        _ => panic!("expected the out-of-memory fault"),
    }
}

#[test]
fn selection_failure_is_fatal_not_a_fault() {
    let ctx = sample_context();
    let r = ctx.fulfill_obligation(&trait_ref(9, 1));
    assert_eq!(r.unwrap_err(), FatalError::SelectionFailed);
}

#[test]
fn fulfill_concrete_impl() {
    let mut ctx = sample_context();
    ctx.tcx.impls.push(ImplEntry {
        trait_id: 7,
        args: vec![1],
        kind: CandidateKind::Impl {
            impl_def_id: 300,
            substs: vec![TyArg::Ty(1)],
        },
        nested: Vec::new(),
    });
    match ctx.fulfill_obligation(&trait_ref(7, 1)).unwrap() {
        Vtable::Impl {
            impl_def_id,
            substs,
        } => {
            assert_eq!(impl_def_id, 300);
            assert_eq!(substs, vec![1]);
        }
        _ => panic!("expected a concrete implementation"),
    }
}

#[test]
fn fulfill_builtin() {
    let mut ctx = sample_context();
    ctx.tcx.impls.push(ImplEntry {
        trait_id: 7,
        args: vec![2],
        kind: CandidateKind::Builtin,
        nested: Vec::new(),
    });
    assert!(matches!(
        ctx.fulfill_obligation(&trait_ref(7, 2)).unwrap(),
        Vtable::Builtin
    ));
}

#[test]
fn nested_obligations_inform_inference() {
    let mut ctx = sample_context();
    ctx.tcx.n_infer_vars = 1;
    // the candidate's substitution mentions an inference variable that
    // only its nested obligation binds
    ctx.tcx.impls.push(ImplEntry {
        trait_id: 7,
        args: vec![1],
        kind: CandidateKind::Impl {
            impl_def_id: 300,
            substs: vec![TyArg::Infer(0)],
        },
        nested: vec![TraitRef::new(8, vec![TyArg::Infer(0)])],
    });
    ctx.tcx.impls.push(ImplEntry {
        trait_id: 8,
        args: vec![42],
        kind: CandidateKind::Builtin,
        nested: Vec::new(),
    });
    match ctx.fulfill_obligation(&trait_ref(7, 1)).unwrap() {
        Vtable::Impl {
            impl_def_id,
            substs,
        } => {
            assert_eq!(impl_def_id, 300);
            assert_eq!(substs, vec![42]);
        }
        _ => panic!("expected a concrete implementation"),
    }
}

#[test]
fn residual_inference_variable_is_fatal() {
    let mut ctx = sample_context();
    ctx.tcx.n_infer_vars = 1;
    ctx.tcx.impls.push(ImplEntry {
        trait_id: 7,
        args: vec![1],
        kind: CandidateKind::Impl {
            impl_def_id: 300,
            substs: vec![TyArg::Infer(0)],
        },
        nested: Vec::new(),
    });
    let r = ctx.fulfill_obligation(&trait_ref(7, 1));
    assert_eq!(r.unwrap_err(), FatalError::UnresolvedInference);
}

#[test]
fn associated_const_without_trait_owner_falls_back() {
    let ctx = sample_context();
    let inst = ctx.resolve_associated_const(200, vec![1, 2]);
    assert_eq!(inst.def_id, 200);
    assert_eq!(inst.substs, vec![1, 2]);
}

#[test]
fn associated_const_resolves_through_impl() {
    let mut ctx = sample_context();
    ctx.tcx.trait_owners.push((200, 7));
    ctx.tcx.item_names.push((200, 9));
    ctx.tcx.impls.push(ImplEntry {
        trait_id: 7,
        args: vec![1],
        kind: CandidateKind::Impl {
            impl_def_id: 300,
            substs: vec![TyArg::Ty(1)],
        },
        nested: Vec::new(),
    });
    ctx.tcx.assoc_items.push((
        300,
        AssocItem {
            def_id: 301,
            name: 9,
            kind: AssocKind::Const,
        },
    ));
    let inst = ctx.resolve_associated_const(200, vec![1]);
    assert_eq!(inst.def_id, 301);
    assert_eq!(inst.substs, vec![1]);
}

#[test]
fn associated_const_without_matching_item_falls_back() {
    let mut ctx = sample_context();
    ctx.tcx.trait_owners.push((200, 7));
    ctx.tcx.item_names.push((200, 9));
    ctx.tcx.impls.push(ImplEntry {
        trait_id: 7,
        args: vec![1],
        kind: CandidateKind::Impl {
            impl_def_id: 300,
            substs: vec![TyArg::Ty(1)],
        },
        nested: Vec::new(),
    });
    // the implementation has an item of the right name but it is a
    // method, not a constant
    ctx.tcx.assoc_items.push((
        300,
        AssocItem {
            def_id: 301,
            name: 9,
            kind: AssocKind::Method,
        },
    ));
    let inst = ctx.resolve_associated_const(200, vec![1]);
    assert_eq!(inst.def_id, 200);
    assert_eq!(inst.substs, vec![1]);
}

#[test]
fn type_size_and_align_queries() {
    let ctx = sample_context();
    assert_eq!(ctx.type_size(1).unwrap(), Some(16));
    assert_eq!(ctx.type_align(1).unwrap(), Some(8));
    assert_eq!(ctx.type_size(3).unwrap(), None);
    assert!(matches!(
        ctx.type_size(4),
        Err(EvalError::Layout(LayoutError::SizeOverflow(Ty(4))))
    ));
    assert!(matches!(
        ctx.type_size(999),
        Err(EvalError::Layout(LayoutError::Unknown(Ty(999))))
    ));
}
