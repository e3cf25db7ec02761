//! Model of the simulated address space the dispatch tables live in.
//!
//! Memory is a set of allocations, each a run of pointer-sized words.
//! Every operation either completes or returns the exact fault the
//! machine's rules prescribe; allocations marked immutable ("static")
//! reject all further writes and all deallocation attempts.

use vstd::prelude::*;
use vstd::pervasive::VecAdditionalExecFns;
use vstd::arithmetic::div_mod::{
    lemma_fundamental_div_mod,
    lemma_div_is_ordered,
    lemma_div_by_multiple,
    lemma_div_nonincreasing,
};
use crate::error::EvalError;
use crate::ty::Instance;
use crate::value::{PrimVal, Value};

verus! {

/// The offset part of a pointer: a concrete byte offset, or a value the
/// machine has not determined. Only the concrete case is inspected here.
#[derive(Clone, Copy, Debug, PartialEq, Eq, Structural)]
pub enum PointerOffset {
    Concrete(u64),
    Undetermined,
}

/// A location in the simulated address space: an allocation identifier
/// plus an offset within that allocation.
#[derive(Clone, Copy, Debug, PartialEq, Eq, Structural)]
pub struct MemoryPointer {
    pub alloc_id: u64,
    pub offset: PointerOffset,
}

impl MemoryPointer {
    pub fn new(alloc_id: u64, offset: u64) -> (r: MemoryPointer)
        ensures
            r.alloc_id == alloc_id,
            r.offset == PointerOffset::Concrete(offset),
    {
        MemoryPointer { alloc_id, offset: PointerOffset::Concrete(offset) }
    }

    /// The pointer `delta` bytes further into the same allocation;
    /// overflowing the address width is a fault, an undetermined offset
    /// stays undetermined.
    pub fn offset_by(self, delta: u64) -> (r: Result<MemoryPointer, EvalError>)
        ensures
            r == spec_offset_by(self, delta),
    {
        match self.offset {
            PointerOffset::Concrete(o) => {
                if delta <= u64::MAX - o {
                    Ok(MemoryPointer { alloc_id: self.alloc_id, offset: PointerOffset::Concrete(o + delta) })
                } else {
                    Err(EvalError::OverflowingMath)
                }
            },
            PointerOffset::Undetermined => Ok(self),
        }
    }
}

/// The exact outcome of moving a pointer `delta` bytes forward.
pub open spec fn spec_offset_by(p: MemoryPointer, delta: u64) -> Result<MemoryPointer, EvalError> {
    match p.offset {
        PointerOffset::Concrete(o) => if o + delta <= u64::MAX {
            Ok(
                MemoryPointer {
                    alloc_id: p.alloc_id,
                    offset: PointerOffset::Concrete((o + delta) as u64),
                },
            )
        } else {
            Err(EvalError::OverflowingMath)
        },
        PointerOffset::Undetermined => Ok(p),
    }
}

/// One pointer-sized word of simulated memory.
#[derive(Clone, Copy, Debug)]
pub enum Word {
    Undef,
    Bytes(u64),
    Ptr(MemoryPointer),
}

/// What an allocation currently is.
#[derive(Clone, Copy, Debug)]
pub enum AllocState {
    /// Ordinary data; `immutable` is set once the allocation is marked
    /// static.
    Live { immutable: bool },
    /// A function allocation: a pointer-only stand-in for an entry of the
    /// machine's function table.
    Func { fn_index: usize },
    /// Deallocated; the identifier is never reused.
    Freed,
}

/// The bookkeeping record of one allocation. Its words live in the
/// memory's shared word store at `base .. base + word_count`.
#[derive(Clone, Copy, Debug)]
pub struct AllocMeta {
    pub base: usize,
    pub word_count: usize,
    pub size_bytes: u64,
    pub align: u64,
    pub state: AllocState,
}

/// Whether `n` is a power of two.
pub open spec fn is_pow2(n: nat) -> bool
    decreases n,
{
    if n == 0 {
        false
    } else if n == 1 {
        true
    } else {
        n % 2 == 0 && is_pow2(n / 2)
    }
}

/// The largest power of two dividing `n` (zero for `n == 0`).
pub open spec fn align_of_offset(n: nat) -> nat
    decreases n,
{
    if n == 0 {
        0
    } else if n % 2 == 1 {
        1
    } else {
        2 * align_of_offset(n / 2)
    }
}

/// The bytes an allocation contributes to current memory usage.
pub open spec fn alloc_bytes(a: AllocMeta) -> int {
    match a.state {
        AllocState::Live { .. } => a.size_bytes as int,
        _ => 0,
    }
}

/// Total bytes of all live allocations.
pub open spec fn live_bytes(s: Seq<AllocMeta>) -> int
    decreases s.len(),
{
    if s.len() == 0 {
        0
    } else {
        live_bytes(s.drop_last()) + alloc_bytes(s.last())
    }
}

/// The simulated memory: allocation records, their word store, the
/// function table, and the machine's size parameters.
pub struct Memory {
    pub allocs: Vec<AllocMeta>,
    pub store: Vec<Word>,
    pub fn_table: Vec<Instance>,
    pub pointer_size: u64,
    pub memory_size: u64,
    pub memory_usage: u64,
}

/// Well-formedness of one allocation record against the stores.
pub open spec fn meta_wf(a: AllocMeta, ps: u64, store_len: nat, fn_len: nat) -> bool {
    &&& a.base + a.word_count <= store_len
    &&& match a.state {
        AllocState::Func { fn_index } => fn_index < fn_len && a.word_count == 0,
        _ => {
            &&& (a.word_count as int) * (ps as int) >= a.size_bytes as int
            &&& (a.word_count as int) * (ps as int) < (a.size_bytes as int) + (ps as int)
        },
    }
}

impl Memory {
    /// The memory's internal invariant.
    pub open spec fn wf(self) -> bool {
        &&& is_pow2(self.pointer_size as nat)
        &&& self.memory_usage <= self.memory_size
        &&& self.memory_usage as int == live_bytes(self.allocs@)
        &&& forall|i: int|
            0 <= i < self.allocs@.len() ==> meta_wf(
                #[trigger] self.allocs@[i],
                self.pointer_size,
                self.store@.len(),
                self.fn_table@.len(),
            )
        &&& forall|i: int, j: int|
            #![trigger self.allocs@[i], self.allocs@[j]]
            0 <= i < j < self.allocs@.len() ==> self.allocs@[i].base + self.allocs@[i].word_count
                <= self.allocs@[j].base
    }

    /// An empty memory of the given pointer width and capacity.
    pub fn new(pointer_size: u64, memory_size: u64) -> (r: Memory)
        requires
            is_pow2(pointer_size as nat),
        ensures
            r.wf(),
            r.allocs@.len() == 0,
            r.store@.len() == 0,
            r.fn_table@.len() == 0,
            r.pointer_size == pointer_size,
            r.memory_size == memory_size,
            r.memory_usage == 0,
    {
        Memory {
            allocs: Vec::new(),
            store: Vec::new(),
            fn_table: Vec::new(),
            pointer_size,
            memory_size,
            memory_usage: 0,
        }
    }

    /// The machine's native pointer width in bytes.
    pub fn pointer_size(&self) -> (r: u64)
        ensures
            r == self.pointer_size,
    {
        self.pointer_size
    }
}

/// Two memories with identical contents.
pub open spec fn same_memory(a: Memory, b: Memory) -> bool {
    &&& b.allocs@ == a.allocs@
    &&& b.store@ == a.store@
    &&& b.fn_table@ == a.fn_table@
    &&& b.pointer_size == a.pointer_size
    &&& b.memory_size == a.memory_size
    &&& b.memory_usage == a.memory_usage
}

/// The fault, if any, of a word-sized access at `ptr`; `for_write` adds
/// the immutability check. Bounds are checked before alignment, so an
/// access past the end of an allocation reports the out-of-bounds fault
/// with the allocation's size.
pub open spec fn access_fault(m: Memory, ptr: MemoryPointer, for_write: bool) -> Option<EvalError> {
    match ptr.offset {
        PointerOffset::Undetermined => Some(EvalError::InvalidMemoryAccess),
        PointerOffset::Concrete(o) => {
            if ptr.alloc_id >= m.allocs@.len() {
                Some(EvalError::DanglingPointerDeref)
            } else {
                let a = m.allocs@[ptr.alloc_id as int];
                match a.state {
                    AllocState::Freed => Some(EvalError::DanglingPointerDeref),
                    AllocState::Func { .. } => Some(EvalError::DerefFunctionPointer),
                    AllocState::Live { immutable } => {
                        if for_write && immutable {
                            Some(EvalError::ModifiedConstantMemory)
                        } else if o as int + m.pointer_size as int > a.size_bytes as int {
                            Some(
                                EvalError::PointerOutOfBounds {
                                    ptr,
                                    access: true,
                                    allocation_size: a.size_bytes,
                                },
                            )
                        } else if o as int % m.pointer_size as int != 0 {
                            Some(
                                EvalError::AlignmentCheckFailed {
                                    required: m.pointer_size,
                                    has: align_of_offset(o as nat) as u64,
                                },
                            )
                        } else {
                            None
                        }
                    },
                }
            }
        },
    }
}

/// The store index of the word a fault-free access at `ptr` touches.
pub open spec fn word_index(m: Memory, ptr: MemoryPointer) -> int {
    m.allocs@[ptr.alloc_id as int].base + (ptr.offset->Concrete_0 as int) / (
    m.pointer_size as int)
}

/// The word a fault-free access at `ptr` reads.
pub open spec fn word_at(m: Memory, ptr: MemoryPointer) -> Word {
    m.store@[word_index(m, ptr)]
}

/// The exact outcome of reading a pointer-sized unsigned integer.
pub open spec fn read_usize_res(m: Memory, ptr: MemoryPointer) -> Result<u64, EvalError> {
    match access_fault(m, ptr, false) {
        Some(e) => Err(e),
        None => match word_at(m, ptr) {
            Word::Bytes(b) => Ok(b),
            Word::Ptr(_) => Err(EvalError::ReadPointerAsBytes),
            Word::Undef => Err(EvalError::ReadUndefBytes),
        },
    }
}

/// The exact outcome of reading a pointer-sized value.
pub open spec fn read_ptr_res(m: Memory, ptr: MemoryPointer) -> Result<Value, EvalError> {
    match access_fault(m, ptr, false) {
        Some(e) => Err(e),
        None => match word_at(m, ptr) {
            Word::Bytes(b) => Ok(Value::ByVal(PrimVal::Bytes(b as u128))),
            Word::Ptr(p) => Ok(Value::ByVal(PrimVal::Ptr(p))),
            Word::Undef => Err(EvalError::ReadUndefBytes),
        },
    }
}

/// A fault-free write of `w` at `ptr`: the addressed word is replaced,
/// nothing else changes.
pub open spec fn word_written(pre: Memory, post: Memory, ptr: MemoryPointer, w: Word) -> bool {
    &&& post.allocs@ == pre.allocs@
    &&& post.store@ == pre.store@.update(word_index(pre, ptr), w)
    &&& post.fn_table@ == pre.fn_table@
    &&& post.pointer_size == pre.pointer_size
    &&& post.memory_size == pre.memory_size
    &&& post.memory_usage == pre.memory_usage
}

/// Writes and deallocations against an immutable allocation always fault
/// with the static-memory violations, whatever the offset: the fault
/// of any write attempt is the constant-memory fault, and of any
/// deallocation attempt the static-deallocation fault.
pub proof fn lemma_static_memory_is_protected(m: Memory, ptr: MemoryPointer)
    requires
        ptr.alloc_id < m.allocs@.len(),
        m.allocs@[ptr.alloc_id as int].state == (AllocState::Live { immutable: true }),
        ptr.offset is Concrete,
    ensures
        access_fault(m, ptr, true) == Some(EvalError::ModifiedConstantMemory),
        dealloc_fault(m, ptr) == Some(EvalError::DeallocatedStaticMemory),
{
}

/// The fault, if any, of deallocating the allocation `ptr` points at.
pub open spec fn dealloc_fault(m: Memory, ptr: MemoryPointer) -> Option<EvalError> {
    match ptr.offset {
        PointerOffset::Undetermined => Some(EvalError::InvalidMemoryAccess),
        PointerOffset::Concrete(o) => {
            if ptr.alloc_id >= m.allocs@.len() {
                Some(EvalError::DanglingPointerDeref)
            } else {
                match m.allocs@[ptr.alloc_id as int].state {
                    AllocState::Freed => Some(EvalError::DanglingPointerDeref),
                    AllocState::Func { .. } => Some(EvalError::DeallocatedStaticMemory),
                    AllocState::Live { immutable } => if immutable {
                        Some(EvalError::DeallocatedStaticMemory)
                    } else if o != 0 {
                        Some(EvalError::InvalidMemoryAccess)
                    } else {
                        None
                    },
                }
            }
        },
    }
}

proof fn lemma_live_bytes_nonneg(s: Seq<AllocMeta>)
    ensures
        live_bytes(s) >= 0,
    decreases s.len(),
{
    if s.len() > 0 {
        lemma_live_bytes_nonneg(s.drop_last());
    }
}

proof fn lemma_live_bytes_at(s: Seq<AllocMeta>, i: int)
    requires
        0 <= i < s.len(),
    ensures
        live_bytes(s) >= alloc_bytes(s[i]),
    decreases s.len(),
{
    lemma_live_bytes_nonneg(s.drop_last());
    if i == s.len() - 1 {
    } else {
        lemma_live_bytes_at(s.drop_last(), i);
    }
}

proof fn lemma_live_bytes_update(s: Seq<AllocMeta>, i: int, m: AllocMeta)
    requires
        0 <= i < s.len(),
    ensures
        live_bytes(s.update(i, m)) == live_bytes(s) - alloc_bytes(s[i]) + alloc_bytes(m),
    decreases s.len(),
{
    let t = s.update(i, m);
    if i == s.len() - 1 {
        assert(t.drop_last() =~= s.drop_last());
    } else {
        assert(t.drop_last() =~= s.drop_last().update(i, m));
        lemma_live_bytes_update(s.drop_last(), i, m);
    }
}

impl Memory {
    /// Allocates `size` bytes with the given alignment. Zero-byte
    /// requests, non-power-of-two alignments and exhausted capacity fault;
    /// otherwise a fresh, mutable, fully undefined allocation is added and
    /// a pointer to its start returned.
    pub fn allocate(&mut self, size: u64, align: u64) -> (r: Result<MemoryPointer, EvalError>)
        requires
            old(self).wf(),
            size < usize::MAX as u64,
        ensures
            final(self).wf(),
            size == 0 ==> r == Err::<MemoryPointer, EvalError>(EvalError::HeapAllocZeroBytes)
                && same_memory(*old(self), *final(self)),
            size != 0 && !is_pow2(align as nat) ==> r == Err::<MemoryPointer, EvalError>(
                EvalError::HeapAllocNonPowerOfTwoAlignment(align),
            ) && same_memory(*old(self), *final(self)),
            size != 0 && is_pow2(align as nat) && old(self).memory_usage + size > old(
                self,
            ).memory_size ==> r == Err::<MemoryPointer, EvalError>(
                EvalError::OutOfMemory {
                    allocation_size: size,
                    memory_size: old(self).memory_size,
                    memory_usage: old(self).memory_usage,
                },
            ) && same_memory(*old(self), *final(self)),
            size != 0 && is_pow2(align as nat) && old(self).memory_usage + size <= old(
                self,
            ).memory_size ==> r is Ok && alloc_added(
                *old(self),
                *final(self),
                r->Ok_0,
                size,
                align,
            ),
    {
        if size == 0 {
            return Err(EvalError::HeapAllocZeroBytes);
        }
        if !exec_is_pow2(align) {
            return Err(EvalError::HeapAllocNonPowerOfTwoAlignment(align));
        }
        if size > self.memory_size - self.memory_usage {
            return Err(
                EvalError::OutOfMemory {
                    allocation_size: size,
                    memory_size: self.memory_size,
                    memory_usage: self.memory_usage,
                },
            );
        }
        let ps = self.pointer_size;
        proof {
            if ps == 0 {
                assert(!is_pow2(0nat));
            }
        }
        let wc64: u64 = size / ps + if size % ps != 0 {
            1
        } else {
            0
        };
        proof {
            lemma_div_nonincreasing(size as int, ps as int);
            lemma_fundamental_div_mod(size as int, ps as int);
            let q = size as int / ps as int;
            let rr = size as int % ps as int;
            assert(0 <= rr < ps as int);
            assert((wc64 as int) * (ps as int) >= size as int && (wc64 as int) * (ps as int)
                < (size as int) + (ps as int)) by (nonlinear_arith)
                requires
                    size as int == (ps as int) * q + rr,
                    0 <= rr < ps as int,
                    wc64 as int == q + (if rr != 0 {
                        1int
                    } else {
                        0int
                    }),
                    ps as int >= 1,
            ;
        }
        let wc: usize = wc64 as usize;
        let base = self.store.len();
        let mut k: usize = 0;
        while k < wc
            invariant
                k <= wc,
                self.store@ == old(self).store@ + Seq::new(k as nat, |i: int| Word::Undef),
                self.allocs@ == old(self).allocs@,
                self.fn_table@ == old(self).fn_table@,
                self.pointer_size == old(self).pointer_size,
                self.memory_size == old(self).memory_size,
                self.memory_usage == old(self).memory_usage,
            decreases wc - k,
        {
            self.store.push(Word::Undef);
            k = k + 1;
            proof {
                assert(self.store@ =~= old(self).store@ + Seq::new(k as nat, |i: int| Word::Undef));
            }
        }
        let meta = AllocMeta {
            base,
            word_count: wc,
            size_bytes: size,
            align,
            state: AllocState::Live { immutable: false },
        };
        let id64: u64 = self.allocs.len() as u64;
        self.allocs.push(meta);
        self.memory_usage = self.memory_usage + size;
        proof {
            assert(self.allocs@.drop_last() =~= old(self).allocs@);
            assert(live_bytes(self.allocs@) == live_bytes(old(self).allocs@) + size as int);
            assert forall|i: int|
                0 <= i < self.allocs@.len() implies meta_wf(
                #[trigger] self.allocs@[i],
                self.pointer_size,
                self.store@.len(),
                self.fn_table@.len(),
            ) by {
                if i < self.allocs@.len() - 1 {
                    assert(meta_wf(
                        old(self).allocs@[i],
                        old(self).pointer_size,
                        old(self).store@.len(),
                        old(self).fn_table@.len(),
                    ));
                }
            }
            assert forall|i: int, j: int|
                #![trigger self.allocs@[i], self.allocs@[j]]
                0 <= i < j < self.allocs@.len() implies self.allocs@[i].base
                + self.allocs@[i].word_count <= self.allocs@[j].base by {
                assert(meta_wf(
                    old(self).allocs@[i],
                    old(self).pointer_size,
                    old(self).store@.len(),
                    old(self).fn_table@.len(),
                ));
                if j < self.allocs@.len() - 1 {
                    assert(old(self).allocs@[i].base + old(self).allocs@[i].word_count <= old(
                        self,
                    ).allocs@[j].base);
                }
            }
        }
        Ok(MemoryPointer { alloc_id: id64, offset: PointerOffset::Concrete(0) })
    }

    /// Deallocates the allocation `ptr` points at. Static and function
    /// allocations, undetermined or interior pointers and double frees
    /// fault; otherwise the allocation is marked freed and its bytes
    /// returned to the budget.
    pub fn deallocate(&mut self, ptr: MemoryPointer) -> (r: Result<(), EvalError>)
        requires
            old(self).wf(),
        ensures
            final(self).wf(),
            match dealloc_fault(*old(self), ptr) {
                Some(e) => r == Err::<(), EvalError>(e) && same_memory(*old(self), *final(self)),
                None => r is Ok && dealloc_done(*old(self), *final(self), ptr),
            },
    {
        match ptr.offset {
            PointerOffset::Undetermined => Err(EvalError::InvalidMemoryAccess),
            PointerOffset::Concrete(o) => {
                if ptr.alloc_id >= self.allocs.len() as u64 {
                    return Err(EvalError::DanglingPointerDeref);
                }
                let id = ptr.alloc_id as usize;
                let meta = self.allocs[id];
                match meta.state {
                    AllocState::Freed => Err(EvalError::DanglingPointerDeref),
                    AllocState::Func { .. } => Err(EvalError::DeallocatedStaticMemory),
                    AllocState::Live { immutable } => {
                        if immutable {
                            return Err(EvalError::DeallocatedStaticMemory);
                        }
                        if o != 0 {
                            return Err(EvalError::InvalidMemoryAccess);
                        }
                        let freed = AllocMeta {
                            base: meta.base,
                            word_count: meta.word_count,
                            size_bytes: meta.size_bytes,
                            align: meta.align,
                            state: AllocState::Freed,
                        };
                        proof {
                            lemma_live_bytes_at(self.allocs@, id as int);
                            lemma_live_bytes_update(self.allocs@, id as int, freed);
                            lemma_live_bytes_nonneg(self.allocs@);
                        }
                        self.allocs.set(id, freed);
                        self.memory_usage = self.memory_usage - meta.size_bytes;
                        Ok(())
                    },
                }
            },
        }
    }

    /// Writes one word at `ptr`; the exact fault of `access_fault`
    /// otherwise.
    pub fn write_word(&mut self, ptr: MemoryPointer, w: Word) -> (r: Result<(), EvalError>)
        requires
            old(self).wf(),
        ensures
            final(self).wf(),
            match access_fault(*old(self), ptr, true) {
                Some(e) => r == Err::<(), EvalError>(e) && same_memory(*old(self), *final(self)),
                None => r is Ok && word_written(*old(self), *final(self), ptr, w),
            },
    {
        match ptr.offset {
            PointerOffset::Undetermined => Err(EvalError::InvalidMemoryAccess),
            PointerOffset::Concrete(o) => {
                if ptr.alloc_id >= self.allocs.len() as u64 {
                    return Err(EvalError::DanglingPointerDeref);
                }
                let id = ptr.alloc_id as usize;
                let meta = self.allocs[id];
                match meta.state {
                    AllocState::Freed => Err(EvalError::DanglingPointerDeref),
                    AllocState::Func { .. } => Err(EvalError::DerefFunctionPointer),
                    AllocState::Live { immutable } => {
                        if immutable {
                            return Err(EvalError::ModifiedConstantMemory);
                        }
                        let ps = self.pointer_size;
                        proof {
                            if ps == 0 {
                                assert(!is_pow2(0nat));
                            }
                        }
                        if o > u64::MAX - ps || o + ps > meta.size_bytes {
                            proof {
                                assert(o as int + ps as int > meta.size_bytes as int);
                            }
                            return Err(
                                EvalError::PointerOutOfBounds {
                                    ptr,
                                    access: true,
                                    allocation_size: meta.size_bytes,
                                },
                            );
                        }
                        if o % ps != 0 {
                            proof {
                                assert(0int % (ps as int) == 0) by (nonlinear_arith)
                                    requires
                                        ps as int >= 1,
                                ;
                            }
                            return Err(
                                EvalError::AlignmentCheckFailed {
                                    required: ps,
                                    has: exec_align_of_offset(o),
                                },
                            );
                        }
                        let sl: usize = self.store.len();
                        proof {
                            lemma_word_in_range(*self, id as int, o as int);
                            assert(meta.base + (o as int) / (ps as int) < sl as int);
                        }
                        let wi: usize = (o / ps) as usize;
                        self.store.set(meta.base + wi, w);
                        Ok(())
                    },
                }
            },
        }
    }

    /// Writes a pointer-sized integer at `ptr`.
    pub fn write_usize(&mut self, ptr: MemoryPointer, val: u64) -> (r: Result<(), EvalError>)
        requires
            old(self).wf(),
        ensures
            final(self).wf(),
            match access_fault(*old(self), ptr, true) {
                Some(e) => r == Err::<(), EvalError>(e) && same_memory(*old(self), *final(self)),
                None => r is Ok && word_written(*old(self), *final(self), ptr, Word::Bytes(val)),
            },
    {
        self.write_word(ptr, Word::Bytes(val))
    }

    /// Writes a pointer value at `ptr`.
    pub fn write_ptr(&mut self, ptr: MemoryPointer, target: MemoryPointer) -> (r: Result<
        (),
        EvalError,
    >)
        requires
            old(self).wf(),
        ensures
            final(self).wf(),
            match access_fault(*old(self), ptr, true) {
                Some(e) => r == Err::<(), EvalError>(e) && same_memory(*old(self), *final(self)),
                None => r is Ok && word_written(*old(self), *final(self), ptr, Word::Ptr(target)),
            },
    {
        self.write_word(ptr, Word::Ptr(target))
    }

    /// Reads a pointer-sized integer at `ptr`.
    pub fn read_usize(&self, ptr: MemoryPointer) -> (r: Result<u64, EvalError>)
        requires
            self.wf(),
        ensures
            r == read_usize_res(*self, ptr),
    {
        match self.read_word(ptr) {
            Err(e) => Err(e),
            Ok(w) => match w {
                Word::Bytes(b) => Ok(b),
                Word::Ptr(_) => Err(EvalError::ReadPointerAsBytes),
                Word::Undef => Err(EvalError::ReadUndefBytes),
            },
        }
    }

    /// Reads a pointer-sized value at `ptr`.
    pub fn read_ptr(&self, ptr: MemoryPointer) -> (r: Result<Value, EvalError>)
        requires
            self.wf(),
        ensures
            r == read_ptr_res(*self, ptr),
    {
        match self.read_word(ptr) {
            Err(e) => Err(e),
            Ok(w) => match w {
                Word::Bytes(b) => Ok(Value::ByVal(PrimVal::Bytes(b as u128))),
                Word::Ptr(p) => Ok(Value::ByVal(PrimVal::Ptr(p))),
                Word::Undef => Err(EvalError::ReadUndefBytes),
            },
        }
    }

    /// Reads the word at `ptr`, or the exact fault of a read access.
    fn read_word(&self, ptr: MemoryPointer) -> (r: Result<Word, EvalError>)
        requires
            self.wf(),
        ensures
            match access_fault(*self, ptr, false) {
                Some(e) => r == Err::<Word, EvalError>(e),
                None => r == Ok::<Word, EvalError>(word_at(*self, ptr)),
            },
    {
        match ptr.offset {
            PointerOffset::Undetermined => Err(EvalError::InvalidMemoryAccess),
            PointerOffset::Concrete(o) => {
                if ptr.alloc_id >= self.allocs.len() as u64 {
                    return Err(EvalError::DanglingPointerDeref);
                }
                let id = ptr.alloc_id as usize;
                let meta = self.allocs[id];
                match meta.state {
                    AllocState::Freed => Err(EvalError::DanglingPointerDeref),
                    AllocState::Func { .. } => Err(EvalError::DerefFunctionPointer),
                    AllocState::Live { .. } => {
                        let ps = self.pointer_size;
                        proof {
                            if ps == 0 {
                                assert(!is_pow2(0nat));
                            }
                        }
                        if o > u64::MAX - ps || o + ps > meta.size_bytes {
                            proof {
                                assert(o as int + ps as int > meta.size_bytes as int);
                            }
                            return Err(
                                EvalError::PointerOutOfBounds {
                                    ptr,
                                    access: true,
                                    allocation_size: meta.size_bytes,
                                },
                            );
                        }
                        if o % ps != 0 {
                            proof {
                                assert(0int % (ps as int) == 0) by (nonlinear_arith)
                                    requires
                                        ps as int >= 1,
                                ;
                            }
                            return Err(
                                EvalError::AlignmentCheckFailed {
                                    required: ps,
                                    has: exec_align_of_offset(o),
                                },
                            );
                        }
                        let sl: usize = self.store.len();
                        proof {
                            lemma_word_in_range(*self, id as int, o as int);
                            assert(meta.base + (o as int) / (ps as int) < sl as int);
                        }
                        let wi: usize = (o / ps) as usize;
                        Ok(self.store[meta.base + wi])
                    },
                }
            },
        }
    }

    /// Marks the allocation immutable ("static"): every later write or
    /// deallocation against it faults. Freed or unknown identifiers
    /// fault; a function allocation is already permanently immutable.
    pub fn mark_static_initalized(&mut self, alloc_id: u64) -> (r: Result<(), EvalError>)
        requires
            old(self).wf(),
        ensures
            final(self).wf(),
            alloc_id >= old(self).allocs@.len() || old(self).allocs@[alloc_id as int].state is Freed
                ==> r == Err::<(), EvalError>(EvalError::DanglingPointerDeref) && same_memory(
                *old(self),
                *final(self),
            ),
            alloc_id < old(self).allocs@.len() && old(self).allocs@[alloc_id as int].state is Func
                ==> r is Ok && same_memory(*old(self), *final(self)),
            alloc_id < old(self).allocs@.len() && old(self).allocs@[alloc_id as int].state is Live
                ==> r is Ok && marked_static(*old(self), *final(self), alloc_id),
    {
        if alloc_id >= self.allocs.len() as u64 {
            return Err(EvalError::DanglingPointerDeref);
        }
        let id = alloc_id as usize;
        let meta = self.allocs[id];
        match meta.state {
            AllocState::Freed => Err(EvalError::DanglingPointerDeref),
            AllocState::Func { .. } => Ok(()),
            AllocState::Live { .. } => {
                let frozen = AllocMeta {
                    base: meta.base,
                    word_count: meta.word_count,
                    size_bytes: meta.size_bytes,
                    align: meta.align,
                    state: AllocState::Live { immutable: true },
                };
                proof {
                    lemma_live_bytes_update(self.allocs@, id as int, frozen);
                }
                self.allocs.set(id, frozen);
                Ok(())
            },
        }
    }

    /// Adds an entry of the function table and a pointer-only allocation
    /// standing for it; returns a pointer to that allocation.
    pub fn create_fn_alloc(&mut self, inst: Instance) -> (p: MemoryPointer)
        requires
            old(self).wf(),
        ensures
            final(self).wf(),
            fn_alloc_added(*old(self), *final(self), p, inst),
    {
        let fn_index = self.fn_table.len();
        let base = self.store.len();
        let id64: u64 = self.allocs.len() as u64;
        self.fn_table.push(inst);
        self.allocs.push(
            AllocMeta {
                base,
                word_count: 0,
                size_bytes: 0,
                align: 1,
                state: AllocState::Func { fn_index },
            },
        );
        proof {
            assert(self.allocs@.drop_last() =~= old(self).allocs@);
            assert forall|i: int|
                0 <= i < self.allocs@.len() implies meta_wf(
                #[trigger] self.allocs@[i],
                self.pointer_size,
                self.store@.len(),
                self.fn_table@.len(),
            ) by {
                if i < self.allocs@.len() - 1 {
                    assert(meta_wf(
                        old(self).allocs@[i],
                        old(self).pointer_size,
                        old(self).store@.len(),
                        old(self).fn_table@.len(),
                    ));
                }
            }
            assert forall|i: int, j: int|
                #![trigger self.allocs@[i], self.allocs@[j]]
                0 <= i < j < self.allocs@.len() implies self.allocs@[i].base
                + self.allocs@[i].word_count <= self.allocs@[j].base by {
                assert(meta_wf(
                    old(self).allocs@[i],
                    old(self).pointer_size,
                    old(self).store@.len(),
                    old(self).fn_table@.len(),
                ));
                if j < self.allocs@.len() - 1 {
                    assert(old(self).allocs@[i].base + old(self).allocs@[i].word_count <= old(
                        self,
                    ).allocs@[j].base);
                }
            }
        }
        MemoryPointer { alloc_id: id64, offset: PointerOffset::Concrete(0) }
    }

    /// Resolves a pointer through the function table: the instance it
    /// stands for, or the exact fault for pointers that are not function
    /// pointers.
    pub fn get_fn(&self, ptr: MemoryPointer) -> (r: Result<Instance, EvalError>)
        requires
            self.wf(),
        ensures
            match get_fn_fault(*self, ptr) {
                Some(e) => r == Err::<Instance, EvalError>(e),
                None => r matches Ok(inst) && inst.def_id == self.fn_table@[fn_index_of(
                    *self,
                    ptr,
                )].def_id && inst.substs@ == self.fn_table@[fn_index_of(*self, ptr)].substs@,
            },
    {
        match ptr.offset {
            PointerOffset::Undetermined => Err(EvalError::InvalidFunctionPointer),
            PointerOffset::Concrete(o) => {
                if o != 0 {
                    return Err(EvalError::InvalidFunctionPointer);
                }
                if ptr.alloc_id >= self.allocs.len() as u64 {
                    return Err(EvalError::InvalidFunctionPointer);
                }
                let id = ptr.alloc_id as usize;
                match self.allocs[id].state {
                    AllocState::Freed => Err(EvalError::InvalidFunctionPointer),
                    AllocState::Live { .. } => Err(EvalError::ExecuteMemory),
                    AllocState::Func { fn_index } => Ok(self.fn_table[fn_index].duplicate()),
                }
            },
        }
    }
}

/// The fault, if any, of resolving `ptr` through the function table.
pub open spec fn get_fn_fault(m: Memory, ptr: MemoryPointer) -> Option<EvalError> {
    match ptr.offset {
        PointerOffset::Undetermined => Some(EvalError::InvalidFunctionPointer),
        PointerOffset::Concrete(o) => {
            if o != 0 {
                Some(EvalError::InvalidFunctionPointer)
            } else if ptr.alloc_id >= m.allocs@.len() {
                Some(EvalError::InvalidFunctionPointer)
            } else {
                match m.allocs@[ptr.alloc_id as int].state {
                    AllocState::Freed => Some(EvalError::InvalidFunctionPointer),
                    AllocState::Live { .. } => Some(EvalError::ExecuteMemory),
                    AllocState::Func { .. } => None,
                }
            }
        },
    }
}

/// The function-table index a fault-free function-pointer resolution
/// reaches.
pub open spec fn fn_index_of(m: Memory, ptr: MemoryPointer) -> int {
    m.allocs@[ptr.alloc_id as int].state->Func_fn_index as int
}

/// A successful allocation: one fresh, mutable, fully undefined
/// allocation of exactly `size` bytes appended; usage grows by `size`.
pub open spec fn alloc_added(
    pre: Memory,
    post: Memory,
    ptr: MemoryPointer,
    size: u64,
    align: u64,
) -> bool {
    &&& ptr.alloc_id == pre.allocs@.len()
    &&& ptr.offset == PointerOffset::Concrete(0)
    &&& post.allocs@.len() == pre.allocs@.len() + 1
    &&& forall|i: int| 0 <= i < pre.allocs@.len() ==> post.allocs@[i] == pre.allocs@[i]
    &&& post.allocs@.last().base == pre.store@.len()
    &&& post.allocs@.last().size_bytes == size
    &&& post.allocs@.last().align == align
    &&& post.allocs@.last().state == (AllocState::Live { immutable: false })
    &&& post.allocs@.last().word_count as int * pre.pointer_size as int >= size as int
    &&& post.store@ == pre.store@ + Seq::new(
        post.allocs@.last().word_count as nat,
        |i: int| Word::Undef,
    )
    &&& post.fn_table@ == pre.fn_table@
    &&& post.pointer_size == pre.pointer_size
    &&& post.memory_size == pre.memory_size
    &&& post.memory_usage == pre.memory_usage + size
}

/// A successful deallocation: the record is marked freed in place and its
/// bytes leave the usage count; words and everything else stay.
pub open spec fn dealloc_done(pre: Memory, post: Memory, ptr: MemoryPointer) -> bool {
    &&& post.allocs@.len() == pre.allocs@.len()
    &&& forall|i: int|
        0 <= i < pre.allocs@.len() && i != ptr.alloc_id as int ==> post.allocs@[i]
            == pre.allocs@[i]
    &&& post.allocs@[ptr.alloc_id as int].state is Freed
    &&& post.allocs@[ptr.alloc_id as int].base == pre.allocs@[ptr.alloc_id as int].base
    &&& post.allocs@[ptr.alloc_id as int].word_count == pre.allocs@[ptr.alloc_id as int].word_count
    &&& post.store@ == pre.store@
    &&& post.fn_table@ == pre.fn_table@
    &&& post.pointer_size == pre.pointer_size
    &&& post.memory_size == pre.memory_size
    &&& post.memory_usage == pre.memory_usage - pre.allocs@[ptr.alloc_id as int].size_bytes
}

/// A successful static marking: the record's immutable flag is set, all
/// else stays.
pub open spec fn marked_static(pre: Memory, post: Memory, alloc_id: u64) -> bool {
    &&& post.allocs@.len() == pre.allocs@.len()
    &&& forall|i: int|
        0 <= i < pre.allocs@.len() && i != alloc_id as int ==> post.allocs@[i] == pre.allocs@[i]
    &&& post.allocs@[alloc_id as int].state == (AllocState::Live { immutable: true })
    &&& post.allocs@[alloc_id as int].base == pre.allocs@[alloc_id as int].base
    &&& post.allocs@[alloc_id as int].word_count == pre.allocs@[alloc_id as int].word_count
    &&& post.allocs@[alloc_id as int].size_bytes == pre.allocs@[alloc_id as int].size_bytes
    &&& post.allocs@[alloc_id as int].align == pre.allocs@[alloc_id as int].align
    &&& post.store@ == pre.store@
    &&& post.fn_table@ == pre.fn_table@
    &&& post.pointer_size == pre.pointer_size
    &&& post.memory_size == pre.memory_size
    &&& post.memory_usage == pre.memory_usage
}

/// A successful function-allocation: the instance is appended to the
/// function table, a zero-sized allocation standing for it is appended,
/// and the returned pointer names that allocation.
pub open spec fn fn_alloc_added(pre: Memory, post: Memory, p: MemoryPointer, inst: Instance) -> bool {
    &&& p.alloc_id == pre.allocs@.len()
    &&& p.offset == PointerOffset::Concrete(0)
    &&& post.fn_table@ == pre.fn_table@.push(inst)
    &&& post.allocs@.len() == pre.allocs@.len() + 1
    &&& forall|i: int| 0 <= i < pre.allocs@.len() ==> post.allocs@[i] == pre.allocs@[i]
    &&& match post.allocs@.last().state {
        AllocState::Func { fn_index } => fn_index as int == pre.fn_table@.len(),
        _ => false,
    }
    &&& post.store@ == pre.store@
    &&& post.pointer_size == pre.pointer_size
    &&& post.memory_size == pre.memory_size
    &&& post.memory_usage == pre.memory_usage
}

/// A fault-free word access lands inside the allocation's word run.
proof fn lemma_word_in_range(m: Memory, id: int, o: int)
    requires
        m.wf(),
        0 <= id < m.allocs@.len(),
        m.allocs@[id].state is Live,
        o >= 0,
        o + m.pointer_size <= m.allocs@[id].size_bytes,
        o % m.pointer_size as int == 0,
    ensures
        0 <= o / (m.pointer_size as int) < m.allocs@[id].word_count,
        m.allocs@[id].base + o / (m.pointer_size as int) < m.store@.len(),
{
    let ps = m.pointer_size as int;
    let a = m.allocs@[id];
    let wc = a.word_count as int;
    assert(meta_wf(m.allocs@[id], m.pointer_size, m.store@.len(), m.fn_table@.len()));
    if m.pointer_size == 0 {
        assert(!is_pow2(0nat));
    }
    assert((wc - 1) * ps == wc * ps - ps) by (nonlinear_arith);
    assert(o <= (wc - 1) * ps);
    assert(wc >= 1) by (nonlinear_arith)
        requires
            wc * ps >= a.size_bytes as int,
            a.size_bytes as int >= o + ps,
            o >= 0,
            ps >= 1,
    ;
    lemma_div_is_ordered(o, (wc - 1) * ps, ps);
    lemma_div_by_multiple(wc - 1, ps);
    assert(((wc - 1) * ps) / ps == wc - 1);
    assert(o / ps >= 0) by {
        lemma_div_is_ordered(0, o, ps);
    }
}

/// Executable power-of-two test.
pub fn exec_is_pow2(n: u64) -> (r: bool)
    ensures
        r == is_pow2(n as nat),
{
    if n == 0 {
        return false;
    }
    let mut m = n;
    while m > 1 && m % 2 == 0
        invariant
            m >= 1,
            is_pow2(n as nat) == is_pow2(m as nat),
        decreases m,
    {
        m = m / 2;
    }
    m == 1
}

/// Executable largest-power-of-two-divisor of a nonzero offset.
pub fn exec_align_of_offset(o: u64) -> (r: u64)
    requires
        o > 0,
    ensures
        r as nat == align_of_offset(o as nat),
{
    let mut a: u64 = 1;
    let mut m = o;
    while m % 2 == 0
        invariant
            m >= 1,
            o as int == a as int * m as int,
            align_of_offset(o as nat) == a as nat * align_of_offset(m as nat),
            a >= 1,
        decreases m,
    {
        proof {
            assert(o as int == (a as int * 2) * (m as int / 2)) by (nonlinear_arith)
                requires
                    o as int == a as int * m as int,
                    m as int % 2 == 0,
                    m >= 1,
            ;
            assert(align_of_offset(m as nat) == 2 * align_of_offset((m / 2) as nat));
            assert(a as nat * (2 * align_of_offset((m / 2) as nat)) == (a as nat * 2)
                * align_of_offset((m / 2) as nat)) by (nonlinear_arith);
            assert(a as int * 2 <= o as int) by (nonlinear_arith)
                requires
                    o as int == a as int * m as int,
                    m as int % 2 == 0,
                    m >= 1,
                    a >= 1,
            ;
        }
        m = m / 2;
        a = a * 2;
    }
    proof {
        assert(align_of_offset(m as nat) == 1);
    }
    a
}

} // verus!
