//! The fault taxonomy of the abstract machine.
//!
//! `EvalError` is the error channel of every fallible operation; it may
//! carry handles into the host type system (`Ty`, `FnSig`, layout errors)
//! that are only meaningful inside the scope that produced them.
//! `StaticEvalError` is its portable projection: structurally identical,
//! but with every type-handle payload erased, so a fault can be stored or
//! cached beyond that scope. The projection is total, explicit and
//! one-directional; there is no conversion back.

use vstd::prelude::*;
use vstd::string::StringExecFns;
use crate::memory::{MemoryPointer, PointerOffset};
use crate::ty::{Ty, FnSig, LayoutError};
use crate::render::{dec_rep, push_dec};

verus! {

/// A source-position reference carried by diagnostics.
#[derive(Clone, Copy, Debug, PartialEq, Eq, Structural)]
pub struct Span {
    pub lo: u64,
    pub hi: u64,
}

/// A binary operation of the interpreted intermediate representation.
#[derive(Clone, Copy, Debug)]
pub enum BinOp {
    Add,
    Sub,
    Mul,
    Div,
    Rem,
    BitXor,
    BitAnd,
    BitOr,
    Shl,
    Shr,
    Eq,
    Lt,
    Le,
    Ne,
    Ge,
    Gt,
    Offset,
}

/// An arithmetic failure of the interpreted program.
#[derive(Clone, Copy, Debug)]
pub enum MathError {
    Overflow(BinOp),
    DivisionByZero,
    RemainderByZero,
    UnsignedNegation,
}

/// Every distinct way an operation of the abstract machine can fail.
#[derive(Clone, Debug)]
pub enum EvalError {
    FunctionPointerTyMismatch(FnSig, FnSig),
    NoMirFor(String),
    UnterminatedCString(MemoryPointer),
    DanglingPointerDeref,
    InvalidMemoryAccess,
    InvalidFunctionPointer,
    InvalidBool,
    InvalidDiscriminant,
    PointerOutOfBounds { ptr: MemoryPointer, access: bool, allocation_size: u64 },
    InvalidNullPointerUsage,
    ReadPointerAsBytes,
    ReadBytesAsPointer,
    InvalidPointerMath,
    ReadUndefBytes,
    InvalidBoolOp(BinOp),
    Unimplemented(String),
    DerefFunctionPointer,
    ExecuteMemory,
    ArrayIndexOutOfBounds(Span, u64, u64),
    Math(Span, MathError),
    Intrinsic(String),
    OverflowingMath,
    InvalidChar(u128),
    OutOfMemory { allocation_size: u64, memory_size: u64, memory_usage: u64 },
    ExecutionTimeLimitReached,
    StackFrameLimitReached,
    AlignmentCheckFailed { required: u64, has: u64 },
    CalledClosureAsFunction,
    VtableForArgumentlessMethod,
    ModifiedConstantMemory,
    AssumptionNotHeld,
    InlineAsm,
    TypeNotPrimitive(Ty),
    ReallocatedStaticMemory,
    DeallocatedStaticMemory,
    Layout(LayoutError),
    HeapAllocZeroBytes,
    HeapAllocNonPowerOfTwoAlignment(u64),
    Unreachable,
    Panic,
    ReadFromReturnPointer,
    TypeckError,
}

pub type EvalResult<T> = Result<T, EvalError>;

/// The fixed low-detail description of a fault.
pub open spec fn description_spec(e: EvalError) -> Seq<char> {
    match e {
        EvalError::FunctionPointerTyMismatch(..) => "tried to call a function through a function pointer of a different type"@,
        EvalError::InvalidMemoryAccess => "tried to access memory through an invalid pointer"@,
        EvalError::DanglingPointerDeref => "dangling pointer was dereferenced"@,
        EvalError::InvalidFunctionPointer => "tried to use an integer pointer or a dangling pointer as a function pointer"@,
        EvalError::InvalidBool => "invalid boolean value read"@,
        EvalError::InvalidDiscriminant => "invalid enum discriminant value read"@,
        EvalError::PointerOutOfBounds { .. } => "pointer offset outside bounds of allocation"@,
        EvalError::InvalidNullPointerUsage => "invalid use of NULL pointer"@,
        EvalError::ReadPointerAsBytes => "a raw memory access tried to access part of a pointer value as raw bytes"@,
        EvalError::ReadBytesAsPointer => "a memory access tried to interpret some bytes as a pointer"@,
        EvalError::InvalidPointerMath => "attempted to do math or a comparison on pointers into different allocations"@,
        EvalError::ReadUndefBytes => "attempted to read undefined bytes"@,
        EvalError::InvalidBoolOp(_) => "invalid boolean operation"@,
        EvalError::Unimplemented(msg) => msg@,
        EvalError::DerefFunctionPointer => "tried to dereference a function pointer"@,
        EvalError::ExecuteMemory => "tried to treat a memory pointer as a function pointer"@,
        EvalError::ArrayIndexOutOfBounds(..) => "array index out of bounds"@,
        EvalError::Math(..) => "mathematical operation failed"@,
        EvalError::Intrinsic(..) => "intrinsic failed"@,
        EvalError::OverflowingMath => "attempted to do overflowing math"@,
        EvalError::NoMirFor(..) => "mir not found"@,
        EvalError::InvalidChar(..) => "tried to interpret an invalid 32-bit value as a char"@,
        EvalError::OutOfMemory { .. } => "could not allocate more memory"@,
        EvalError::ExecutionTimeLimitReached => "reached the configured maximum execution time"@,
        EvalError::StackFrameLimitReached => "reached the configured maximum number of stack frames"@,
        EvalError::AlignmentCheckFailed { .. } => "tried to execute a misaligned read or write"@,
        EvalError::CalledClosureAsFunction => "tried to call a closure through a function pointer"@,
        EvalError::VtableForArgumentlessMethod => "tried to call a vtable function without arguments"@,
        EvalError::ModifiedConstantMemory => "tried to modify constant memory"@,
        EvalError::AssumptionNotHeld => "`assume` argument was false"@,
        EvalError::InlineAsm => "inline assembly is not supported"@,
        EvalError::TypeNotPrimitive(_) => "expected primitive type, got nonprimitive"@,
        EvalError::ReallocatedStaticMemory => "tried to reallocate static memory"@,
        EvalError::DeallocatedStaticMemory => "tried to deallocate static memory"@,
        EvalError::Layout(_) => "layout computation failed"@,
        EvalError::UnterminatedCString(_) => "attempted to get length of a null terminated string, but no null found before end of allocation"@,
        EvalError::HeapAllocZeroBytes => "tried to re-, de- or allocate zero bytes on the heap"@,
        EvalError::HeapAllocNonPowerOfTwoAlignment(_) => "tried to re-, de-, or allocate heap memory with alignment that is not a power of two"@,
        EvalError::Unreachable => "entered unreachable code"@,
        EvalError::Panic => "the evaluated program panicked"@,
        EvalError::ReadFromReturnPointer => "tried to read from the return pointer"@,
        EvalError::TypeckError => "encountered constants with type errors, stopping evaluation"@,
    }
}

/// The rendering of a source position inside a formatted message.
pub open spec fn span_rep(s: Span) -> Seq<char> {
    "span("@ + dec_rep(s.lo as nat) + ".."@ + dec_rep(s.hi as nat) + ")"@
}

/// The rendering of a binary operation inside a formatted message.
pub open spec fn binop_rep(op: BinOp) -> Seq<char> {
    match op {
        BinOp::Add => "Add"@,
        BinOp::Sub => "Sub"@,
        BinOp::Mul => "Mul"@,
        BinOp::Div => "Div"@,
        BinOp::Rem => "Rem"@,
        BinOp::BitXor => "BitXor"@,
        BinOp::BitAnd => "BitAnd"@,
        BinOp::BitOr => "BitOr"@,
        BinOp::Shl => "Shl"@,
        BinOp::Shr => "Shr"@,
        BinOp::Eq => "Eq"@,
        BinOp::Lt => "Lt"@,
        BinOp::Le => "Le"@,
        BinOp::Ne => "Ne"@,
        BinOp::Ge => "Ge"@,
        BinOp::Gt => "Gt"@,
        BinOp::Offset => "Offset"@,
    }
}

/// The rendering of an arithmetic failure inside a formatted message.
pub open spec fn math_rep(m: MathError) -> Seq<char> {
    match m {
        MathError::Overflow(op) => "Overflow("@ + binop_rep(op) + ")"@,
        MathError::DivisionByZero => "DivisionByZero"@,
        MathError::RemainderByZero => "RemainderByZero"@,
        MathError::UnsignedNegation => "UnsignedNegation"@,
    }
}

/// The rendering of a layout failure inside a formatted message.
pub open spec fn layout_rep(e: LayoutError) -> Seq<char> {
    match e {
        LayoutError::Unknown(t) => "Unknown("@ + dec_rep(t.0 as nat) + ")"@,
        LayoutError::SizeOverflow(t) => "SizeOverflow("@ + dec_rep(t.0 as nat) + ")"@,
    }
}

/// Whether `message` accepts this fault: the fault must not need data the
/// formatter cannot use (an undetermined pointer offset) and its numeric
/// payload must be internally consistent.
pub open spec fn message_wf(e: EvalError) -> bool {
    match e {
        EvalError::PointerOutOfBounds { ptr, .. } => ptr.offset is Concrete,
        EvalError::OutOfMemory { memory_size, memory_usage, .. } => memory_usage <= memory_size,
        _ => true,
    }
}

/// The full formatted message of a fault: the payload-bearing rendering
/// where one exists, the fixed description otherwise.
pub open spec fn message_spec(e: EvalError) -> Seq<char> {
    match e {
        EvalError::PointerOutOfBounds { ptr, access, allocation_size } => (
            match ptr.offset {
                PointerOffset::Concrete(o) => (if access {
                    "memory access"@
                } else {
                    "pointer computed"@
                }) + " at offset "@ + dec_rep(o as nat) + ", outside bounds of allocation "@
                    + dec_rep(ptr.alloc_id as nat) + " which has size "@
                    + dec_rep(allocation_size as nat),
                PointerOffset::Undetermined => Seq::<char>::empty(),
            }
        ),
        EvalError::NoMirFor(func) => "no mir for `"@ + func@ + "`"@,
        EvalError::FunctionPointerTyMismatch(sig, got) => "tried to call a function with sig "@
            + dec_rep(sig.0 as nat) + " through a function pointer of type "@
            + dec_rep(got.0 as nat),
        EvalError::ArrayIndexOutOfBounds(span, len, index) => "index out of bounds: the len is "@
            + dec_rep(len as nat) + " but the index is "@ + dec_rep(index as nat) + " at "@
            + span_rep(span),
        EvalError::Math(span, err) => math_rep(err) + " at "@ + span_rep(span),
        EvalError::InvalidChar(c) => "tried to interpret an invalid 32-bit value as a char: "@
            + dec_rep(c as nat),
        EvalError::OutOfMemory { allocation_size, memory_size, memory_usage } => "tried to allocate "@
            + dec_rep(allocation_size as nat) + " more bytes, but only "@
            + dec_rep((memory_size - memory_usage) as nat) + " bytes are free of the "@
            + dec_rep(memory_size as nat) + " byte memory"@,
        EvalError::AlignmentCheckFailed { required, has } => "tried to access memory with alignment "@
            + dec_rep(has as nat) + ", but alignment "@ + dec_rep(required as nat)
            + " is required"@,
        EvalError::TypeNotPrimitive(t) => "expected primitive type, got "@ + dec_rep(t.0 as nat),
        EvalError::Layout(err) => "layout computation failed: "@ + layout_rep(err),
        _ => description_spec(e),
    }
}

impl EvalError {
    /// The fixed low-detail description of this fault.
    pub fn description(&self) -> (r: &str)
        ensures
            r@ == description_spec(*self),
    {
        match self {
            EvalError::FunctionPointerTyMismatch(..) => "tried to call a function through a function pointer of a different type",
            EvalError::InvalidMemoryAccess => "tried to access memory through an invalid pointer",
            EvalError::DanglingPointerDeref => "dangling pointer was dereferenced",
            EvalError::InvalidFunctionPointer => "tried to use an integer pointer or a dangling pointer as a function pointer",
            EvalError::InvalidBool => "invalid boolean value read",
            EvalError::InvalidDiscriminant => "invalid enum discriminant value read",
            EvalError::PointerOutOfBounds { .. } => "pointer offset outside bounds of allocation",
            EvalError::InvalidNullPointerUsage => "invalid use of NULL pointer",
            EvalError::ReadPointerAsBytes => "a raw memory access tried to access part of a pointer value as raw bytes",
            EvalError::ReadBytesAsPointer => "a memory access tried to interpret some bytes as a pointer",
            EvalError::InvalidPointerMath => "attempted to do math or a comparison on pointers into different allocations",
            EvalError::ReadUndefBytes => "attempted to read undefined bytes",
            EvalError::InvalidBoolOp(_) => "invalid boolean operation",
            EvalError::Unimplemented(msg) => msg.as_str(),
            EvalError::DerefFunctionPointer => "tried to dereference a function pointer",
            EvalError::ExecuteMemory => "tried to treat a memory pointer as a function pointer",
            EvalError::ArrayIndexOutOfBounds(..) => "array index out of bounds",
            EvalError::Math(..) => "mathematical operation failed",
            EvalError::Intrinsic(..) => "intrinsic failed",
            EvalError::OverflowingMath => "attempted to do overflowing math",
            EvalError::NoMirFor(..) => "mir not found",
            EvalError::InvalidChar(..) => "tried to interpret an invalid 32-bit value as a char",
            EvalError::OutOfMemory { .. } => "could not allocate more memory",
            EvalError::ExecutionTimeLimitReached => "reached the configured maximum execution time",
            EvalError::StackFrameLimitReached => "reached the configured maximum number of stack frames",
            EvalError::AlignmentCheckFailed { .. } => "tried to execute a misaligned read or write",
            EvalError::CalledClosureAsFunction => "tried to call a closure through a function pointer",
            EvalError::VtableForArgumentlessMethod => "tried to call a vtable function without arguments",
            EvalError::ModifiedConstantMemory => "tried to modify constant memory",
            EvalError::AssumptionNotHeld => "`assume` argument was false",
            EvalError::InlineAsm => "inline assembly is not supported",
            EvalError::TypeNotPrimitive(_) => "expected primitive type, got nonprimitive",
            EvalError::ReallocatedStaticMemory => "tried to reallocate static memory",
            EvalError::DeallocatedStaticMemory => "tried to deallocate static memory",
            EvalError::Layout(_) => "layout computation failed",
            EvalError::UnterminatedCString(_) => "attempted to get length of a null terminated string, but no null found before end of allocation",
            EvalError::HeapAllocZeroBytes => "tried to re-, de- or allocate zero bytes on the heap",
            EvalError::HeapAllocNonPowerOfTwoAlignment(_) => "tried to re-, de-, or allocate heap memory with alignment that is not a power of two",
            EvalError::Unreachable => "entered unreachable code",
            EvalError::Panic => "the evaluated program panicked",
            EvalError::ReadFromReturnPointer => "tried to read from the return pointer",
            EvalError::TypeckError => "encountered constants with type errors, stopping evaluation",
        }
    }

    /// The full formatted message of this fault.
    pub fn message(&self) -> (r: String)
        requires
            message_wf(*self),
        ensures
            r@ == message_spec(*self),
    {
        let mut s = String::new();
        match self {
            EvalError::PointerOutOfBounds { ptr, access, allocation_size } => {
                match ptr.offset {
                    PointerOffset::Concrete(o) => {
                        if *access {
                            s.append("memory access");
                        } else {
                            s.append("pointer computed");
                        }
                        s.append(" at offset ");
                        push_dec(&mut s, o as u128);
                        s.append(", outside bounds of allocation ");
                        push_dec(&mut s, ptr.alloc_id as u128);
                        s.append(" which has size ");
                        push_dec(&mut s, *allocation_size as u128);
                    },
                    PointerOffset::Undetermined => {
                        proof {
                            assert(false);
                        }
                    },
                }
            },
            EvalError::NoMirFor(func) => {
                s.append("no mir for `");
                s.append(func.as_str());
                s.append("`");
            },
            EvalError::FunctionPointerTyMismatch(sig, got) => {
                s.append("tried to call a function with sig ");
                push_dec(&mut s, sig.0 as u128);
                s.append(" through a function pointer of type ");
                push_dec(&mut s, got.0 as u128);
            },
            EvalError::ArrayIndexOutOfBounds(span, len, index) => {
                s.append("index out of bounds: the len is ");
                push_dec(&mut s, *len as u128);
                s.append(" but the index is ");
                push_dec(&mut s, *index as u128);
                s.append(" at ");
                push_span(&mut s, *span);
            },
            EvalError::Math(span, err) => {
                push_math(&mut s, *err);
                s.append(" at ");
                push_span(&mut s, *span);
            },
            EvalError::InvalidChar(c) => {
                s.append("tried to interpret an invalid 32-bit value as a char: ");
                push_dec(&mut s, *c);
            },
            EvalError::OutOfMemory { allocation_size, memory_size, memory_usage } => {
                s.append("tried to allocate ");
                push_dec(&mut s, *allocation_size as u128);
                s.append(" more bytes, but only ");
                push_dec(&mut s, (*memory_size - *memory_usage) as u128);
                s.append(" bytes are free of the ");
                push_dec(&mut s, *memory_size as u128);
                s.append(" byte memory");
            },
            EvalError::AlignmentCheckFailed { required, has } => {
                s.append("tried to access memory with alignment ");
                push_dec(&mut s, *has as u128);
                s.append(", but alignment ");
                push_dec(&mut s, *required as u128);
                s.append(" is required");
            },
            EvalError::TypeNotPrimitive(t) => {
                s.append("expected primitive type, got ");
                push_dec(&mut s, t.0 as u128);
            },
            EvalError::Layout(err) => {
                s.append("layout computation failed: ");
                push_layout(&mut s, *err);
            },
            _ => {
                s.append(self.description());
            },
        }
        proof {
            assert(s@ =~= message_spec(*self));
        }
        s
    }
}

/// Appends the rendering of a source position.
fn push_span(s: &mut String, span: Span)
    ensures
        final(s)@ == old(s)@ + span_rep(span),
{
    s.append("span(");
    push_dec(s, span.lo as u128);
    s.append("..");
    push_dec(s, span.hi as u128);
    s.append(")");
    proof {
        assert(s@ =~= old(s)@ + span_rep(span));
    }
}

/// The rendering of a binary operation.
fn binop_str(op: BinOp) -> (r: &'static str)
    ensures
        r@ == binop_rep(op),
{
    match op {
        BinOp::Add => "Add",
        BinOp::Sub => "Sub",
        BinOp::Mul => "Mul",
        BinOp::Div => "Div",
        BinOp::Rem => "Rem",
        BinOp::BitXor => "BitXor",
        BinOp::BitAnd => "BitAnd",
        BinOp::BitOr => "BitOr",
        BinOp::Shl => "Shl",
        BinOp::Shr => "Shr",
        BinOp::Eq => "Eq",
        BinOp::Lt => "Lt",
        BinOp::Le => "Le",
        BinOp::Ne => "Ne",
        BinOp::Ge => "Ge",
        BinOp::Gt => "Gt",
        BinOp::Offset => "Offset",
    }
}

/// Appends the rendering of an arithmetic failure.
fn push_math(s: &mut String, m: MathError)
    ensures
        final(s)@ == old(s)@ + math_rep(m),
{
    match m {
        MathError::Overflow(op) => {
            s.append("Overflow(");
            s.append(binop_str(op));
            s.append(")");
        },
        MathError::DivisionByZero => {
            s.append("DivisionByZero");
        },
        MathError::RemainderByZero => {
            s.append("RemainderByZero");
        },
        MathError::UnsignedNegation => {
            s.append("UnsignedNegation");
        },
    }
    proof {
        assert(s@ =~= old(s)@ + math_rep(m));
    }
}

/// Appends the rendering of a layout failure.
fn push_layout(s: &mut String, e: LayoutError)
    ensures
        final(s)@ == old(s)@ + layout_rep(e),
{
    match e {
        LayoutError::Unknown(t) => {
            s.append("Unknown(");
            push_dec(s, t.0 as u128);
            s.append(")");
        },
        LayoutError::SizeOverflow(t) => {
            s.append("SizeOverflow(");
            push_dec(s, t.0 as u128);
            s.append(")");
        },
    }
    proof {
        assert(s@ =~= old(s)@ + layout_rep(e));
    }
}

/// The portable projection of a fault: the same variant set with every
/// type-handle payload erased to a unit marker, so the value no longer
/// references the scope that produced it.
#[derive(Clone, Debug)]
pub enum StaticEvalError {
    FunctionPointerTyMismatch,
    NoMirFor(String),
    UnterminatedCString(MemoryPointer),
    DanglingPointerDeref,
    InvalidMemoryAccess,
    InvalidFunctionPointer,
    InvalidBool,
    InvalidDiscriminant,
    PointerOutOfBounds { ptr: MemoryPointer, access: bool, allocation_size: u64 },
    InvalidNullPointerUsage,
    ReadPointerAsBytes,
    ReadBytesAsPointer,
    InvalidPointerMath,
    ReadUndefBytes,
    InvalidBoolOp(BinOp),
    Unimplemented(String),
    DerefFunctionPointer,
    ExecuteMemory,
    ArrayIndexOutOfBounds(Span, u64, u64),
    Math(Span, MathError),
    Intrinsic(String),
    OverflowingMath,
    InvalidChar(u128),
    OutOfMemory { allocation_size: u64, memory_size: u64, memory_usage: u64 },
    ExecutionTimeLimitReached,
    StackFrameLimitReached,
    AlignmentCheckFailed { required: u64, has: u64 },
    CalledClosureAsFunction,
    VtableForArgumentlessMethod,
    ModifiedConstantMemory,
    AssumptionNotHeld,
    InlineAsm,
    TypeNotPrimitive,
    ReallocatedStaticMemory,
    DeallocatedStaticMemory,
    Layout,
    HeapAllocZeroBytes,
    HeapAllocNonPowerOfTwoAlignment(u64),
    Unreachable,
    Panic,
    ReadFromReturnPointer,
    TypeckError,
}

/// The projection of a fault to its portable form: every variant maps to
/// exactly one portable variant, type-handle payloads are dropped, all
/// other payloads carry over unchanged.
pub open spec fn to_static_spec(v: EvalError) -> StaticEvalError {
    match v {
        EvalError::FunctionPointerTyMismatch(..) => StaticEvalError::FunctionPointerTyMismatch,
        EvalError::InvalidMemoryAccess => StaticEvalError::InvalidMemoryAccess,
        EvalError::DanglingPointerDeref => StaticEvalError::DanglingPointerDeref,
        EvalError::InvalidFunctionPointer => StaticEvalError::InvalidFunctionPointer,
        EvalError::InvalidBool => StaticEvalError::InvalidBool,
        EvalError::InvalidDiscriminant => StaticEvalError::InvalidDiscriminant,
        EvalError::PointerOutOfBounds { ptr, access, allocation_size } => StaticEvalError::PointerOutOfBounds { ptr, access, allocation_size },
        EvalError::InvalidNullPointerUsage => StaticEvalError::InvalidNullPointerUsage,
        EvalError::ReadPointerAsBytes => StaticEvalError::ReadPointerAsBytes,
        EvalError::ReadBytesAsPointer => StaticEvalError::ReadBytesAsPointer,
        EvalError::InvalidPointerMath => StaticEvalError::InvalidPointerMath,
        EvalError::ReadUndefBytes => StaticEvalError::ReadUndefBytes,
        EvalError::InvalidBoolOp(op) => StaticEvalError::InvalidBoolOp(op),
        EvalError::Unimplemented(msg) => StaticEvalError::Unimplemented(msg),
        EvalError::DerefFunctionPointer => StaticEvalError::DerefFunctionPointer,
        EvalError::ExecuteMemory => StaticEvalError::ExecuteMemory,
        EvalError::ArrayIndexOutOfBounds(a, b, c) => StaticEvalError::ArrayIndexOutOfBounds(a, b, c),
        EvalError::Math(span, e) => StaticEvalError::Math(span, e),
        EvalError::Intrinsic(m) => StaticEvalError::Intrinsic(m),
        EvalError::OverflowingMath => StaticEvalError::OverflowingMath,
        EvalError::NoMirFor(m) => StaticEvalError::NoMirFor(m),
        EvalError::InvalidChar(c) => StaticEvalError::InvalidChar(c),
        EvalError::OutOfMemory { allocation_size, memory_size, memory_usage } => StaticEvalError::OutOfMemory { allocation_size, memory_size, memory_usage },
        EvalError::ExecutionTimeLimitReached => StaticEvalError::ExecutionTimeLimitReached,
        EvalError::StackFrameLimitReached => StaticEvalError::StackFrameLimitReached,
        EvalError::AlignmentCheckFailed { required, has } => StaticEvalError::AlignmentCheckFailed { required, has },
        EvalError::CalledClosureAsFunction => StaticEvalError::CalledClosureAsFunction,
        EvalError::VtableForArgumentlessMethod => StaticEvalError::VtableForArgumentlessMethod,
        EvalError::ModifiedConstantMemory => StaticEvalError::ModifiedConstantMemory,
        EvalError::AssumptionNotHeld => StaticEvalError::AssumptionNotHeld,
        EvalError::InlineAsm => StaticEvalError::InlineAsm,
        EvalError::TypeNotPrimitive(_) => StaticEvalError::TypeNotPrimitive,
        EvalError::ReallocatedStaticMemory => StaticEvalError::ReallocatedStaticMemory,
        EvalError::DeallocatedStaticMemory => StaticEvalError::DeallocatedStaticMemory,
        EvalError::Layout(_) => StaticEvalError::Layout,
        EvalError::UnterminatedCString(p) => StaticEvalError::UnterminatedCString(p),
        EvalError::HeapAllocZeroBytes => StaticEvalError::HeapAllocZeroBytes,
        EvalError::HeapAllocNonPowerOfTwoAlignment(n) => StaticEvalError::HeapAllocNonPowerOfTwoAlignment(n),
        EvalError::Unreachable => StaticEvalError::Unreachable,
        EvalError::Panic => StaticEvalError::Panic,
        EvalError::ReadFromReturnPointer => StaticEvalError::ReadFromReturnPointer,
        EvalError::TypeckError => StaticEvalError::TypeckError,
    }
}

impl From<EvalError> for StaticEvalError {
    /// Projects a fault to its portable form. Total: every variant is
    /// matched explicitly, with no fallback arm.
    fn from(v: EvalError) -> (r: StaticEvalError) {
        match v {
            EvalError::FunctionPointerTyMismatch(..) => StaticEvalError::FunctionPointerTyMismatch,
            EvalError::InvalidMemoryAccess => StaticEvalError::InvalidMemoryAccess,
            EvalError::DanglingPointerDeref => StaticEvalError::DanglingPointerDeref,
            EvalError::InvalidFunctionPointer => StaticEvalError::InvalidFunctionPointer,
            EvalError::InvalidBool => StaticEvalError::InvalidBool,
            EvalError::InvalidDiscriminant => StaticEvalError::InvalidDiscriminant,
            EvalError::PointerOutOfBounds { ptr, access, allocation_size } => StaticEvalError::PointerOutOfBounds { ptr, access, allocation_size },
            EvalError::InvalidNullPointerUsage => StaticEvalError::InvalidNullPointerUsage,
            EvalError::ReadPointerAsBytes => StaticEvalError::ReadPointerAsBytes,
            EvalError::ReadBytesAsPointer => StaticEvalError::ReadBytesAsPointer,
            EvalError::InvalidPointerMath => StaticEvalError::InvalidPointerMath,
            EvalError::ReadUndefBytes => StaticEvalError::ReadUndefBytes,
            EvalError::InvalidBoolOp(op) => StaticEvalError::InvalidBoolOp(op),
            EvalError::Unimplemented(msg) => StaticEvalError::Unimplemented(msg),
            EvalError::DerefFunctionPointer => StaticEvalError::DerefFunctionPointer,
            EvalError::ExecuteMemory => StaticEvalError::ExecuteMemory,
            EvalError::ArrayIndexOutOfBounds(a, b, c) => StaticEvalError::ArrayIndexOutOfBounds(a, b, c),
            EvalError::Math(span, e) => StaticEvalError::Math(span, e),
            EvalError::Intrinsic(m) => StaticEvalError::Intrinsic(m),
            EvalError::OverflowingMath => StaticEvalError::OverflowingMath,
            EvalError::NoMirFor(m) => StaticEvalError::NoMirFor(m),
            EvalError::InvalidChar(c) => StaticEvalError::InvalidChar(c),
            EvalError::OutOfMemory { allocation_size, memory_size, memory_usage } => StaticEvalError::OutOfMemory { allocation_size, memory_size, memory_usage },
            EvalError::ExecutionTimeLimitReached => StaticEvalError::ExecutionTimeLimitReached,
            EvalError::StackFrameLimitReached => StaticEvalError::StackFrameLimitReached,
            EvalError::AlignmentCheckFailed { required, has } => StaticEvalError::AlignmentCheckFailed { required, has },
            EvalError::CalledClosureAsFunction => StaticEvalError::CalledClosureAsFunction,
            EvalError::VtableForArgumentlessMethod => StaticEvalError::VtableForArgumentlessMethod,
            EvalError::ModifiedConstantMemory => StaticEvalError::ModifiedConstantMemory,
            EvalError::AssumptionNotHeld => StaticEvalError::AssumptionNotHeld,
            EvalError::InlineAsm => StaticEvalError::InlineAsm,
            EvalError::TypeNotPrimitive(_) => StaticEvalError::TypeNotPrimitive,
            EvalError::ReallocatedStaticMemory => StaticEvalError::ReallocatedStaticMemory,
            EvalError::DeallocatedStaticMemory => StaticEvalError::DeallocatedStaticMemory,
            EvalError::Layout(_) => StaticEvalError::Layout,
            EvalError::UnterminatedCString(p) => StaticEvalError::UnterminatedCString(p),
            EvalError::HeapAllocZeroBytes => StaticEvalError::HeapAllocZeroBytes,
            EvalError::HeapAllocNonPowerOfTwoAlignment(n) => StaticEvalError::HeapAllocNonPowerOfTwoAlignment(n),
            EvalError::Unreachable => StaticEvalError::Unreachable,
            EvalError::Panic => StaticEvalError::Panic,
            EvalError::ReadFromReturnPointer => StaticEvalError::ReadFromReturnPointer,
            EvalError::TypeckError => StaticEvalError::TypeckError,
        }
    }
}

impl vstd::std_specs::convert::FromSpecImpl<EvalError> for StaticEvalError {
    open spec fn obeys_from_spec() -> bool {
        true
    }

    open spec fn from_spec(v: EvalError) -> StaticEvalError {
        to_static_spec(v)
    }
}

/// Projection is total — defined on every fault variant — and keeps every
/// payload that is not a type handle byte-for-byte, while each type-handle
/// payload is erased to the matching unit marker.
pub proof fn lemma_projection_preserves_payloads(e: EvalError)
    ensures
        (e matches EvalError::PointerOutOfBounds { ptr, access, allocation_size } ==> to_static_spec(
            e,
        ) == StaticEvalError::PointerOutOfBounds { ptr, access, allocation_size }),
        (e matches EvalError::NoMirFor(m) ==> to_static_spec(e) == StaticEvalError::NoMirFor(m)),
        (e matches EvalError::UnterminatedCString(p) ==> to_static_spec(e)
            == StaticEvalError::UnterminatedCString(p)),
        (e matches EvalError::InvalidBoolOp(op) ==> to_static_spec(e)
            == StaticEvalError::InvalidBoolOp(op)),
        (e matches EvalError::Unimplemented(m) ==> to_static_spec(e)
            == StaticEvalError::Unimplemented(m)),
        (e matches EvalError::ArrayIndexOutOfBounds(a, b, c) ==> to_static_spec(e)
            == StaticEvalError::ArrayIndexOutOfBounds(a, b, c)),
        (e matches EvalError::Math(s, m) ==> to_static_spec(e) == StaticEvalError::Math(s, m)),
        (e matches EvalError::Intrinsic(m) ==> to_static_spec(e) == StaticEvalError::Intrinsic(m)),
        (e matches EvalError::InvalidChar(c) ==> to_static_spec(e) == StaticEvalError::InvalidChar(
            c,
        )),
        (e matches EvalError::OutOfMemory { allocation_size, memory_size, memory_usage }
            ==> to_static_spec(e) == StaticEvalError::OutOfMemory {
                allocation_size,
                memory_size,
                memory_usage,
            }),
        (e matches EvalError::AlignmentCheckFailed { required, has } ==> to_static_spec(e)
            == StaticEvalError::AlignmentCheckFailed { required, has }),
        (e matches EvalError::HeapAllocNonPowerOfTwoAlignment(n) ==> to_static_spec(e)
            == StaticEvalError::HeapAllocNonPowerOfTwoAlignment(n)),
        (e matches EvalError::FunctionPointerTyMismatch(..) ==> to_static_spec(e)
            == StaticEvalError::FunctionPointerTyMismatch),
        (e matches EvalError::TypeNotPrimitive(_) ==> to_static_spec(e)
            == StaticEvalError::TypeNotPrimitive),
        (e matches EvalError::Layout(_) ==> to_static_spec(e) == StaticEvalError::Layout),
{
}

} // verus!
