//! Dynamic dispatch: the trait-obligation resolver and the dispatch-table
//! synthesizer.
//!
//! The resolver runs a selection-and-fulfillment session against the host
//! type system's candidate table: select a candidate, drain its nested
//! obligations into the session's bindings, then resolve and lift the
//! result. A failure here means the type checker upstream already judged
//! the obligation satisfiable and is therefore an internal-invariant
//! violation: it is reported on a distinct, non-recoverable channel
//! (`FatalError`), never as a recoverable fault.

use vstd::prelude::*;
use vstd::arithmetic::div_mod::{lemma_mod_multiples_basic, lemma_div_by_multiple};
use vstd::arithmetic::mul::{lemma_mul_inequality, lemma_mul_strict_inequality};
use crate::error::{EvalError, EvalResult};
use crate::memory::{
    Memory,
    MemoryPointer,
    PointerOffset,
    Word,
    AllocState,
    access_fault,
    same_memory,
    read_usize_res,
    read_ptr_res,
    get_fn_fault,
    fn_index_of,
    spec_offset_by,
};
use crate::ty::{
    Ty,
    TyLayout,
    LayoutError,
    Instance,
    TyArg,
    TraitRef,
    CandidateKind,
    ImplEntry,
    Vtable,
    VtableModel,
    AssocKind,
    MethodRef,
    TyCtxt,
    spec_lookup,
    spec_find_assoc,
    spec_methods_of,
    spec_layout_of,
    copy_substs,
};
use crate::value::{PrimVal, Value};

verus! {

/// An internal-invariant violation of the obligation resolver: the host
/// type system failed on an obligation a type-checked program cannot
/// produce. Deliberately not an `EvalError`: this class of failure must
/// never reach the recoverable fault channel, and callers abort on it.
#[derive(Clone, Copy, Debug, PartialEq, Eq, Structural)]
pub enum FatalError {
    /// Selection found no candidate for an obligation.
    SelectionFailed,
    /// An inference variable or region was still unresolved after
    /// fulfillment.
    UnresolvedInference,
}

/// An inference session: one binding slot per inference variable, torn
/// down when the resolution call returns.
pub struct InferCtxt {
    pub bindings: Vec<Option<u64>>,
}

/// The fresh bindings of a new inference session.
pub open spec fn init_bindings(n: nat) -> Seq<Option<u64>> {
    Seq::new(n, |i: int| None)
}

impl InferCtxt {
    /// Opens a fresh session with `n` unbound variables.
    pub fn new(n: usize) -> (r: InferCtxt)
        ensures
            r.bindings@ == init_bindings(n as nat),
    {
        let mut bindings: Vec<Option<u64>> = Vec::new();
        let mut k: usize = 0;
        while k < n
            invariant
                k <= n,
                bindings@ == init_bindings(k as nat),
            decreases n - k,
        {
            bindings.push(None);
            k = k + 1;
            proof {
                assert(bindings@ =~= init_bindings(k as nat));
            }
        }
        InferCtxt { bindings }
    }
}

/// A type argument under a session's bindings: a bound inference variable
/// reads as its binding, anything else as itself.
pub open spec fn resolve_arg(b: Seq<Option<u64>>, a: TyArg) -> TyArg {
    match a {
        TyArg::Ty(t) => TyArg::Ty(t),
        TyArg::Infer(v) => if v < b.len() && b[v as int] is Some {
            TyArg::Ty(b[v as int]->0)
        } else {
            TyArg::Infer(v)
        },
    }
}

/// Whether a candidate answers an obligation under the bindings: same
/// trait, same arity, and every argument that resolves to a concrete type
/// agrees with the candidate's.
pub open spec fn entry_matches(
    b: Seq<Option<u64>>,
    e: ImplEntry,
    trait_id: u64,
    args: Seq<TyArg>,
) -> bool {
    &&& e.trait_id == trait_id
    &&& e.args@.len() == args.len()
    &&& forall|k: int|
        0 <= k < args.len() ==> match resolve_arg(b, #[trigger] args[k]) {
            TyArg::Ty(t) => t == e.args@[k],
            TyArg::Infer(_) => true,
        }
}

/// The first matching candidate at or after index `i`.
pub open spec fn select_from(
    impls: Seq<ImplEntry>,
    b: Seq<Option<u64>>,
    trait_id: u64,
    args: Seq<TyArg>,
    i: int,
) -> Option<int>
    decreases impls.len() - i,
{
    if i < 0 || i >= impls.len() {
        None
    } else if entry_matches(b, impls[i], trait_id, args) {
        Some(i)
    } else {
        select_from(impls, b, trait_id, args, i + 1)
    }
}

/// Selection: the first matching candidate of the table.
pub open spec fn spec_select(
    impls: Seq<ImplEntry>,
    b: Seq<Option<u64>>,
    trait_id: u64,
    args: Seq<TyArg>,
) -> Option<int> {
    select_from(impls, b, trait_id, args, 0)
}

proof fn lemma_select_matches(
    impls: Seq<ImplEntry>,
    b: Seq<Option<u64>>,
    trait_id: u64,
    args: Seq<TyArg>,
    i0: int,
    i: int,
)
    requires
        select_from(impls, b, trait_id, args, i0) == Some(i),
    ensures
        i0 <= i < impls.len(),
        entry_matches(b, impls[i], trait_id, args),
    decreases impls.len() - i0,
{
    if i0 < 0 || i0 >= impls.len() {
    } else if entry_matches(b, impls[i0], trait_id, args) {
    } else {
        lemma_select_matches(impls, b, trait_id, args, i0 + 1, i);
    }
}

/// Unification of the first `k` obligation arguments against the
/// candidate's concrete arguments: every unbound inference variable among
/// them becomes bound to the candidate's type at that position.
pub open spec fn unify_prefix(
    b: Seq<Option<u64>>,
    oargs: Seq<TyArg>,
    eargs: Seq<u64>,
    k: int,
) -> Seq<Option<u64>>
    decreases k,
{
    if k <= 0 {
        b
    } else {
        let b1 = unify_prefix(b, oargs, eargs, k - 1);
        match oargs[k - 1] {
            TyArg::Infer(v) => if v < b1.len() && b1[v as int] is None {
                b1.update(v as int, Some(eargs[k - 1]))
            } else {
                b1
            },
            TyArg::Ty(_) => b1,
        }
    }
}

/// Unification of a whole obligation against a candidate.
pub open spec fn spec_unify(b: Seq<Option<u64>>, oargs: Seq<TyArg>, eargs: Seq<u64>) -> Seq<
    Option<u64>,
> {
    unify_prefix(b, oargs, eargs, oargs.len() as int)
}

/// Draining the first `k` registered obligations: each in turn is
/// selected under the accumulated bindings and unified; a selection
/// failure fails the whole drain.
pub open spec fn drain_prefix(
    impls: Seq<ImplEntry>,
    b: Seq<Option<u64>>,
    obs: Seq<TraitRef>,
    k: int,
) -> Option<Seq<Option<u64>>>
    decreases k,
{
    if k <= 0 {
        Some(b)
    } else {
        match drain_prefix(impls, b, obs, k - 1) {
            None => None,
            Some(b1) => match select_from(impls, b1, obs[k - 1].trait_id, obs[k - 1].args@, 0) {
                None => None,
                Some(i) => Some(spec_unify(b1, obs[k - 1].args@, impls[i].args@)),
            },
        }
    }
}

/// Draining all registered obligations to completion.
pub open spec fn spec_drain(
    impls: Seq<ImplEntry>,
    b: Seq<Option<u64>>,
    obs: Seq<TraitRef>,
) -> Option<Seq<Option<u64>>> {
    drain_prefix(impls, b, obs, obs.len() as int)
}

proof fn lemma_drain_extends_none(
    impls: Seq<ImplEntry>,
    b: Seq<Option<u64>>,
    obs: Seq<TraitRef>,
    k1: int,
    k2: int,
)
    requires
        k1 <= k2,
        drain_prefix(impls, b, obs, k1) is None,
    ensures
        drain_prefix(impls, b, obs, k2) is None,
    decreases k2 - k1,
{
    if k2 > k1 {
        lemma_drain_extends_none(impls, b, obs, k1, k2 - 1);
    }
}

/// Resolving the first `k` arguments of a result pattern against the
/// final bindings: every argument must come out concrete.
pub open spec fn resolve_prefix(b: Seq<Option<u64>>, pat: Seq<TyArg>, k: int) -> Option<Seq<u64>>
    decreases k,
{
    if k <= 0 {
        Some(Seq::empty())
    } else {
        match resolve_prefix(b, pat, k - 1) {
            None => None,
            Some(s) => match resolve_arg(b, pat[k - 1]) {
                TyArg::Ty(t) => Some(s.push(t)),
                TyArg::Infer(_) => None,
            },
        }
    }
}

/// Resolving a whole result pattern; fails if any inference variable is
/// left.
pub open spec fn spec_resolve_args(b: Seq<Option<u64>>, pat: Seq<TyArg>) -> Option<Seq<u64>> {
    resolve_prefix(b, pat, pat.len() as int)
}

proof fn lemma_resolve_extends_none(b: Seq<Option<u64>>, pat: Seq<TyArg>, k1: int, k2: int)
    requires
        k1 <= k2,
        resolve_prefix(b, pat, k1) is None,
    ensures
        resolve_prefix(b, pat, k2) is None,
    decreases k2 - k1,
{
    if k2 > k1 {
        lemma_resolve_extends_none(b, pat, k1, k2 - 1);
    }
}

/// The whole resolution of one trait obligation: open a fresh session,
/// select, unify, drain the candidate's nested obligations, then resolve
/// the candidate's result pattern and lift it out. Either a fully
/// concrete dispatch resolution or the exact internal-invariant violation
/// that stopped it.
pub open spec fn spec_fulfill(tcx: TyCtxt, trait_id: u64, args: Seq<TyArg>) -> Result<
    VtableModel,
    FatalError,
> {
    let b0 = init_bindings(tcx.n_infer_vars as nat);
    match spec_select(tcx.impls@, b0, trait_id, args) {
        None => Err(FatalError::SelectionFailed),
        Some(i) => {
            let e = tcx.impls@[i];
            let b1 = spec_unify(b0, args, e.args@);
            match spec_drain(tcx.impls@, b1, e.nested@) {
                None => Err(FatalError::SelectionFailed),
                Some(b2) => match e.kind {
                    CandidateKind::Impl { impl_def_id, substs } => match spec_resolve_args(
                        b2,
                        substs@,
                    ) {
                        None => Err(FatalError::UnresolvedInference),
                        Some(s) => Ok(VtableModel::Impl { impl_def_id, substs: s }),
                    },
                    CandidateKind::Builtin => Ok(VtableModel::Builtin),
                    CandidateKind::Param => Ok(VtableModel::Param),
                },
            }
        },
    }
}

/// Whether a candidate answers the obligation under the bindings.
fn matches_entry(b: &Vec<Option<u64>>, e: &ImplEntry, trait_id: u64, args: &Vec<TyArg>) -> (r:
    bool)
    ensures
        r == entry_matches(b@, *e, trait_id, args@),
{
    if e.trait_id != trait_id {
        return false;
    }
    if e.args.len() != args.len() {
        return false;
    }
    let mut k: usize = 0;
    while k < args.len()
        invariant
            k <= args.len(),
            e.trait_id == trait_id,
            e.args@.len() == args@.len(),
            forall|j: int|
                0 <= j < k ==> match resolve_arg(b@, #[trigger] args@[j]) {
                    TyArg::Ty(t) => t == e.args@[j],
                    TyArg::Infer(_) => true,
                },
        decreases args.len() - k,
    {
        match args[k] {
            TyArg::Ty(t) => {
                if t != e.args[k] {
                    return false;
                }
            },
            TyArg::Infer(v) => {
                if v < b.len() {
                    match b[v] {
                        Some(t) => {
                            if t != e.args[k] {
                                return false;
                            }
                        },
                        None => {},
                    }
                }
            },
        }
        k = k + 1;
    }
    true
}

/// Selection: the first candidate of the table answering the obligation.
fn select_candidate(tcx: &TyCtxt, b: &Vec<Option<u64>>, trait_id: u64, args: &Vec<TyArg>) -> (r:
    Option<usize>)
    ensures
        match r {
            Some(i) => i < tcx.impls@.len() && spec_select(tcx.impls@, b@, trait_id, args@)
                == Some(i as int),
            None => spec_select(tcx.impls@, b@, trait_id, args@) is None,
        },
{
    let mut i: usize = 0;
    while i < tcx.impls.len()
        invariant
            i <= tcx.impls.len(),
            select_from(tcx.impls@, b@, trait_id, args@, 0) == select_from(
                tcx.impls@,
                b@,
                trait_id,
                args@,
                i as int,
            ),
        decreases tcx.impls.len() - i,
    {
        if matches_entry(b, &tcx.impls[i], trait_id, args) {
            return Some(i);
        }
        i = i + 1;
    }
    None
}

/// Unifies an obligation's arguments into the session's bindings against
/// a selected candidate's concrete arguments.
fn unify(b: &mut Vec<Option<u64>>, args: &Vec<TyArg>, eargs: &Vec<u64>)
    requires
        args@.len() == eargs@.len(),
    ensures
        final(b)@ == spec_unify(old(b)@, args@, eargs@),
{
    let mut k: usize = 0;
    while k < args.len()
        invariant
            k <= args.len(),
            args@.len() == eargs@.len(),
            b@ == unify_prefix(old(b)@, args@, eargs@, k as int),
        decreases args.len() - k,
    {
        match args[k] {
            TyArg::Infer(v) => {
                if v < b.len() {
                    let bound = b[v];
                    if bound.is_none() {
                        b.set(v, Some(eargs[k]));
                    }
                }
            },
            TyArg::Ty(_) => {},
        }
        k = k + 1;
    }
}

/// Drains every registered obligation: selection plus unification for
/// each, in registration order; a selection failure is fatal.
fn drain_select_all(tcx: &TyCtxt, b: &mut Vec<Option<u64>>, obligations: &Vec<TraitRef>) -> (r:
    Result<(), FatalError>)
    ensures
        match spec_drain(tcx.impls@, old(b)@, obligations@) {
            Some(b2) => r is Ok && final(b)@ == b2,
            None => r == Err::<(), FatalError>(FatalError::SelectionFailed),
        },
{
    let mut k: usize = 0;
    while k < obligations.len()
        invariant
            k <= obligations.len(),
            drain_prefix(tcx.impls@, old(b)@, obligations@, k as int) == Some(b@),
        decreases obligations.len() - k,
    {
        let ob = &obligations[k];
        match select_candidate(tcx, b, ob.trait_id, &ob.args) {
            None => {
                proof {
                    lemma_drain_extends_none(
                        tcx.impls@,
                        old(b)@,
                        obligations@,
                        k as int + 1,
                        obligations@.len() as int,
                    );
                }
                return Err(FatalError::SelectionFailed);
            },
            Some(i) => {
                let entry = &tcx.impls[i];
                proof {
                    lemma_select_matches(
                        tcx.impls@,
                        b@,
                        ob.trait_id,
                        ob.args@,
                        0,
                        i as int,
                    );
                }
                unify(b, &ob.args, &entry.args);
            },
        }
        k = k + 1;
    }
    Ok(())
}

/// Drains the fulfillment worklist to completion, then resolves every
/// inference variable of `result` against the session's accumulated
/// knowledge and lifts the concrete substitution out. A selection failure
/// or a residual inference variable is an internal-invariant violation.
fn drain_fulfillment_cx_or_fatal(
    tcx: &TyCtxt,
    infcx: &mut InferCtxt,
    obligations: &Vec<TraitRef>,
    result: &Vec<TyArg>,
) -> (r: Result<Vec<u64>, FatalError>)
    ensures
        match spec_drain(tcx.impls@, old(infcx).bindings@, obligations@) {
            None => r == Err::<Vec<u64>, FatalError>(FatalError::SelectionFailed),
            Some(b2) => final(infcx).bindings@ == b2 && match spec_resolve_args(b2, result@) {
                None => r == Err::<Vec<u64>, FatalError>(FatalError::UnresolvedInference),
                Some(s) => r matches Ok(v) && v@ == s,
            },
        },
{
    match drain_select_all(tcx, &mut infcx.bindings, obligations) {
        Err(f) => {
            return Err(f);
        },
        Ok(()) => {},
    }
    let mut out: Vec<u64> = Vec::new();
    let mut k: usize = 0;
    while k < result.len()
        invariant
            k <= result.len(),
            resolve_prefix(infcx.bindings@, result@, k as int) == Some(out@),
            spec_drain(tcx.impls@, old(infcx).bindings@, obligations@) == Some(infcx.bindings@),
        decreases result.len() - k,
    {
        match result[k] {
            TyArg::Ty(t) => {
                out.push(t);
            },
            TyArg::Infer(v) => {
                let mut resolved: Option<u64> = None;
                if v < infcx.bindings.len() {
                    resolved = infcx.bindings[v];
                }
                match resolved {
                    Some(t) => {
                        out.push(t);
                    },
                    None => {
                        proof {
                            lemma_resolve_extends_none(
                                infcx.bindings@,
                                result@,
                                k as int + 1,
                                result@.len() as int,
                            );
                        }
                        return Err(FatalError::UnresolvedInference);
                    },
                }
            },
        }
        k = k + 1;
    }
    Ok(out)
}

/// The abstract machine's evaluation context: the simulated memory and
/// the host type system's tables.
pub struct EvalContext {
    pub memory: Memory,
    pub tcx: TyCtxt,
}

impl EvalContext {
    /// Resolves one trait obligation to its concrete dispatch: initial
    /// selection for the obligation, then a fulfillment pass over the
    /// candidate's nested obligations (they can inform the inference of
    /// the candidate's type parameters), then resolution and lifting of
    /// the candidate's substitution. Any failure is an internal-invariant
    /// violation reported on the fatal channel, never a recoverable
    /// fault.
    pub fn fulfill_obligation(&self, trait_ref: &TraitRef) -> (r: Result<Vtable, FatalError>)
        ensures
            match spec_fulfill(self.tcx, trait_ref.trait_id, trait_ref.args@) {
                Ok(m) => r matches Ok(v) && v@ == m,
                Err(f) => r == Err::<Vtable, FatalError>(f),
            },
    {
        let mut infcx = InferCtxt::new(self.tcx.n_infer_vars);
        match select_candidate(&self.tcx, &infcx.bindings, trait_ref.trait_id, &trait_ref.args) {
            None => Err(FatalError::SelectionFailed),
            Some(i) => {
                let entry = &self.tcx.impls[i];
                proof {
                    lemma_select_matches(
                        self.tcx.impls@,
                        infcx.bindings@,
                        trait_ref.trait_id,
                        trait_ref.args@,
                        0,
                        i as int,
                    );
                }
                unify(&mut infcx.bindings, &trait_ref.args, &entry.args);
                match &entry.kind {
                    CandidateKind::Impl { impl_def_id, substs } => {
                        match drain_fulfillment_cx_or_fatal(
                            &self.tcx,
                            &mut infcx,
                            &entry.nested,
                            substs,
                        ) {
                            Err(f) => Err(f),
                            Ok(s) => Ok(Vtable::Impl { impl_def_id: *impl_def_id, substs: s }),
                        }
                    },
                    CandidateKind::Builtin => {
                        let empty: Vec<TyArg> = Vec::new();
                        match drain_fulfillment_cx_or_fatal(
                            &self.tcx,
                            &mut infcx,
                            &entry.nested,
                            &empty,
                        ) {
                            Err(f) => Err(f),
                            Ok(_) => Ok(Vtable::Builtin),
                        }
                    },
                    CandidateKind::Param => {
                        let empty: Vec<TyArg> = Vec::new();
                        match drain_fulfillment_cx_or_fatal(
                            &self.tcx,
                            &mut infcx,
                            &entry.nested,
                            &empty,
                        ) {
                            Err(f) => Err(f),
                            Ok(_) => Ok(Vtable::Param),
                        }
                    },
                }
            },
        }
    }
}

/// The trait-reference arguments standing for a concrete substitution.
pub open spec fn args_of(substs: Seq<u64>) -> Seq<TyArg> {
    substs.map_values(|t: u64| TyArg::Ty(t))
}

/// Whether resolving an associated item of `def_id` at `substs` stays off
/// the fatal channel: either no trait owns the item, or its obligation
/// fulfills.
pub open spec fn assoc_resolvable(tcx: TyCtxt, def_id: u64, substs: Seq<u64>) -> bool {
    match spec_lookup(tcx.trait_owners@, def_id) {
        None => true,
        Some(tid) => spec_fulfill(tcx, tid, args_of(substs)) is Ok,
    }
}

/// The instance an associated-item reference resolves to: the matching
/// item of the selected implementation at the implementation's
/// substitution, or the original (definition, substitution) pair
/// unchanged when no trait owns the item, the dispatch is not a concrete
/// implementation, or the implementation has no matching item.
pub open spec fn spec_resolve_assoc(
    tcx: TyCtxt,
    def_id: u64,
    substs: Seq<u64>,
    kind: AssocKind,
) -> (u64, Seq<u64>) {
    match spec_lookup(tcx.trait_owners@, def_id) {
        None => (def_id, substs),
        Some(tid) => match spec_fulfill(tcx, tid, args_of(substs)) {
            Ok(m) => match m {
                VtableModel::Impl { impl_def_id, substs: isubsts } => match spec_lookup(
                    tcx.item_names@,
                    def_id,
                ) {
                    None => (def_id, substs),
                    Some(name) => match spec_find_assoc(tcx.assoc_items@, impl_def_id, name, kind) {
                        Some(item) => (item.def_id, isubsts),
                        None => (def_id, substs),
                    },
                },
                _ => (def_id, substs),
            },
            Err(_) => (def_id, substs),
        },
    }
}

/// Builds the trait-reference arguments for a concrete substitution.
fn args_vec(substs: &Vec<u64>) -> (r: Vec<TyArg>)
    ensures
        r@ == args_of(substs@),
{
    let mut r: Vec<TyArg> = Vec::new();
    let mut i: usize = 0;
    while i < substs.len()
        invariant
            i <= substs.len(),
            r@.len() == i,
            forall|j: int| 0 <= j < i ==> r@[j] == TyArg::Ty(substs@[j]),
        decreases substs.len() - i,
    {
        r.push(TyArg::Ty(substs[i]));
        i = i + 1;
    }
    proof {
        assert(r@ =~= args_of(substs@));
    }
    r
}

impl EvalContext {
    /// Resolves an associated-item reference of the given kind through
    /// the obligation resolver.
    fn resolve_assoc_item(&self, def_id: u64, substs: Vec<u64>, kind: AssocKind) -> (r: Instance)
        requires
            assoc_resolvable(self.tcx, def_id, substs@),
        ensures
            r.def_id == spec_resolve_assoc(self.tcx, def_id, substs@, kind).0,
            r.substs@ == spec_resolve_assoc(self.tcx, def_id, substs@, kind).1,
    {
        match self.tcx.trait_of_item(def_id) {
            None => Instance::new(def_id, substs),
            Some(tid) => {
                let args = args_vec(&substs);
                let trait_ref = TraitRef::new(tid, args);
                match self.fulfill_obligation(&trait_ref) {
                    Err(_) => {
                        proof {
                            assert(false);
                        }
                        Instance::new(def_id, substs)
                    },
                    Ok(vtable) => match vtable {
                        Vtable::Impl { impl_def_id, substs: isubsts } => {
                            match self.tcx.item_name(def_id) {
                                None => Instance::new(def_id, substs),
                                Some(name) => {
                                    match self.tcx.find_assoc_item(impl_def_id, name, kind) {
                                        Some(item) => Instance::new(item.def_id, isubsts),
                                        None => Instance::new(def_id, substs),
                                    }
                                },
                            }
                        },
                        _ => Instance::new(def_id, substs),
                    },
                }
            },
        }
    }

    /// Queries the size of a type: `None` for an unsized type, a layout
    /// fault if the host could not compute a layout.
    pub fn type_size(&self, t: u64) -> (r: EvalResult<Option<u64>>)
        ensures
            match spec_layout_of(self.tcx, t) {
                TyLayout::Sized { size, align } => r == Ok::<Option<u64>, EvalError>(Some(size)),
                TyLayout::Unsized => r == Ok::<Option<u64>, EvalError>(None),
                TyLayout::Failed(err) => r == Err::<Option<u64>, EvalError>(EvalError::Layout(err)),
            },
    {
        match self.tcx.layout_of(t) {
            TyLayout::Sized { size, align: _ } => Ok(Some(size)),
            TyLayout::Unsized => Ok(None),
            TyLayout::Failed(err) => Err(EvalError::Layout(err)),
        }
    }

    /// Queries the alignment of a type; a layout fault if the host could
    /// not compute one.
    pub fn type_align(&self, t: u64) -> (r: EvalResult<Option<u64>>)
        ensures
            match spec_layout_of(self.tcx, t) {
                TyLayout::Sized { size, align } => r == Ok::<Option<u64>, EvalError>(Some(align)),
                TyLayout::Unsized => r == Ok::<Option<u64>, EvalError>(None),
                TyLayout::Failed(err) => r == Err::<Option<u64>, EvalError>(EvalError::Layout(err)),
            },
    {
        match self.tcx.layout_of(t) {
            TyLayout::Sized { size: _, align } => Ok(Some(align)),
            TyLayout::Unsized => Ok(None),
            TyLayout::Failed(err) => Err(EvalError::Layout(err)),
        }
    }

    /// Resolves an associated-constant reference: if a trait owns the
    /// item, the resolver finds the implementing type and the constant of
    /// the same name among its associated items; otherwise, or when no
    /// matching item exists, the original (definition, substitution) pair
    /// is returned unchanged — never a fault.
    pub fn resolve_associated_const(&self, def_id: u64, substs: Vec<u64>) -> (r: Instance)
        requires
            assoc_resolvable(self.tcx, def_id, substs@),
        ensures
            r.def_id == spec_resolve_assoc(self.tcx, def_id, substs@, AssocKind::Const).0,
            r.substs@ == spec_resolve_assoc(self.tcx, def_id, substs@, AssocKind::Const).1,
            spec_lookup(self.tcx.trait_owners@, def_id) is None ==> r.def_id == def_id
                && r.substs@ == substs@,
    {
        self.resolve_assoc_item(def_id, substs, AssocKind::Const)
    }
}

/// The pointer to slot `k` of a dispatch table rooted at `vt`.
pub open spec fn slot_ptr(vt: MemoryPointer, ps: u64, k: int) -> MemoryPointer {
    MemoryPointer { alloc_id: vt.alloc_id, offset: PointerOffset::Concrete((k * ps) as u64) }
}

/// The word at store index `idx` is a pointer into the function table
/// resolving to the given instance.
pub open spec fn fn_slot_points_to(m: Memory, idx: int, def_id: u64, substs: Seq<u64>) -> bool {
    match m.store@[idx] {
        Word::Ptr(p) => {
            &&& p.offset == PointerOffset::Concrete(0)
            &&& p.alloc_id < m.allocs@.len()
            &&& match m.allocs@[p.alloc_id as int].state {
                AllocState::Func { fn_index } => {
                    &&& fn_index < m.fn_table@.len()
                    &&& m.fn_table@[fn_index as int].def_id == def_id
                    &&& m.fn_table@[fn_index as int].substs@ == substs
                },
                _ => false,
            }
        },
        _ => false,
    }
}

/// Whether every dispatchable method of the pair resolves without an
/// internal-invariant violation.
pub open spec fn methods_resolvable(tcx: TyCtxt, trait_id: u64, self_ty: u64) -> bool {
    forall|k: int|
        0 <= k < spec_methods_of(tcx, trait_id, self_ty).len() ==> match #[trigger] spec_methods_of(
            tcx,
            trait_id,
            self_ty,
        )[k] {
            Some(m) => assoc_resolvable(tcx, m.def_id, m.substs@),
            None => true,
        }
}

/// A fully synthesized dispatch table: a fresh immutable allocation of
/// exactly `pointer_size * (3 + method count)` bytes whose slot 0 holds
/// the destructor pointer (or a null word), slot 1 the size, slot 2 the
/// alignment, and slot `3 + k` the resolved pointer of method `k` (or an
/// unwritten word for a method with no callable target); everything that
/// existed before is untouched.
pub open spec fn vtable_installed(
    pre: Memory,
    post: Memory,
    tcx: TyCtxt,
    ty: u64,
    trait_id: u64,
    self_ty: u64,
    size: u64,
    align: u64,
    vt: MemoryPointer,
) -> bool {
    let ps = pre.pointer_size;
    let methods = spec_methods_of(tcx, trait_id, self_ty);
    let n = methods.len() as int;
    let base = post.allocs@[vt.alloc_id as int].base as int;
    &&& vt.alloc_id == pre.allocs@.len()
    &&& vt.offset == PointerOffset::Concrete(0)
    &&& post.pointer_size == ps
    &&& post.memory_size == pre.memory_size
    &&& post.memory_usage as int == pre.memory_usage + (3 + n) * (ps as int)
    &&& vt.alloc_id < post.allocs@.len()
    &&& post.allocs@[vt.alloc_id as int].state == (AllocState::Live { immutable: true })
    &&& post.allocs@[vt.alloc_id as int].size_bytes as int == (3 + n) * (ps as int)
    &&& post.allocs@[vt.alloc_id as int].align == ps
    &&& base == pre.store@.len()
    &&& forall|i: int| 0 <= i < pre.allocs@.len() ==> post.allocs@[i] == pre.allocs@[i]
    &&& forall|j: int| 0 <= j < pre.store@.len() ==> post.store@[j] == pre.store@[j]
    &&& forall|j: int| 0 <= j < pre.fn_table@.len() ==> post.fn_table@[j] == pre.fn_table@[j]
    &&& base + 3 + n <= post.store@.len()
    &&& (match spec_lookup(tcx.destructors@, ty) {
        None => post.store@[base] == Word::Bytes(0),
        Some(d) => fn_slot_points_to(post, base, d.def_id, d.substs@),
    })
    &&& post.store@[base + 1] == Word::Bytes(size)
    &&& post.store@[base + 2] == Word::Bytes(align)
    &&& forall|k: int|
        0 <= k < n ==> (match #[trigger] methods[k] {
            None => post.store@[base + 3 + k] == Word::Undef,
            Some(mr) => fn_slot_points_to(
                post,
                base + 3 + k,
                spec_resolve_assoc(tcx, mr.def_id, mr.substs@, AssocKind::Method).0,
                spec_resolve_assoc(tcx, mr.def_id, mr.substs@, AssocKind::Method).1,
            ),
        })
}

/// A word-aligned slot access inside a dispatch-table-shaped allocation
/// is fault-free (for writing, while it is still mutable) and lands on
/// the word `base + k`.
proof fn lemma_slot_access(m: Memory, vt: MemoryPointer, k: int, slots: int, for_write: bool)
    requires
        m.wf(),
        vt.alloc_id < m.allocs@.len(),
        m.allocs@[vt.alloc_id as int].state is Live,
        for_write ==> m.allocs@[vt.alloc_id as int].state == (AllocState::Live {
            immutable: false,
        }),
        m.allocs@[vt.alloc_id as int].size_bytes as int == slots * (m.pointer_size as int),
        0 <= k < slots,
    ensures
        access_fault(m, slot_ptr(vt, m.pointer_size, k), for_write) is None,
        crate::memory::word_index(m, slot_ptr(vt, m.pointer_size, k)) == m.allocs@[vt.alloc_id
            as int].base + k,
        (k * m.pointer_size as int) <= u64::MAX,
        m.allocs@[vt.alloc_id as int].base + k < m.store@.len(),
{
    let ps = m.pointer_size as int;
    if m.pointer_size == 0 {
        assert(!crate::memory::is_pow2(0nat));
    }
    let o = k * ps;
    lemma_mul_inequality(k, slots, ps);
    lemma_mul_inequality(k + 1, slots, ps);
    assert((k + 1) * ps == k * ps + ps) by (nonlinear_arith);
    assert(o + ps <= slots * ps);
    assert(o <= u64::MAX);
    lemma_mod_multiples_basic(k, ps);
    lemma_div_by_multiple(k, ps);
    assert(access_fault(m, slot_ptr(vt, m.pointer_size, k), for_write) is None);
    let a = m.allocs@[vt.alloc_id as int];
    assert(crate::memory::meta_wf(a, m.pointer_size, m.store@.len(), m.fn_table@.len()));
    assert((a.word_count as int) * ps >= slots * ps);
    lemma_mul_inequality_rev(a.word_count as int, slots, ps);
    assert(m.allocs@[vt.alloc_id as int].base + k < m.store@.len());
}

/// Multiplication by a positive factor reflects order.
proof fn lemma_mul_inequality_rev(x: int, y: int, z: int)
    requires
        x * z >= y * z,
        z >= 1,
    ensures
        x >= y,
{
    if x < y {
        lemma_mul_strict_inequality(x, y, z);
    }
}

impl EvalContext {
    /// Synthesizes the dispatch table for a concrete type and the trait
    /// reference describing the dynamic interface over it: queries the
    /// self type's size and alignment, allocates
    /// `pointer_size * (3 + method count)` bytes in the simulated heap,
    /// writes the destructor pointer (or a null word), the size and the
    /// alignment, resolves each dispatchable method through the
    /// obligation resolver and writes its function pointer in declaration
    /// order, then marks the whole region immutable. Faults exactly when
    /// layout fails, the type is unsized, or the heap budget is
    /// exhausted.
    pub fn get_vtable(&mut self, ty: u64, trait_ref: &TraitRef) -> (r: EvalResult<MemoryPointer>)
        requires
            old(self).memory.wf(),
            trait_ref.args@.len() >= 1,
            trait_ref.args@[0] is Ty,
            methods_resolvable(old(self).tcx, trait_ref.trait_id, trait_ref.args@[0]->Ty_0),
            (3 + spec_methods_of(
                old(self).tcx,
                trait_ref.trait_id,
                trait_ref.args@[0]->Ty_0,
            ).len()) * (old(self).memory.pointer_size as int) < usize::MAX as int,
        ensures
            final(self).memory.wf(),
            final(self).tcx == old(self).tcx,
            ({
                let self_ty = trait_ref.args@[0]->Ty_0;
                let ps = old(self).memory.pointer_size as int;
                let n = spec_methods_of(old(self).tcx, trait_ref.trait_id, self_ty).len() as int;
                match spec_layout_of(old(self).tcx, self_ty) {
                    TyLayout::Failed(err) => r == Err::<MemoryPointer, EvalError>(
                        EvalError::Layout(err),
                    ) && same_memory(old(self).memory, final(self).memory),
                    TyLayout::Unsized => r == Err::<MemoryPointer, EvalError>(
                        EvalError::Layout(LayoutError::Unknown(Ty(self_ty))),
                    ) && same_memory(old(self).memory, final(self).memory),
                    TyLayout::Sized { size, align } => {
                        if old(self).memory.memory_usage + (3 + n) * ps > old(
                            self,
                        ).memory.memory_size {
                            r == Err::<MemoryPointer, EvalError>(
                                EvalError::OutOfMemory {
                                    allocation_size: ((3 + n) * ps) as u64,
                                    memory_size: old(self).memory.memory_size,
                                    memory_usage: old(self).memory.memory_usage,
                                },
                            ) && same_memory(old(self).memory, final(self).memory)
                        } else {
                            r matches Ok(vt) && vtable_installed(
                                old(self).memory,
                                final(self).memory,
                                old(self).tcx,
                                ty,
                                trait_ref.trait_id,
                                self_ty,
                                size,
                                align,
                                vt,
                            )
                        }
                    },
                }
            }),
    {
        let self_ty = match trait_ref.args[0] {
            TyArg::Ty(t) => t,
            TyArg::Infer(_) => {
                proof {
                    assert(false);
                }
                0
            },
        };
        let (size, align) = match self.tcx.layout_of(self_ty) {
            TyLayout::Failed(err) => {
                return Err(EvalError::Layout(err));
            },
            TyLayout::Unsized => {
                return Err(EvalError::Layout(LayoutError::Unknown(Ty(self_ty))));
            },
            TyLayout::Sized { size, align } => (size, align),
        };
        let ps = self.memory.pointer_size();
        proof {
            if ps == 0 {
                assert(!crate::memory::is_pow2(0nat));
            }
        }
        let n: usize = match self.tcx.vtable_methods(trait_ref.trait_id, self_ty) {
            Some(v) => v.len(),
            None => 0,
        };
        proof {
            lemma_mul_inequality(1, ps as int, 3 + n as int);
            assert((3 + n as int) * 1 == 3 + n as int) by (nonlinear_arith);
            assert((3 + n as int) * (ps as int) == (ps as int) * (3 + n as int)) by (nonlinear_arith);
        }
        let slots: u64 = 3 + n as u64;
        let bytes: u64 = slots * ps;
        let vt = match self.memory.allocate(bytes, ps) {
            Err(e) => {
                return Err(e);
            },
            Ok(vt) => vt,
        };
        let ghost m1 = self.memory;
        let ghost base = self.memory.allocs@.last().base as int;
        proof {
            assert(self.memory.allocs@[vt.alloc_id as int] == self.memory.allocs@.last());
            let wc = self.memory.allocs@[vt.alloc_id as int].word_count as int;
            lemma_mul_inequality_rev(wc, slots as int, ps as int);
            assert(self.memory.store@.len() == base + wc);
            assert(base + slots <= self.memory.store@.len());
            assert forall|k: int| 0 <= k < slots implies #[trigger] self.memory.store@[base + k]
                == Word::Undef by {
                assert(self.memory.store@[base + k] == Seq::new(
                    wc as nat,
                    |j: int| Word::Undef,
                )[k]);
            }
        }
        // slot 0: the destructor pointer, or a null word for a type
        // without a destructor
        let drop_inst: Option<Instance> = match self.tcx.destructor(ty) {
            Some(d) => Some(d.duplicate()),
            None => None,
        };
        match drop_inst {
            Some(d) => {
                let ghost ddef = d.def_id;
                let ghost dsubsts = d.substs@;
                let fp = self.memory.create_fn_alloc(d);
                proof {
                    lemma_slot_access(self.memory, vt, 0, slots as int, true);
                }
                match self.memory.write_ptr(vt, fp) {
                    Ok(()) => {},
                    Err(e) => {
                        proof {
                            assert(false);
                        }
                        return Err(e);
                    },
                }
                proof {
                    assert(self.memory.store@[base] == Word::Ptr(fp));
                    assert(fn_slot_points_to(self.memory, base, ddef, dsubsts));
                }
            },
            None => {
                proof {
                    lemma_slot_access(self.memory, vt, 0, slots as int, true);
                }
                match self.memory.write_usize(vt, 0) {
                    Ok(()) => {},
                    Err(e) => {
                        proof {
                            assert(false);
                        }
                        return Err(e);
                    },
                }
                proof {
                    assert(self.memory.store@[base] == Word::Bytes(0));
                }
            },
        }
        // slots 1 and 2: size and alignment of the concrete type
        proof {
            lemma_slot_access(self.memory, vt, 1, slots as int, true);
        }
        let s1 = match vt.offset_by(ps) {
            Ok(p) => p,
            Err(e) => {
                proof {
                    assert(false);
                }
                return Err(e);
            },
        };
        match self.memory.write_usize(s1, size) {
            Ok(()) => {},
            Err(e) => {
                proof {
                    assert(false);
                }
                return Err(e);
            },
        }
        proof {
            lemma_slot_access(self.memory, vt, 2, slots as int, true);
        }
        let s2 = match vt.offset_by(ps * 2) {
            Ok(p) => p,
            Err(e) => {
                proof {
                    assert(false);
                }
                return Err(e);
            },
        };
        match self.memory.write_usize(s2, align) {
            Ok(()) => {},
            Err(e) => {
                proof {
                    assert(false);
                }
                return Err(e);
            },
        }
        // slots 3 onwards: one resolved function pointer per dispatchable
        // method, in declaration order; a method with no callable target
        // leaves its slot unwritten
        let mut i: usize = 0;
        while i < n
            invariant
                old(self).memory.wf(),
                trait_ref.args@.len() >= 1,
                trait_ref.args@[0] is Ty,
                self_ty == trait_ref.args@[0]->Ty_0,
                methods_resolvable(old(self).tcx, trait_ref.trait_id, self_ty),
                self.tcx == old(self).tcx,
                n == spec_methods_of(old(self).tcx, trait_ref.trait_id, self_ty).len(),
                ps == old(self).memory.pointer_size,
                ps >= 1,
                slots == 3 + n as int,
                bytes == slots * ps,
                bytes as int == (slots as int) * (ps as int),
                i <= n,
                self.memory.wf(),
                self.memory.pointer_size == ps,
                self.memory.memory_size == old(self).memory.memory_size,
                self.memory.memory_usage == old(self).memory.memory_usage + bytes,
                vt.alloc_id == old(self).memory.allocs@.len(),
                vt.offset == PointerOffset::Concrete(0),
                vt.alloc_id < self.memory.allocs@.len(),
                self.memory.allocs@[vt.alloc_id as int].state == (AllocState::Live {
                    immutable: false,
                }),
                self.memory.allocs@[vt.alloc_id as int].size_bytes == bytes,
                self.memory.allocs@[vt.alloc_id as int].align == ps,
                self.memory.allocs@[vt.alloc_id as int].base == base,
                base == old(self).memory.store@.len(),
                base + slots <= self.memory.store@.len(),
                self.memory.fn_table@.len() >= old(self).memory.fn_table@.len(),
                forall|j: int|
                    0 <= j < old(self).memory.allocs@.len() ==> self.memory.allocs@[j] == old(
                        self,
                    ).memory.allocs@[j],
                forall|j: int|
                    0 <= j < old(self).memory.store@.len() ==> self.memory.store@[j] == old(
                        self,
                    ).memory.store@[j],
                forall|j: int|
                    0 <= j < old(self).memory.fn_table@.len() ==> self.memory.fn_table@[j] == old(
                        self,
                    ).memory.fn_table@[j],
                (match spec_lookup(old(self).tcx.destructors@, ty) {
                    None => self.memory.store@[base] == Word::Bytes(0),
                    Some(d) => fn_slot_points_to(self.memory, base, d.def_id, d.substs@),
                }),
                self.memory.store@[base + 1] == Word::Bytes(size),
                self.memory.store@[base + 2] == Word::Bytes(align),
                forall|k: int|
                    0 <= k < i ==> (match #[trigger] spec_methods_of(
                        old(self).tcx,
                        trait_ref.trait_id,
                        self_ty,
                    )[k] {
                        None => self.memory.store@[base + 3 + k] == Word::Undef,
                        Some(mr) => fn_slot_points_to(
                            self.memory,
                            base + 3 + k,
                            spec_resolve_assoc(
                                old(self).tcx,
                                mr.def_id,
                                mr.substs@,
                                AssocKind::Method,
                            ).0,
                            spec_resolve_assoc(
                                old(self).tcx,
                                mr.def_id,
                                mr.substs@,
                                AssocKind::Method,
                            ).1,
                        ),
                    }),
                forall|k: int|
                    i <= k < n ==> #[trigger] self.memory.store@[base + 3 + k] == Word::Undef,
            decreases n - i,
        {
            let mref: Option<MethodRef> = match self.tcx.vtable_methods(trait_ref.trait_id, self_ty)
            {
                Some(v) => match &v[i] {
                    Some(m) => Some(MethodRef { def_id: m.def_id, substs: copy_substs(&m.substs) }),
                    None => None,
                },
                None => None,
            };
            let ghost mstart = self.memory;
            match mref {
                None => {},
                Some(m) => {
                    let ghost mk = spec_methods_of(old(self).tcx, trait_ref.trait_id, self_ty)[
                        i as int];
                    let ghost mdef = m.def_id;
                    let ghost msubsts = m.substs@;
                    let instance = self.resolve_assoc_item(m.def_id, m.substs, AssocKind::Method);
                    let fp = self.memory.create_fn_alloc(instance);
                    proof {
                        lemma_slot_access(self.memory, vt, 3 + i as int, slots as int, true);
                    }
                    let off: u64 = ps * (3 + i as u64);
                    proof {
                        assert((3 + i as int) * (ps as int) == (ps as int) * (3 + i as int))
                            by (nonlinear_arith);
                    }
                    let sp = match vt.offset_by(off) {
                        Ok(p) => p,
                        Err(e) => {
                            proof {
                                assert(false);
                            }
                            return Err(e);
                        },
                    };
                    match self.memory.write_ptr(sp, fp) {
                        Ok(()) => {},
                        Err(e) => {
                            proof {
                                assert(false);
                            }
                            return Err(e);
                        },
                    }
                    proof {
                        assert(self.memory.store@[base + 3 + i as int] == Word::Ptr(fp));
                        assert(fn_slot_points_to(
                            self.memory,
                            base + 3 + i as int,
                            spec_resolve_assoc(
                                old(self).tcx,
                                mdef,
                                msubsts,
                                AssocKind::Method,
                            ).0,
                            spec_resolve_assoc(
                                old(self).tcx,
                                mdef,
                                msubsts,
                                AssocKind::Method,
                            ).1,
                        ));
                        assert forall|j: int|
                            0 <= j < old(self).memory.fn_table@.len() implies
                            self.memory.fn_table@[j] == old(self).memory.fn_table@[j] by {
                            assert(self.memory.fn_table@[j] == mstart.fn_table@[j]);
                        }
                        assert forall|j: int|
                            0 <= j < old(self).memory.allocs@.len() implies self.memory.allocs@[j]
                            == old(self).memory.allocs@[j] by {
                            assert(self.memory.allocs@[j] == mstart.allocs@[j]);
                        }
                        assert forall|k: int| 0 <= k < i + 1 implies (match #[trigger] spec_methods_of(
                            old(self).tcx,
                            trait_ref.trait_id,
                            self_ty,
                        )[k] {
                            None => self.memory.store@[base + 3 + k] == Word::Undef,
                            Some(mr) => fn_slot_points_to(
                                self.memory,
                                base + 3 + k,
                                spec_resolve_assoc(
                                    old(self).tcx,
                                    mr.def_id,
                                    mr.substs@,
                                    AssocKind::Method,
                                ).0,
                                spec_resolve_assoc(
                                    old(self).tcx,
                                    mr.def_id,
                                    mr.substs@,
                                    AssocKind::Method,
                                ).1,
                            ),
                        }) by {
                            if k < i as int {
                                assert(self.memory.store@[base + 3 + k] == mstart.store@[base + 3
                                    + k]);
                            }
                        }
                    }
                },
            }
            i = i + 1;
        }
        // the table is complete: freeze it
        match self.memory.mark_static_initalized(vt.alloc_id) {
            Ok(()) => {},
            Err(e) => {
                proof {
                    assert(false);
                }
                return Err(e);
            },
        }
        Ok(vt)
    }

    /// Reads the destructor slot of a dispatch table: an all-zero word
    /// means "no destructor, do not call" (not a fault); a pointer word
    /// must resolve through the function table; anything else is the
    /// bytes-as-pointer fault.
    pub fn read_drop_type_from_vtable(&self, vtable: MemoryPointer) -> (r: EvalResult<
        Option<Instance>,
    >)
        requires
            self.memory.wf(),
        ensures
            match read_ptr_res(self.memory, vtable) {
                Err(e) => r == Err::<Option<Instance>, EvalError>(e),
                Ok(v) => match v {
                    Value::ByVal(PrimVal::Bytes(b)) => if b == 0 {
                        r == Ok::<Option<Instance>, EvalError>(None)
                    } else {
                        r == Err::<Option<Instance>, EvalError>(EvalError::ReadBytesAsPointer)
                    },
                    Value::ByVal(PrimVal::Ptr(p)) => match get_fn_fault(self.memory, p) {
                        Some(e) => r == Err::<Option<Instance>, EvalError>(e),
                        None => r matches Ok(Some(inst)) && inst.def_id == self.memory.fn_table@[
                            fn_index_of(self.memory, p)].def_id && inst.substs@
                            == self.memory.fn_table@[fn_index_of(self.memory, p)].substs@,
                    },
                    _ => r == Err::<Option<Instance>, EvalError>(EvalError::ReadBytesAsPointer),
                },
            },
    {
        let drop_fn = match self.memory.read_ptr(vtable) {
            Err(e) => {
                return Err(e);
            },
            Ok(v) => match v {
                Value::ByVal(PrimVal::Bytes(b)) => {
                    if b == 0 {
                        // some values need no drop call: the slot is null
                        return Ok(None);
                    } else {
                        return Err(EvalError::ReadBytesAsPointer);
                    }
                },
                Value::ByVal(PrimVal::Ptr(p)) => p,
                _ => {
                    return Err(EvalError::ReadBytesAsPointer);
                },
            },
        };
        match self.memory.get_fn(drop_fn) {
            Err(e) => Err(e),
            Ok(inst) => Ok(Some(inst)),
        }
    }

    /// Reads the size and alignment slots of a dispatch table as a
    /// (size, alignment) pair.
    pub fn read_size_and_align_from_vtable(&self, vtable: MemoryPointer) -> (r: EvalResult<
        (u64, u64),
    >)
        requires
            self.memory.wf(),
        ensures
            match spec_offset_by(vtable, self.memory.pointer_size) {
                Err(e) => r == Err::<(u64, u64), EvalError>(e),
                Ok(p1) => match read_usize_res(self.memory, p1) {
                    Err(e) => r == Err::<(u64, u64), EvalError>(e),
                    Ok(size) => match spec_offset_by(p1, self.memory.pointer_size) {
                        Err(e) => r == Err::<(u64, u64), EvalError>(e),
                        Ok(p2) => match read_usize_res(self.memory, p2) {
                            Err(e) => r == Err::<(u64, u64), EvalError>(e),
                            Ok(align) => r == Ok::<(u64, u64), EvalError>((size, align)),
                        },
                    },
                },
            },
    {
        let ps = self.memory.pointer_size();
        let p1 = match vtable.offset_by(ps) {
            Ok(p) => p,
            Err(e) => {
                return Err(e);
            },
        };
        let size = match self.memory.read_usize(p1) {
            Ok(s) => s,
            Err(e) => {
                return Err(e);
            },
        };
        let p2 = match p1.offset_by(ps) {
            Ok(p) => p,
            Err(e) => {
                return Err(e);
            },
        };
        let align = match self.memory.read_usize(p2) {
            Ok(a) => a,
            Err(e) => {
                return Err(e);
            },
        };
        Ok((size, align))
    }
}

/// Dispatch-table layout: a synthesized table for a concrete type of
/// size S and alignment A occupies exactly
/// `pointer_size * (3 + N)` bytes for N dispatchable methods, and reading
/// back slot 1 yields S and slot 2 yields A exactly.
pub proof fn lemma_vtable_layout(
    pre: Memory,
    post: Memory,
    tcx: TyCtxt,
    ty: u64,
    trait_id: u64,
    self_ty: u64,
    size: u64,
    align: u64,
    vt: MemoryPointer,
)
    requires
        post.wf(),
        vtable_installed(pre, post, tcx, ty, trait_id, self_ty, size, align, vt),
    ensures
        post.allocs@[vt.alloc_id as int].size_bytes as int == (3 + spec_methods_of(
            tcx,
            trait_id,
            self_ty,
        ).len()) * (pre.pointer_size as int),
        read_usize_res(post, slot_ptr(vt, pre.pointer_size, 1)) == Ok::<u64, EvalError>(size),
        read_usize_res(post, slot_ptr(vt, pre.pointer_size, 2)) == Ok::<u64, EvalError>(align),
{
    let slots = 3 + spec_methods_of(tcx, trait_id, self_ty).len() as int;
    lemma_slot_access(post, vt, 1, slots, false);
    lemma_slot_access(post, vt, 2, slots, false);
}

/// Destructor round-trip: slot 0 of a synthesized table reads back as
/// the very instance materialized at synthesis when the concrete type
/// has a destructor, and as the null word — "no destructor", not a
/// fault — when it has none.
pub proof fn lemma_destructor_round_trip(
    pre: Memory,
    post: Memory,
    tcx: TyCtxt,
    ty: u64,
    trait_id: u64,
    self_ty: u64,
    size: u64,
    align: u64,
    vt: MemoryPointer,
)
    requires
        post.wf(),
        vtable_installed(pre, post, tcx, ty, trait_id, self_ty, size, align, vt),
    ensures
        match spec_lookup(tcx.destructors@, ty) {
            None => read_ptr_res(post, vt) == Ok::<Value, EvalError>(
                Value::ByVal(PrimVal::Bytes(0)),
            ),
            Some(d) => (read_ptr_res(post, vt) matches Ok(Value::ByVal(PrimVal::Ptr(p)))
                && get_fn_fault(post, p) is None && post.fn_table@[fn_index_of(post, p)].def_id
                == d.def_id && post.fn_table@[fn_index_of(post, p)].substs@ == d.substs@),
        },
{
    let slots = 3 + spec_methods_of(tcx, trait_id, self_ty).len() as int;
    lemma_slot_access(post, vt, 0, slots, false);
    assert(slot_ptr(vt, pre.pointer_size, 0) == vt);
}

/// Immutability: once a dispatch table is synthesized, every write
/// attempt against its allocation faults with the constant-memory
/// violation and every deallocation attempt with the static-deallocation
/// violation, whatever the offset — never a silent success.
pub proof fn lemma_vtable_immutable(
    pre: Memory,
    post: Memory,
    tcx: TyCtxt,
    ty: u64,
    trait_id: u64,
    self_ty: u64,
    size: u64,
    align: u64,
    vt: MemoryPointer,
    p: MemoryPointer,
)
    requires
        vtable_installed(pre, post, tcx, ty, trait_id, self_ty, size, align, vt),
        p.alloc_id == vt.alloc_id,
        p.offset is Concrete,
    ensures
        access_fault(post, p, true) == Some(EvalError::ModifiedConstantMemory),
        crate::memory::dealloc_fault(post, p) == Some(EvalError::DeallocatedStaticMemory),
{
    crate::memory::lemma_static_memory_is_protected(post, p);
}

} // verus!

