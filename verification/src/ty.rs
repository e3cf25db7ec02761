//! Model of the host type system consumed by this core: type handles,
//! layout query results, trait references, impl candidates and the lookup
//! tables an obligation resolver needs.
//!
//! Types are identified by plain numeric handles; a handle is only
//! meaningful relative to the table set (`TyCtxt`) that issued it.

use vstd::prelude::*;

verus! {

/// A handle to an interned type of the host type system.
#[derive(Clone, Copy, Debug, PartialEq, Eq, Structural)]
pub struct Ty(pub u64);

/// A handle to an interned function signature of the host type system.
#[derive(Clone, Copy, Debug, PartialEq, Eq, Structural)]
pub struct FnSig(pub u64);

/// Why layout computation failed for a type.
#[derive(Clone, Copy, Debug)]
pub enum LayoutError {
    Unknown(Ty),
    SizeOverflow(Ty),
}

/// The outcome of a layout query for a type.
#[derive(Clone, Copy, Debug)]
pub enum TyLayout {
    Sized { size: u64, align: u64 },
    Unsized,
    Failed(LayoutError),
}

/// A monomorphic instance: a definition together with the concrete type
/// arguments it is instantiated at.
#[derive(Clone, Debug)]
pub struct Instance {
    pub def_id: u64,
    pub substs: Vec<u64>,
}

/// Copies a list of type handles.
pub fn copy_substs(v: &Vec<u64>) -> (r: Vec<u64>)
    ensures
        r@ == v@,
{
    let mut r: Vec<u64> = Vec::new();
    let mut i: usize = 0;
    while i < v.len()
        invariant
            i <= v.len(),
            r@ == v@.subrange(0, i as int),
        decreases v.len() - i,
    {
        r.push(v[i]);
        i = i + 1;
        proof {
            assert(r@ =~= v@.subrange(0, i as int));
        }
    }
    proof {
        assert(v@.subrange(0, v@.len() as int) =~= v@);
    }
    r
}

impl Instance {
    pub fn new(def_id: u64, substs: Vec<u64>) -> (r: Instance)
        ensures
            r.def_id == def_id,
            r.substs@ == substs@,
    {
        Instance { def_id, substs }
    }

    /// An owned copy of this instance.
    pub fn duplicate(&self) -> (r: Instance)
        ensures
            r.def_id == self.def_id,
            r.substs@ == self.substs@,
    {
        Instance { def_id: self.def_id, substs: copy_substs(&self.substs) }
    }
}

/// A type argument of a trait reference: either a concrete type handle or
/// an inference variable still to be resolved by a fulfillment session.
#[derive(Clone, Copy, Debug)]
pub enum TyArg {
    Ty(u64),
    Infer(usize),
}

/// An abstract trait reference: a trait plus its type arguments; the
/// argument at position 0 is the self type.
#[derive(Clone, Debug)]
pub struct TraitRef {
    pub trait_id: u64,
    pub args: Vec<TyArg>,
}

impl TraitRef {
    pub fn new(trait_id: u64, args: Vec<TyArg>) -> (r: TraitRef)
        ensures
            r.trait_id == trait_id,
            r.args@ == args@,
    {
        TraitRef { trait_id, args }
    }
}

/// What kind of dispatch a selected candidate stands for.
#[derive(Clone, Debug)]
pub enum CandidateKind {
    /// A concrete trait implementation, with its substitution pattern;
    /// the pattern may mention inference variables that fulfillment binds.
    Impl { impl_def_id: u64, substs: Vec<TyArg> },
    /// Built-in behaviour of the machine.
    Builtin,
    /// A default or blanket obligation discharged by a caller's bound.
    Param,
}

/// One selectable candidate of the host type system: the trait obligation
/// shape it answers, the dispatch it stands for, and the nested
/// obligations its applicability produces.
#[derive(Clone, Debug)]
pub struct ImplEntry {
    pub trait_id: u64,
    /// Concrete type arguments this candidate applies to, self type first.
    pub args: Vec<u64>,
    pub kind: CandidateKind,
    /// Nested obligations registered with fulfillment when this candidate
    /// is selected.
    pub nested: Vec<TraitRef>,
}

/// A fully resolved dispatch: what the selection-and-fulfillment process
/// hands back for a trait reference once every inference variable is gone.
#[derive(Clone, Debug)]
pub enum Vtable {
    Impl { impl_def_id: u64, substs: Vec<u64> },
    Builtin,
    Param,
}

/// The kind of an associated item.
#[derive(Clone, Copy, Debug, PartialEq, Eq, Structural)]
pub enum AssocKind {
    Const,
    Method,
    Type,
}

/// An associated item of a trait implementation.
#[derive(Clone, Copy, Debug, PartialEq, Eq, Structural)]
pub struct AssocItem {
    pub def_id: u64,
    pub name: u64,
    pub kind: AssocKind,
}

/// The spec-level shape of a resolved dispatch.
pub enum VtableModel {
    Impl { impl_def_id: u64, substs: Seq<u64> },
    Builtin,
    Param,
}

impl View for Vtable {
    type V = VtableModel;

    open spec fn view(&self) -> VtableModel {
        match self {
            Vtable::Impl { impl_def_id, substs } => VtableModel::Impl {
                impl_def_id: *impl_def_id,
                substs: substs@,
            },
            Vtable::Builtin => VtableModel::Builtin,
            Vtable::Param => VtableModel::Param,
        }
    }
}

/// A reference to a trait method occupying one dispatch-table slot.
#[derive(Clone, Debug)]
pub struct MethodRef {
    pub def_id: u64,
    pub substs: Vec<u64>,
}

/// First match of a key in an association table, searching from index `i`.
pub open spec fn lookup_from<T>(s: Seq<(u64, T)>, k: u64, i: int) -> Option<T>
    decreases s.len() - i,
{
    if i < 0 || i >= s.len() {
        None
    } else if s[i].0 == k {
        Some(s[i].1)
    } else {
        lookup_from(s, k, i + 1)
    }
}

/// First match of a key in an association table.
pub open spec fn spec_lookup<T>(s: Seq<(u64, T)>, k: u64) -> Option<T> {
    lookup_from(s, k, 0)
}

/// Finds the first entry with the given key.
pub fn lookup<'a, T>(table: &'a Vec<(u64, T)>, k: u64) -> (r: Option<&'a T>)
    ensures
        match r {
            Some(v) => spec_lookup(table@, k) == Some(*v),
            None => spec_lookup(table@, k) is None,
        },
{
    let mut i: usize = 0;
    while i < table.len()
        invariant
            i <= table.len(),
            lookup_from(table@, k, 0) == lookup_from(table@, k, i as int),
        decreases table.len() - i,
    {
        if table[i].0 == k {
            return Some(&table[i].1);
        }
        i = i + 1;
    }
    None
}

/// First match of a two-part key in an association table, from index `i`.
pub open spec fn lookup2_from<T>(s: Seq<((u64, u64), T)>, k1: u64, k2: u64, i: int) -> Option<T>
    decreases s.len() - i,
{
    if i < 0 || i >= s.len() {
        None
    } else if s[i].0.0 == k1 && s[i].0.1 == k2 {
        Some(s[i].1)
    } else {
        lookup2_from(s, k1, k2, i + 1)
    }
}

/// First match of a two-part key in an association table.
pub open spec fn spec_lookup2<T>(s: Seq<((u64, u64), T)>, k1: u64, k2: u64) -> Option<T> {
    lookup2_from(s, k1, k2, 0)
}

/// Finds the first entry with the given two-part key.
pub fn lookup2<'a, T>(table: &'a Vec<((u64, u64), T)>, k1: u64, k2: u64) -> (r: Option<&'a T>)
    ensures
        match r {
            Some(v) => spec_lookup2(table@, k1, k2) == Some(*v),
            None => spec_lookup2(table@, k1, k2) is None,
        },
{
    let mut i: usize = 0;
    while i < table.len()
        invariant
            i <= table.len(),
            lookup2_from(table@, k1, k2, 0) == lookup2_from(table@, k1, k2, i as int),
        decreases table.len() - i,
    {
        if table[i].0.0 == k1 && table[i].0.1 == k2 {
            return Some(&table[i].1);
        }
        i = i + 1;
    }
    None
}

/// First associated item of the given implementation with this name and
/// kind, searching from index `i`.
pub open spec fn find_assoc_from(
    s: Seq<(u64, AssocItem)>,
    impl_id: u64,
    name: u64,
    kind: AssocKind,
    i: int,
) -> Option<AssocItem>
    decreases s.len() - i,
{
    if i < 0 || i >= s.len() {
        None
    } else if s[i].0 == impl_id && s[i].1.name == name && s[i].1.kind == kind {
        Some(s[i].1)
    } else {
        find_assoc_from(s, impl_id, name, kind, i + 1)
    }
}

/// First associated item of the given implementation with this name and
/// kind.
pub open spec fn spec_find_assoc(
    s: Seq<(u64, AssocItem)>,
    impl_id: u64,
    name: u64,
    kind: AssocKind,
) -> Option<AssocItem> {
    find_assoc_from(s, impl_id, name, kind, 0)
}

/// The lookup tables of the host type system this core consults: layout
/// results, destructors, ordered dispatchable method lists, selectable
/// impl candidates, associated items, and the sizes of its inference
/// namespace.
pub struct TyCtxt {
    pub layouts: Vec<(u64, TyLayout)>,
    pub destructors: Vec<(u64, Instance)>,
    pub method_tables: Vec<((u64, u64), Vec<Option<MethodRef>>)>,
    pub impls: Vec<ImplEntry>,
    pub trait_owners: Vec<(u64, u64)>,
    pub item_names: Vec<(u64, u64)>,
    pub assoc_items: Vec<(u64, AssocItem)>,
    pub n_infer_vars: usize,
}

/// The layout of a type: the table's answer, or an unknown-type failure
/// for a handle the table does not know.
pub open spec fn spec_layout_of(tcx: TyCtxt, t: u64) -> TyLayout {
    match spec_lookup(tcx.layouts@, t) {
        Some(l) => l,
        None => TyLayout::Failed(LayoutError::Unknown(Ty(t))),
    }
}

/// The ordered dispatchable method list of a (trait, self type) pair; a
/// pair the table does not know has no dispatchable methods.
pub open spec fn spec_methods_of(tcx: TyCtxt, trait_id: u64, self_ty: u64) -> Seq<
    Option<MethodRef>,
> {
    match spec_lookup2(tcx.method_tables@, trait_id, self_ty) {
        Some(v) => v@,
        None => Seq::empty(),
    }
}

impl TyCtxt {
    /// The layout of a type.
    pub fn layout_of(&self, t: u64) -> (r: TyLayout)
        ensures
            r == spec_layout_of(*self, t),
    {
        match lookup(&self.layouts, t) {
            Some(l) => *l,
            None => TyLayout::Failed(LayoutError::Unknown(Ty(t))),
        }
    }

    /// The destructor instance of a type, if it has one.
    pub fn destructor(&self, t: u64) -> (r: Option<&Instance>)
        ensures
            match r {
                Some(d) => spec_lookup(self.destructors@, t) == Some(*d),
                None => spec_lookup(self.destructors@, t) is None,
            },
    {
        lookup(&self.destructors, t)
    }

    /// The ordered dispatchable method list of a (trait, self type) pair.
    pub fn vtable_methods(&self, trait_id: u64, self_ty: u64) -> (r: Option<
        &Vec<Option<MethodRef>>,
    >)
        ensures
            match r {
                Some(v) => spec_methods_of(*self, trait_id, self_ty) == v@,
                None => spec_methods_of(*self, trait_id, self_ty) == Seq::<
                    Option<MethodRef>,
                >::empty(),
            },
    {
        lookup2(&self.method_tables, trait_id, self_ty)
    }

    /// The trait owning an item, if any.
    pub fn trait_of_item(&self, def_id: u64) -> (r: Option<u64>)
        ensures
            r == spec_lookup(self.trait_owners@, def_id),
    {
        match lookup(&self.trait_owners, def_id) {
            Some(t) => Some(*t),
            None => None,
        }
    }

    /// The name symbol of an item, if the table knows it.
    pub fn item_name(&self, def_id: u64) -> (r: Option<u64>)
        ensures
            r == spec_lookup(self.item_names@, def_id),
    {
        match lookup(&self.item_names, def_id) {
            Some(n) => Some(*n),
            None => None,
        }
    }

    /// The first associated item of an implementation with this name and
    /// kind.
    pub fn find_assoc_item(&self, impl_id: u64, name: u64, kind: AssocKind) -> (r: Option<
        AssocItem,
    >)
        ensures
            r == spec_find_assoc(self.assoc_items@, impl_id, name, kind),
    {
        let mut i: usize = 0;
        while i < self.assoc_items.len()
            invariant
                i <= self.assoc_items.len(),
                find_assoc_from(self.assoc_items@, impl_id, name, kind, 0) == find_assoc_from(
                    self.assoc_items@,
                    impl_id,
                    name,
                    kind,
                    i as int,
                ),
            decreases self.assoc_items.len() - i,
        {
            let (owner, item) = self.assoc_items[i];
            if owner == impl_id && item.name == name && item.kind == kind {
                return Some(item);
            }
            i = i + 1;
        }
        None
    }
}

} // verus!
