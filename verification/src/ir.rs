//! The term language: types, generic arguments, where-clauses and trait
//! references, each with the mathematical model that contracts speak of.
//!
//! Bound variables are de Bruijn indexed: the `debruijn` component counts the
//! binders between the variable and the one that introduced it, innermost
//! first, and `index` selects a parameter of that binder.
use vstd::prelude::*;

verus! {

broadcast use vstd::std_specs::vec::group_vec_axioms;

/// Identifier of a nominal type declaration.
#[derive(Clone, Copy, Debug, PartialEq, Eq, Structural, Hash)]
pub struct AdtId(pub usize);

/// Identifier of a trait declaration.
#[derive(Clone, Copy, Debug, PartialEq, Eq, Structural, Hash)]
pub struct TraitId(pub usize);

/// Identifier of a trait implementation.
#[derive(Clone, Copy, Debug, PartialEq, Eq, Structural, Hash)]
pub struct ImplId(pub usize);

/// Identifier of an associated type declared by a trait.
#[derive(Clone, Copy, Debug, PartialEq, Eq, Structural, Hash)]
pub struct AssocTypeId(pub usize);

/// Identifier of the value that one impl gives to an associated type.
#[derive(Clone, Copy, Debug, PartialEq, Eq, Structural, Hash)]
pub struct AssociatedTyValueId(pub usize);

/// Identifier of an opaque type declaration.
#[derive(Clone, Copy, Debug, PartialEq, Eq, Structural, Hash)]
pub struct OpaqueTyId(pub usize);

/// Identifier of a function definition.
#[derive(Clone, Copy, Debug, PartialEq, Eq, Structural, Hash)]
pub struct FnDefId(pub usize);

/// Width of a signed integer type.
#[derive(Clone, Copy, Debug, PartialEq, Eq, Structural, Hash)]
pub enum IntTy {
    Isize,
    I8,
    I16,
    I32,
    I64,
    I128,
}

/// Width of an unsigned integer type.
#[derive(Clone, Copy, Debug, PartialEq, Eq, Structural, Hash)]
pub enum UintTy {
    Usize,
    U8,
    U16,
    U32,
    U64,
    U128,
}

/// Width of a floating-point type.
#[derive(Clone, Copy, Debug, PartialEq, Eq, Structural, Hash)]
pub enum FloatTy {
    F32,
    F64,
}

/// A scalar type.
#[derive(Clone, Copy, Debug, PartialEq, Eq, Structural, Hash)]
pub enum Scalar {
    Bool,
    Char,
    Int(IntTy),
    Uint(UintTy),
    Float(FloatTy),
}

/// Whether a pointer or reference permits mutation.
#[derive(Clone, Copy, Debug, PartialEq, Eq, Structural, Hash)]
pub enum Mutability {
    Mut,
    Not,
}

/// The head of an application type.
#[derive(Clone, Copy, Debug, PartialEq, Eq, Structural, Hash)]
pub enum TypeName {
    /// A struct, enum or union declaration.
    Adt(AdtId),
    AssociatedType(AssocTypeId),
    Scalar(Scalar),
    /// A tuple of the given arity.
    Tuple(usize),
    Array,
    Slice,
    Raw(Mutability),
    Ref(Mutability),
    OpaqueType(OpaqueTyId),
    FnDef(FnDefId),
    Str,
    Never,
    Error,
}

/// A reference to parameter `index` of the binder `debruijn` levels out.
#[derive(Clone, Copy, Debug, PartialEq, Eq, Structural, Hash)]
pub struct BoundVar {
    pub debruijn: u32,
    pub index: usize,
}

/// A rigid parameter: entry `idx` of universe `universe`.
#[derive(Clone, Copy, Debug, PartialEq, Eq, Structural, Hash)]
pub struct PlaceholderIndex {
    pub universe: usize,
    pub idx: usize,
}

/// What is known of a type variable before it is resolved.
#[derive(Clone, Copy, Debug, PartialEq, Eq, Structural, Hash)]
pub enum TyKind {
    General,
    Integer,
    Float,
}

/// The kind of one parameter of a binder.
#[derive(Clone, Copy, Debug, PartialEq, Eq, Structural, Hash)]
pub enum VariableKind {
    Ty(TyKind),
    Lifetime,
}

/// A lifetime.
#[derive(Clone, Copy, Debug, PartialEq, Eq, Structural, Hash)]
pub enum Lifetime {
    BoundVar(BoundVar),
    InferenceVar(u32),
    Placeholder(PlaceholderIndex),
}

/// A type, in one of its eight shapes.
#[derive(Debug, PartialEq, Eq)]
pub enum Ty {
    /// A head applied to generic arguments, such as `Vec<T>` or `u32`.
    Apply { name: TypeName, substitution: Vec<GenericArg> },
    /// A trait object. `binders` introduces the unknown self type, and each
    /// bound is itself quantified, so a bound's body sits two binders in.
    Dyn { binders: Vec<VariableKind>, bounds: Vec<QuantifiedWhereClause> },
    /// An associated-type projection or an opaque type.
    Alias(AliasTy),
    /// A rigid parameter.
    Placeholder(PlaceholderIndex),
    /// A reference to an enclosing binder.
    BoundVar(BoundVar),
    /// A function signature quantified over `num_binders` parameters; the
    /// substitution sits one binder in.
    Function { num_binders: usize, substitution: Vec<GenericArg> },
    /// An inference variable.
    InferenceVar(u32, TyKind),
}

/// One argument of a substitution.
#[derive(Debug, PartialEq, Eq)]
pub enum GenericArg {
    Ty(Ty),
    Lifetime(Lifetime),
}

/// A type that stands for another: a projection or an opaque type.
#[derive(Debug, PartialEq, Eq)]
pub enum AliasTy {
    Projection { associated_ty_id: AssocTypeId, substitution: Vec<GenericArg> },
    Opaque { opaque_ty_id: OpaqueTyId, substitution: Vec<GenericArg> },
}

/// A trait applied to its arguments, the self type first among the types.
#[derive(Debug, PartialEq, Eq)]
pub struct TraitRef {
    pub trait_id: TraitId,
    pub substitution: Vec<GenericArg>,
}

/// A where-clause as a programmer writes it.
#[derive(Debug, PartialEq, Eq)]
pub enum WhereClause {
    Implemented(TraitRef),
    AliasEq { alias: AliasTy, ty: Ty },
}

/// A where-clause under a binder of its own.
#[derive(Debug, PartialEq, Eq)]
pub struct QuantifiedWhereClause {
    pub binders: Vec<VariableKind>,
    pub value: WhereClause,
}

/// Model of [`Ty`].
pub ghost enum TyModel {
    Apply { name: TypeName, substitution: Seq<GenericArgModel> },
    Dyn { binders: Seq<VariableKind>, bounds: Seq<QuantifiedWhereClauseModel> },
    Alias(AliasTyModel),
    Placeholder(PlaceholderIndex),
    BoundVar(BoundVar),
    Function { num_binders: usize, substitution: Seq<GenericArgModel> },
    InferenceVar(u32, TyKind),
}

/// Model of [`GenericArg`].
pub ghost enum GenericArgModel {
    Ty(TyModel),
    Lifetime(Lifetime),
}

/// Model of [`AliasTy`].
pub ghost enum AliasTyModel {
    Projection { associated_ty_id: AssocTypeId, substitution: Seq<GenericArgModel> },
    Opaque { opaque_ty_id: OpaqueTyId, substitution: Seq<GenericArgModel> },
}

/// Model of [`TraitRef`].
pub ghost struct TraitRefModel {
    pub trait_id: TraitId,
    pub substitution: Seq<GenericArgModel>,
}

/// Model of [`WhereClause`].
pub ghost enum WhereClauseModel {
    Implemented(TraitRefModel),
    AliasEq { alias: AliasTyModel, ty: TyModel },
}

/// Model of [`QuantifiedWhereClause`].
pub ghost struct QuantifiedWhereClauseModel {
    pub binders: Seq<VariableKind>,
    pub value: WhereClauseModel,
}

/// Elementwise model of a list of generic arguments.
pub open spec fn args_model(s: Seq<GenericArg>) -> Seq<GenericArgModel>
    decreases s,
{
    Seq::new(
        s.len(),
        |i: int|
            if 0 <= i < s.len() {
                s[i].model()
            } else {
                arbitrary()
            },
    )
}

/// Elementwise model of a list of types.
pub open spec fn tys_model(s: Seq<Ty>) -> Seq<TyModel>
    decreases s,
{
    Seq::new(
        s.len(),
        |i: int|
            if 0 <= i < s.len() {
                s[i].model()
            } else {
                arbitrary()
            },
    )
}

/// Elementwise model of a list of quantified where-clauses.
pub open spec fn qwcs_model(s: Seq<QuantifiedWhereClause>) -> Seq<QuantifiedWhereClauseModel>
    decreases s,
{
    Seq::new(
        s.len(),
        |i: int|
            if 0 <= i < s.len() {
                s[i].model()
            } else {
                arbitrary()
            },
    )
}

impl Ty {
    /// The value as the contracts speak of it.
    pub open spec fn model(self) -> TyModel
        decreases self,
    {
        match self {
            Ty::Apply { name, substitution } => TyModel::Apply {
                name,
                substitution: args_model(substitution@),
            },
            Ty::Dyn { binders, bounds } => TyModel::Dyn {
                binders: binders@,
                bounds: qwcs_model(bounds@),
            },
            Ty::Alias(alias) => TyModel::Alias(alias.model()),
            Ty::Placeholder(p) => TyModel::Placeholder(p),
            Ty::BoundVar(bv) => TyModel::BoundVar(bv),
            Ty::Function { num_binders, substitution } => TyModel::Function {
                num_binders,
                substitution: args_model(substitution@),
            },
            Ty::InferenceVar(v, kind) => TyModel::InferenceVar(v, kind),
        }
    }
}

impl GenericArg {
    /// The value as the contracts speak of it.
    pub open spec fn model(self) -> GenericArgModel
        decreases self,
    {
        match self {
            GenericArg::Ty(ty) => GenericArgModel::Ty(ty.model()),
            GenericArg::Lifetime(l) => GenericArgModel::Lifetime(l),
        }
    }
}

impl AliasTy {
    /// The value as the contracts speak of it.
    pub open spec fn model(self) -> AliasTyModel
        decreases self,
    {
        match self {
            AliasTy::Projection { associated_ty_id, substitution } => AliasTyModel::Projection {
                associated_ty_id,
                substitution: args_model(substitution@),
            },
            AliasTy::Opaque { opaque_ty_id, substitution } => AliasTyModel::Opaque {
                opaque_ty_id,
                substitution: args_model(substitution@),
            },
        }
    }
}

impl TraitRef {
    /// The value as the contracts speak of it.
    pub open spec fn model(self) -> TraitRefModel
        decreases self,
    {
        TraitRefModel { trait_id: self.trait_id, substitution: args_model(self.substitution@) }
    }
}

impl WhereClause {
    /// The value as the contracts speak of it.
    pub open spec fn model(self) -> WhereClauseModel
        decreases self,
    {
        match self {
            WhereClause::Implemented(trait_ref) => WhereClauseModel::Implemented(
                trait_ref.model(),
            ),
            WhereClause::AliasEq { alias, ty } => WhereClauseModel::AliasEq {
                alias: alias.model(),
                ty: ty.model(),
            },
        }
    }
}

impl QuantifiedWhereClause {
    /// The value as the contracts speak of it.
    pub open spec fn model(self) -> QuantifiedWhereClauseModel
        decreases self,
    {
        QuantifiedWhereClauseModel { binders: self.binders@, value: self.value.model() }
    }
}

impl View for Ty {
    type V = TyModel;

    open spec fn view(&self) -> TyModel {
        self.model()
    }
}

impl View for GenericArg {
    type V = GenericArgModel;

    open spec fn view(&self) -> GenericArgModel {
        self.model()
    }
}

impl View for AliasTy {
    type V = AliasTyModel;

    open spec fn view(&self) -> AliasTyModel {
        self.model()
    }
}

impl View for TraitRef {
    type V = TraitRefModel;

    open spec fn view(&self) -> TraitRefModel {
        self.model()
    }
}

impl View for WhereClause {
    type V = WhereClauseModel;

    open spec fn view(&self) -> WhereClauseModel {
        self.model()
    }
}

impl View for QuantifiedWhereClause {
    type V = QuantifiedWhereClauseModel;

    open spec fn view(&self) -> QuantifiedWhereClauseModel {
        self.model()
    }
}

/// Copies a list of parameter kinds.
pub fn clone_kinds(v: &Vec<VariableKind>) -> (r: Vec<VariableKind>)
    ensures
        r@ == v@,
{
    let mut out: Vec<VariableKind> = Vec::new();
    let mut i: usize = 0;
    while i < v.len()
        invariant
            i <= v.len(),
            out@ == v@.take(i as int),
        decreases v.len() - i,
    {
        out.push(v[i]);
        proof {
            assert(v@.take(i as int).push(v@[i as int]) =~= v@.take(i + 1));
        }
        i += 1;
    }
    proof {
        assert(v@.take(v.len() as int) =~= v@);
    }
    out
}

/// Copies a list of generic arguments.
pub fn clone_args(v: &Vec<GenericArg>) -> (r: Vec<GenericArg>)
    ensures
        args_model(r@) == args_model(v@),
    decreases *v,
{
    let mut out: Vec<GenericArg> = Vec::new();
    let mut i: usize = 0;
    while i < v.len()
        invariant
            i <= v.len(),
            out.len() == i,
            forall|j: int| 0 <= j < i ==> out[j].model() == v[j].model(),
        decreases v.len() - i,
    {
        out.push(v[i].dup());
        i += 1;
    }
    proof {
        assert(args_model(out@) =~= args_model(v@));
    }
    out
}

/// Copies a list of types.
pub fn clone_tys(v: &Vec<Ty>) -> (r: Vec<Ty>)
    ensures
        tys_model(r@) == tys_model(v@),
    decreases *v,
{
    let mut out: Vec<Ty> = Vec::new();
    let mut i: usize = 0;
    while i < v.len()
        invariant
            i <= v.len(),
            out.len() == i,
            forall|j: int| 0 <= j < i ==> out[j].model() == v[j].model(),
        decreases v.len() - i,
    {
        out.push(v[i].dup());
        i += 1;
    }
    proof {
        assert(tys_model(out@) =~= tys_model(v@));
    }
    out
}

/// Copies a list of quantified where-clauses.
pub fn clone_qwcs(v: &Vec<QuantifiedWhereClause>) -> (r: Vec<QuantifiedWhereClause>)
    ensures
        qwcs_model(r@) == qwcs_model(v@),
    decreases *v,
{
    let mut out: Vec<QuantifiedWhereClause> = Vec::new();
    let mut i: usize = 0;
    while i < v.len()
        invariant
            i <= v.len(),
            out.len() == i,
            forall|j: int| 0 <= j < i ==> out[j].model() == v[j].model(),
        decreases v.len() - i,
    {
        out.push(v[i].dup());
        i += 1;
    }
    proof {
        assert(qwcs_model(out@) =~= qwcs_model(v@));
    }
    out
}

impl Ty {
    /// A deep copy.
    pub fn dup(&self) -> (r: Ty)
        ensures
            r@ == self@,
        decreases *self,
    {
        match self {
            Ty::Apply { name, substitution } => Ty::Apply {
                name: *name,
                substitution: clone_args(substitution),
            },
            Ty::Dyn { binders, bounds } => Ty::Dyn {
                binders: clone_kinds(binders),
                bounds: clone_qwcs(bounds),
            },
            Ty::Alias(alias) => Ty::Alias(alias.dup()),
            Ty::Placeholder(p) => Ty::Placeholder(*p),
            Ty::BoundVar(bv) => Ty::BoundVar(*bv),
            Ty::Function { num_binders, substitution } => Ty::Function {
                num_binders: *num_binders,
                substitution: clone_args(substitution),
            },
            Ty::InferenceVar(v, kind) => Ty::InferenceVar(*v, *kind),
        }
    }
}

impl GenericArg {
    /// A deep copy.
    pub fn dup(&self) -> (r: GenericArg)
        ensures
            r@ == self@,
        decreases *self,
    {
        match self {
            GenericArg::Ty(ty) => GenericArg::Ty(ty.dup()),
            GenericArg::Lifetime(l) => GenericArg::Lifetime(*l),
        }
    }
}

impl AliasTy {
    /// A deep copy.
    pub fn dup(&self) -> (r: AliasTy)
        ensures
            r@ == self@,
        decreases *self,
    {
        match self {
            AliasTy::Projection { associated_ty_id, substitution } => AliasTy::Projection {
                associated_ty_id: *associated_ty_id,
                substitution: clone_args(substitution),
            },
            AliasTy::Opaque { opaque_ty_id, substitution } => AliasTy::Opaque {
                opaque_ty_id: *opaque_ty_id,
                substitution: clone_args(substitution),
            },
        }
    }
}

impl TraitRef {
    /// A deep copy.
    pub fn dup(&self) -> (r: TraitRef)
        ensures
            r@ == self@,
        decreases *self,
    {
        TraitRef { trait_id: self.trait_id, substitution: clone_args(&self.substitution) }
    }
}

impl WhereClause {
    /// A deep copy.
    pub fn dup(&self) -> (r: WhereClause)
        ensures
            r@ == self@,
        decreases *self,
    {
        match self {
            WhereClause::Implemented(trait_ref) => WhereClause::Implemented(trait_ref.dup()),
            WhereClause::AliasEq { alias, ty } => WhereClause::AliasEq {
                alias: alias.dup(),
                ty: ty.dup(),
            },
        }
    }
}

impl QuantifiedWhereClause {
    /// A deep copy.
    pub fn dup(&self) -> (r: QuantifiedWhereClause)
        ensures
            r@ == self@,
        decreases *self,
    {
        QuantifiedWhereClause { binders: clone_kinds(&self.binders), value: self.value.dup() }
    }
}

impl Clone for Ty {
    fn clone(&self) -> (r: Ty)
        ensures
            r@ == self@,
    {
        self.dup()
    }
}

impl Clone for GenericArg {
    fn clone(&self) -> (r: GenericArg)
        ensures
            r@ == self@,
    {
        self.dup()
    }
}

impl Clone for AliasTy {
    fn clone(&self) -> (r: AliasTy)
        ensures
            r@ == self@,
    {
        self.dup()
    }
}

impl Clone for TraitRef {
    fn clone(&self) -> (r: TraitRef)
        ensures
            r@ == self@,
    {
        self.dup()
    }
}

impl Clone for WhereClause {
    fn clone(&self) -> (r: WhereClause)
        ensures
            r@ == self@,
    {
        self.dup()
    }
}

impl Clone for QuantifiedWhereClause {
    fn clone(&self) -> (r: QuantifiedWhereClause)
        ensures
            r@ == self@,
    {
        self.dup()
    }
}

} // verus!
