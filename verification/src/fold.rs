//! Re-expressing terms across binders: shifting in, shifting out, and
//! substituting for the parameters of a binder.
//!
//! All three are one traversal that differs only in what it does with a free
//! variable. The traversal tracks how many binders it has entered (`outer`);
//! a variable bound by one of those is left alone.
use vstd::prelude::*;
use crate::index::{
    bound_var_index_if_innermost, bound_var_shifted_out, bound_var_shifted_out_to,
    checked_enter_binder, checked_shifted_in_from, shifted_in_from, shifted_out_to,
};
use crate::ir::{
    args_model, clone_kinds, qwcs_model, tys_model, AliasTy, AliasTyModel, BoundVar, GenericArg,
    GenericArgModel, Lifetime, QuantifiedWhereClause, QuantifiedWhereClauseModel, TraitRef,
    TraitRefModel, Ty, TyModel, WhereClause, WhereClauseModel,
};

verus! {

broadcast use vstd::std_specs::vec::group_vec_axioms;

/// What a traversal does with free variables.
pub enum Folder<'a> {
    /// Move the term in through this many binders.
    ShiftIn(u32),
    /// Move the term out through this many binders; fails on a variable that
    /// one of them binds.
    ShiftOut(u32),
    /// Eliminate the innermost binder, replacing its parameters by these
    /// arguments; variables of outer binders move one binder out.
    Subst(&'a Vec<GenericArg>),
}

/// Model of [`Folder`].
pub ghost enum FolderModel {
    ShiftIn(u32),
    ShiftOut(u32),
    Subst(Seq<GenericArgModel>),
}

impl<'a> View for Folder<'a> {
    type V = FolderModel;

    open spec fn view(&self) -> FolderModel {
        match self {
            Folder::ShiftIn(k) => FolderModel::ShiftIn(*k),
            Folder::ShiftOut(k) => FolderModel::ShiftOut(*k),
            Folder::Subst(params) => FolderModel::Subst(args_model(params@)),
        }
    }
}

impl FolderModel {
    /// Substitution shifts its arguments in, so it ranks above shifting.
    pub open spec fn rank(self) -> nat {
        match self {
            FolderModel::Subst(_) => 1,
            _ => 0,
        }
    }
}

/// Where a free variable ends up when it is kept as a variable. `bv` is
/// relative to the root of the traversal; the result is relative to the
/// place `outer` binders in where the variable occurs.
pub open spec fn moved_free_var(f: FolderModel, bv: BoundVar, outer: u32) -> Option<BoundVar> {
    let rooted = match f {
        FolderModel::ShiftIn(k) => if bv.debruijn + k <= u32::MAX {
            Some(shifted_in_from(bv, k))
        } else {
            None
        },
        FolderModel::ShiftOut(k) => shifted_out_to(bv, k),
        FolderModel::Subst(_) => shifted_out_to(bv, 1),
    };
    match rooted {
        Some(v) => if v.debruijn + outer <= u32::MAX {
            Some(shifted_in_from(v, outer))
        } else {
            None
        },
        None => None,
    }
}

/// The argument that a substitution supplies for a free variable, if it
/// supplies one.
pub open spec fn supplied_arg(f: FolderModel, bv: BoundVar) -> Option<Option<GenericArgModel>> {
    match f {
        FolderModel::Subst(params) => if bv.debruijn == 0 {
            if bv.index < params.len() {
                Some(Some(params[bv.index as int]))
            } else {
                Some(None)
            }
        } else {
            None
        },
        _ => None,
    }
}

/// The type with its free variables treated by the folder, as it reads
/// `outer` binders inside the term being folded; `None` where a variable
/// cannot be treated or a depth leaves `u32`.
pub open spec fn fold_ty(t: TyModel, f: FolderModel, outer: u32) -> Option<TyModel>
    decreases f.rank(), t,
{
    match t {
        TyModel::Apply { name, substitution } => match fold_args(substitution, f, outer) {
            Some(s) => Some(TyModel::Apply { name, substitution: s }),
            None => None,
        },
        TyModel::Dyn { binders, bounds } => if outer < u32::MAX {
            match fold_qwcs(bounds, f, (outer + 1) as u32) {
                Some(b) => Some(TyModel::Dyn { binders, bounds: b }),
                None => None,
            }
        } else {
            None
        },
        TyModel::Alias(alias) => match fold_alias(alias, f, outer) {
            Some(a) => Some(TyModel::Alias(a)),
            None => None,
        },
        TyModel::Placeholder(_) => Some(t),
        TyModel::BoundVar(bv) => match shifted_out_to(bv, outer) {
            None => Some(t),
            Some(free) => match supplied_arg(f, free) {
                Some(Some(GenericArgModel::Ty(arg))) => fold_ty(
                    arg,
                    FolderModel::ShiftIn(outer),
                    0,
                ),
                Some(_) => None,
                None => match moved_free_var(f, free, outer) {
                    Some(v) => Some(TyModel::BoundVar(v)),
                    None => None,
                },
            },
        },
        TyModel::Function { num_binders, substitution } => if outer < u32::MAX {
            match fold_args(substitution, f, (outer + 1) as u32) {
                Some(s) => Some(TyModel::Function { num_binders, substitution: s }),
                None => None,
            }
        } else {
            None
        },
        TyModel::InferenceVar(..) => Some(t),
    }
}

/// The lifetime with its variable, if free, treated by the folder.
pub open spec fn fold_lifetime(l: Lifetime, f: FolderModel, outer: u32) -> Option<Lifetime> {
    match l {
        Lifetime::BoundVar(bv) => match shifted_out_to(bv, outer) {
            None => Some(l),
            Some(free) => match supplied_arg(f, free) {
                Some(Some(GenericArgModel::Lifetime(arg))) => match arg {
                    Lifetime::BoundVar(v) => if v.debruijn + outer <= u32::MAX {
                        Some(Lifetime::BoundVar(shifted_in_from(v, outer)))
                    } else {
                        None
                    },
                    _ => Some(arg),
                },
                Some(_) => None,
                None => match moved_free_var(f, free, outer) {
                    Some(v) => Some(Lifetime::BoundVar(v)),
                    None => None,
                },
            },
        },
        _ => Some(l),
    }
}

/// The generic argument, folded as the type or lifetime it is.
pub open spec fn fold_arg(a: GenericArgModel, f: FolderModel, outer: u32) -> Option<
    GenericArgModel,
>
    decreases f.rank(), a,
{
    match a {
        GenericArgModel::Ty(t) => match fold_ty(t, f, outer) {
            Some(r) => Some(GenericArgModel::Ty(r)),
            None => None,
        },
        GenericArgModel::Lifetime(l) => match fold_lifetime(l, f, outer) {
            Some(r) => Some(GenericArgModel::Lifetime(r)),
            None => None,
        },
    }
}

/// Folds every argument; fails if any one fails.
pub open spec fn fold_args(s: Seq<GenericArgModel>, f: FolderModel, outer: u32) -> Option<
    Seq<GenericArgModel>,
>
    decreases f.rank(), s,
{
    if forall|i: int| 0 <= i < s.len() ==> fold_arg(#[trigger] s[i], f, outer) is Some {
        Some(
            Seq::new(
                s.len(),
                |i: int|
                    if 0 <= i < s.len() {
                        fold_arg(s[i], f, outer)->0
                    } else {
                        arbitrary()
                    },
            ),
        )
    } else {
        None
    }
}

/// The alias with its arguments folded.
pub open spec fn fold_alias(a: AliasTyModel, f: FolderModel, outer: u32) -> Option<AliasTyModel>
    decreases f.rank(), a,
{
    match a {
        AliasTyModel::Projection { associated_ty_id, substitution } => match fold_args(
            substitution,
            f,
            outer,
        ) {
            Some(s) => Some(AliasTyModel::Projection { associated_ty_id, substitution: s }),
            None => None,
        },
        AliasTyModel::Opaque { opaque_ty_id, substitution } => match fold_args(
            substitution,
            f,
            outer,
        ) {
            Some(s) => Some(AliasTyModel::Opaque { opaque_ty_id, substitution: s }),
            None => None,
        },
    }
}

/// The trait reference with its arguments folded.
pub open spec fn fold_trait_ref(t: TraitRefModel, f: FolderModel, outer: u32) -> Option<
    TraitRefModel,
>
    decreases f.rank(), t,
{
    match fold_args(t.substitution, f, outer) {
        Some(s) => Some(TraitRefModel { trait_id: t.trait_id, substitution: s }),
        None => None,
    }
}

/// The where-clause with both sides of an alias equality, or the trait
/// reference, folded.
pub open spec fn fold_where_clause(w: WhereClauseModel, f: FolderModel, outer: u32) -> Option<
    WhereClauseModel,
>
    decreases f.rank(), w,
{
    match w {
        WhereClauseModel::Implemented(trait_ref) => match fold_trait_ref(trait_ref, f, outer) {
            Some(t) => Some(WhereClauseModel::Implemented(t)),
            None => None,
        },
        WhereClauseModel::AliasEq { alias, ty } => match (
            fold_alias(alias, f, outer),
            fold_ty(ty, f, outer),
        ) {
            (Some(a), Some(t)) => Some(WhereClauseModel::AliasEq { alias: a, ty: t }),
            _ => None,
        },
    }
}

/// Folds the clause one binder further in.
pub open spec fn fold_qwc(q: QuantifiedWhereClauseModel, f: FolderModel, outer: u32) -> Option<
    QuantifiedWhereClauseModel,
>
    decreases f.rank(), q,
{
    if outer < u32::MAX {
        match fold_where_clause(q.value, f, (outer + 1) as u32) {
            Some(w) => Some(QuantifiedWhereClauseModel { binders: q.binders, value: w }),
            None => None,
        }
    } else {
        None
    }
}

/// Folds every clause; fails if any one fails.
pub open spec fn fold_qwcs(
    s: Seq<QuantifiedWhereClauseModel>,
    f: FolderModel,
    outer: u32,
) -> Option<Seq<QuantifiedWhereClauseModel>>
    decreases f.rank(), s,
{
    if forall|i: int| 0 <= i < s.len() ==> fold_qwc(#[trigger] s[i], f, outer) is Some {
        Some(
            Seq::new(
                s.len(),
                |i: int|
                    if 0 <= i < s.len() {
                        fold_qwc(s[i], f, outer)->0
                    } else {
                        arbitrary()
                    },
            ),
        )
    } else {
        None
    }
}

/// Folds every type; fails if any one fails.
pub open spec fn fold_tys(s: Seq<TyModel>, f: FolderModel, outer: u32) -> Option<Seq<TyModel>> {
    if forall|i: int| 0 <= i < s.len() ==> fold_ty(#[trigger] s[i], f, outer) is Some {
        Some(Seq::new(s.len(), |i: int| fold_ty(s[i], f, outer)->0))
    } else {
        None
    }
}

/// An executable result stands for a model result.
pub open spec fn agrees<T: View>(r: Option<T>, m: Option<T::V>) -> bool {
    match r {
        Some(x) => m == Some(x@),
        None => m is None,
    }
}

/// Computes [`moved_free_var`].
pub fn move_free_var(f: &Folder, bv: BoundVar, outer: u32) -> (r: Option<BoundVar>)
    ensures
        r == moved_free_var(f@, bv, outer),
{
    let rooted = match f {
        Folder::ShiftIn(k) => checked_shifted_in_from(bv, *k),
        Folder::ShiftOut(k) => bound_var_shifted_out_to(bv, *k),
        Folder::Subst(_) => bound_var_shifted_out(bv),
    };
    match rooted {
        Some(v) => checked_shifted_in_from(v, outer),
        None => None,
    }
}

impl Lifetime {
    /// Computes [`fold_lifetime`].
    pub fn fold_with(&self, f: &Folder, outer: u32) -> (r: Option<Lifetime>)
        ensures
            r == fold_lifetime(*self, f@, outer),
    {
        match self {
            Lifetime::BoundVar(bv) => match bound_var_shifted_out_to(*bv, outer) {
                None => Some(*self),
                Some(free) => {
                    if let Folder::Subst(params) = f {
                        if let Some(index) = bound_var_index_if_innermost(free) {
                            if index < params.len() {
                                return match &params[index] {
                                    GenericArg::Lifetime(Lifetime::BoundVar(v)) => {
                                        match checked_shifted_in_from(*v, outer) {
                                            Some(w) => Some(Lifetime::BoundVar(w)),
                                            None => None,
                                        }
                                    },
                                    GenericArg::Lifetime(arg) => Some(*arg),
                                    GenericArg::Ty(_) => None,
                                };
                            } else {
                                return None;
                            }
                        }
                    }
                    match move_free_var(f, free, outer) {
                        Some(v) => Some(Lifetime::BoundVar(v)),
                        None => None,
                    }
                },
            },
            _ => Some(*self),
        }
    }
}

impl Ty {
    /// Computes [`fold_ty`].
    pub fn fold_with(&self, f: &Folder, outer: u32) -> (r: Option<Ty>)
        ensures
            agrees(r, fold_ty(self@, f@, outer)),
        decreases f@.rank(), *self,
    {
        match self {
            Ty::Apply { name, substitution } => match fold_args_with(substitution, f, outer) {
                Some(s) => Some(Ty::Apply { name: *name, substitution: s }),
                None => None,
            },
            Ty::Dyn { binders, bounds } => match checked_enter_binder(outer) {
                Some(inner) => match fold_qwcs_with(bounds, f, inner) {
                    Some(b) => Some(Ty::Dyn { binders: clone_kinds(binders), bounds: b }),
                    None => None,
                },
                None => None,
            },
            Ty::Alias(alias) => match alias.fold_with(f, outer) {
                Some(a) => Some(Ty::Alias(a)),
                None => None,
            },
            Ty::Placeholder(p) => Some(Ty::Placeholder(*p)),
            Ty::BoundVar(bv) => match bound_var_shifted_out_to(*bv, outer) {
                None => Some(Ty::BoundVar(*bv)),
                Some(free) => {
                    if let Folder::Subst(params) = f {
                        if let Some(index) = bound_var_index_if_innermost(free) {
                            if index < params.len() {
                                return match &params[index] {
                                    GenericArg::Ty(arg) => arg.fold_with(
                                        &Folder::ShiftIn(outer),
                                        0,
                                    ),
                                    GenericArg::Lifetime(_) => None,
                                };
                            } else {
                                return None;
                            }
                        }
                    }
                    match move_free_var(f, free, outer) {
                        Some(v) => Some(Ty::BoundVar(v)),
                        None => None,
                    }
                },
            },
            Ty::Function { num_binders, substitution } => match checked_enter_binder(outer) {
                Some(inner) => match fold_args_with(substitution, f, inner) {
                    Some(s) => Some(Ty::Function { num_binders: *num_binders, substitution: s }),
                    None => None,
                },
                None => None,
            },
            Ty::InferenceVar(v, kind) => Some(Ty::InferenceVar(*v, *kind)),
        }
    }
}

impl GenericArg {
    /// Computes [`fold_arg`].
    pub fn fold_with(&self, f: &Folder, outer: u32) -> (r: Option<GenericArg>)
        ensures
            agrees(r, fold_arg(self@, f@, outer)),
        decreases f@.rank(), *self,
    {
        match self {
            GenericArg::Ty(t) => match t.fold_with(f, outer) {
                Some(r) => Some(GenericArg::Ty(r)),
                None => None,
            },
            GenericArg::Lifetime(l) => match l.fold_with(f, outer) {
                Some(r) => Some(GenericArg::Lifetime(r)),
                None => None,
            },
        }
    }
}

/// Computes [`fold_args`].
pub fn fold_args_with(v: &Vec<GenericArg>, f: &Folder, outer: u32) -> (r: Option<Vec<GenericArg>>)
    ensures
        match r {
            Some(out) => fold_args(args_model(v@), f@, outer) == Some(args_model(out@)),
            None => fold_args(args_model(v@), f@, outer) is None,
        },
    decreases f@.rank(), *v,
{
    let mut out: Vec<GenericArg> = Vec::new();
    let mut i: usize = 0;
    while i < v.len()
        invariant
            i <= v.len(),
            out.len() == i,
            forall|j: int|
                0 <= j < i ==> fold_arg(#[trigger] args_model(v@)[j], f@, outer) == Some(
                    out[j].model(),
                ),
        decreases v.len() - i,
    {
        match v[i].fold_with(f, outer) {
            Some(a) => out.push(a),
            None => {
                proof {
                    let s = args_model(v@);
                    assert(fold_arg(s[i as int], f@, outer) is None);
                    assert(fold_args(s, f@, outer) is None);
                }
                return None;
            },
        }
        i += 1;
    }
    proof {
        assert(fold_args(args_model(v@), f@, outer)->0 =~= args_model(out@));
    }
    Some(out)
}

impl AliasTy {
    /// Computes [`fold_alias`].
    pub fn fold_with(&self, f: &Folder, outer: u32) -> (r: Option<AliasTy>)
        ensures
            agrees(r, fold_alias(self@, f@, outer)),
        decreases f@.rank(), *self,
    {
        match self {
            AliasTy::Projection { associated_ty_id, substitution } => match fold_args_with(
                substitution,
                f,
                outer,
            ) {
                Some(s) => Some(
                    AliasTy::Projection { associated_ty_id: *associated_ty_id, substitution: s },
                ),
                None => None,
            },
            AliasTy::Opaque { opaque_ty_id, substitution } => match fold_args_with(
                substitution,
                f,
                outer,
            ) {
                Some(s) => Some(AliasTy::Opaque { opaque_ty_id: *opaque_ty_id, substitution: s }),
                None => None,
            },
        }
    }
}

impl TraitRef {
    /// Computes [`fold_trait_ref`].
    pub fn fold_with(&self, f: &Folder, outer: u32) -> (r: Option<TraitRef>)
        ensures
            agrees(r, fold_trait_ref(self@, f@, outer)),
        decreases f@.rank(), *self,
    {
        match fold_args_with(&self.substitution, f, outer) {
            Some(s) => Some(TraitRef { trait_id: self.trait_id, substitution: s }),
            None => None,
        }
    }
}

impl WhereClause {
    /// Computes [`fold_where_clause`].
    pub fn fold_with(&self, f: &Folder, outer: u32) -> (r: Option<WhereClause>)
        ensures
            agrees(r, fold_where_clause(self@, f@, outer)),
        decreases f@.rank(), *self,
    {
        match self {
            WhereClause::Implemented(trait_ref) => match trait_ref.fold_with(f, outer) {
                Some(t) => Some(WhereClause::Implemented(t)),
                None => None,
            },
            WhereClause::AliasEq { alias, ty } => match alias.fold_with(f, outer) {
                Some(a) => match ty.fold_with(f, outer) {
                    Some(t) => Some(WhereClause::AliasEq { alias: a, ty: t }),
                    None => None,
                },
                None => None,
            },
        }
    }
}

impl QuantifiedWhereClause {
    /// Computes [`fold_qwc`].
    pub fn fold_with(&self, f: &Folder, outer: u32) -> (r: Option<QuantifiedWhereClause>)
        ensures
            agrees(r, fold_qwc(self@, f@, outer)),
        decreases f@.rank(), *self,
    {
        match checked_enter_binder(outer) {
            Some(inner) => match self.value.fold_with(f, inner) {
                Some(w) => Some(
                    QuantifiedWhereClause { binders: clone_kinds(&self.binders), value: w },
                ),
                None => None,
            },
            None => None,
        }
    }
}

/// Computes [`fold_qwcs`].
pub fn fold_qwcs_with(v: &Vec<QuantifiedWhereClause>, f: &Folder, outer: u32) -> (r: Option<
    Vec<QuantifiedWhereClause>,
>)
    ensures
        match r {
            Some(out) => fold_qwcs(qwcs_model(v@), f@, outer) == Some(qwcs_model(out@)),
            None => fold_qwcs(qwcs_model(v@), f@, outer) is None,
        },
    decreases f@.rank(), *v,
{
    let mut out: Vec<QuantifiedWhereClause> = Vec::new();
    let mut i: usize = 0;
    while i < v.len()
        invariant
            i <= v.len(),
            out.len() == i,
            forall|j: int|
                0 <= j < i ==> fold_qwc(#[trigger] qwcs_model(v@)[j], f@, outer) == Some(
                    out[j].model(),
                ),
        decreases v.len() - i,
    {
        match v[i].fold_with(f, outer) {
            Some(a) => out.push(a),
            None => {
                proof {
                    let s = qwcs_model(v@);
                    assert(fold_qwc(s[i as int], f@, outer) is None);
                    assert(fold_qwcs(s, f@, outer) is None);
                }
                return None;
            },
        }
        i += 1;
    }
    proof {
        assert(fold_qwcs(qwcs_model(v@), f@, outer)->0 =~= qwcs_model(out@));
    }
    Some(out)
}

/// Computes [`fold_tys`].
pub fn fold_tys_with(v: &Vec<Ty>, f: &Folder, outer: u32) -> (r: Option<Vec<Ty>>)
    ensures
        match r {
            Some(out) => fold_tys(tys_model(v@), f@, outer) == Some(tys_model(out@)),
            None => fold_tys(tys_model(v@), f@, outer) is None,
        },
{
    let mut out: Vec<Ty> = Vec::new();
    let mut i: usize = 0;
    while i < v.len()
        invariant
            i <= v.len(),
            out.len() == i,
            forall|j: int|
                0 <= j < i ==> fold_ty(#[trigger] tys_model(v@)[j], f@, outer) == Some(
                    out[j].model(),
                ),
        decreases v.len() - i,
    {
        match v[i].fold_with(f, outer) {
            Some(a) => out.push(a),
            None => {
                assert(fold_ty(tys_model(v@)[i as int], f@, outer) is None);
                return None;
            },
        }
        i += 1;
    }
    proof {
        assert(fold_tys(tys_model(v@), f@, outer)->0 =~= tys_model(out@));
    }
    Some(out)
}

} // verus!
