//! Bounds declared on an associated type, with the self type left out.
use vstd::prelude::*;
use crate::fold::{
    agrees, fold_args, fold_args_with, fold_ty, Folder, FolderModel,
};
use crate::goal::{goals_model, qwc_well_formed_goal, Goal, GoalModel};
use crate::index::checked_enter_binder;
use crate::ir::{
    args_model, clone_args, clone_kinds, AliasTy, AliasTyModel, AssocTypeId, GenericArg,
    GenericArgModel, QuantifiedWhereClause, QuantifiedWhereClauseModel, TraitId, TraitRef,
    TraitRefModel, Ty, TyModel, VariableKind, WhereClause, WhereClauseModel,
};

verus! {

broadcast use vstd::std_specs::vec::group_vec_axioms;

/// A bound on an unstated self type.
#[derive(Debug, PartialEq, Eq)]
pub enum InlineBound {
    /// `Self: Trait<args_no_self>`.
    TraitBound { trait_id: TraitId, args_no_self: Vec<GenericArg> },
    /// `Self: Trait<args_no_self, Assoc<parameters> = value>`.
    AliasEqBound {
        trait_id: TraitId,
        args_no_self: Vec<GenericArg>,
        associated_ty_id: AssocTypeId,
        parameters: Vec<GenericArg>,
        value: Ty,
    },
}

/// An inline bound under a binder of its own.
#[derive(Debug, PartialEq, Eq)]
pub struct QuantifiedInlineBound {
    pub binders: Vec<VariableKind>,
    pub value: InlineBound,
}

/// Model of [`InlineBound`].
pub ghost enum InlineBoundModel {
    TraitBound { trait_id: TraitId, args_no_self: Seq<GenericArgModel> },
    AliasEqBound {
        trait_id: TraitId,
        args_no_self: Seq<GenericArgModel>,
        associated_ty_id: AssocTypeId,
        parameters: Seq<GenericArgModel>,
        value: TyModel,
    },
}

/// Model of [`QuantifiedInlineBound`].
pub ghost struct QuantifiedInlineBoundModel {
    pub binders: Seq<VariableKind>,
    pub value: InlineBoundModel,
}

impl View for InlineBound {
    type V = InlineBoundModel;

    open spec fn view(&self) -> InlineBoundModel {
        match self {
            InlineBound::TraitBound { trait_id, args_no_self } => InlineBoundModel::TraitBound {
                trait_id: *trait_id,
                args_no_self: args_model(args_no_self@),
            },
            InlineBound::AliasEqBound {
                trait_id,
                args_no_self,
                associated_ty_id,
                parameters,
                value,
            } => InlineBoundModel::AliasEqBound {
                trait_id: *trait_id,
                args_no_self: args_model(args_no_self@),
                associated_ty_id: *associated_ty_id,
                parameters: args_model(parameters@),
                value: value@,
            },
        }
    }
}

impl View for QuantifiedInlineBound {
    type V = QuantifiedInlineBoundModel;

    open spec fn view(&self) -> QuantifiedInlineBoundModel {
        QuantifiedInlineBoundModel { binders: self.binders@, value: self.value@ }
    }
}

/// Elementwise model of a list of quantified bounds.
pub open spec fn bounds_model(s: Seq<QuantifiedInlineBound>) -> Seq<QuantifiedInlineBoundModel> {
    Seq::new(s.len(), |i: int| s[i]@)
}

/// The bound with what it mentions folded.
pub open spec fn fold_inline_bound(b: InlineBoundModel, f: FolderModel, outer: u32) -> Option<
    InlineBoundModel,
> {
    match b {
        InlineBoundModel::TraitBound { trait_id, args_no_self } => match fold_args(
            args_no_self,
            f,
            outer,
        ) {
            Some(a) => Some(InlineBoundModel::TraitBound { trait_id, args_no_self: a }),
            None => None,
        },
        InlineBoundModel::AliasEqBound {
            trait_id,
            args_no_self,
            associated_ty_id,
            parameters,
            value,
        } => match (
            fold_args(args_no_self, f, outer),
            fold_args(parameters, f, outer),
            fold_ty(value, f, outer),
        ) {
            (Some(a), Some(p), Some(v)) => Some(
                InlineBoundModel::AliasEqBound {
                    trait_id,
                    args_no_self: a,
                    associated_ty_id,
                    parameters: p,
                    value: v,
                },
            ),
            _ => None,
        },
    }
}

/// Folds the bound one binder further in.
pub open spec fn fold_qib(q: QuantifiedInlineBoundModel, f: FolderModel, outer: u32) -> Option<
    QuantifiedInlineBoundModel,
> {
    if outer < u32::MAX {
        match fold_inline_bound(q.value, f, (outer + 1) as u32) {
            Some(b) => Some(QuantifiedInlineBoundModel { binders: q.binders, value: b }),
            None => None,
        }
    } else {
        None
    }
}

/// Folds every bound; fails if any one fails.
pub open spec fn fold_qibs(
    s: Seq<QuantifiedInlineBoundModel>,
    f: FolderModel,
    outer: u32,
) -> Option<Seq<QuantifiedInlineBoundModel>> {
    if forall|i: int| 0 <= i < s.len() ==> fold_qib(#[trigger] s[i], f, outer) is Some {
        Some(Seq::new(s.len(), |i: int| fold_qib(s[i], f, outer)->0))
    } else {
        None
    }
}

/// The trait reference that a bound makes of a self type.
pub open spec fn bound_trait_ref(
    trait_id: TraitId,
    args_no_self: Seq<GenericArgModel>,
    self_ty: TyModel,
) -> TraitRefModel {
    TraitRefModel { trait_id, substitution: seq![GenericArgModel::Ty(self_ty)] + args_no_self }
}

/// The where-clauses that a bound states of a self type: that the trait is
/// implemented and, for an alias bound, that the associated type equals
/// the value.
pub open spec fn inline_where_clauses(b: InlineBoundModel, self_ty: TyModel) -> Seq<
    WhereClauseModel,
> {
    match b {
        InlineBoundModel::TraitBound { trait_id, args_no_self } => seq![
            WhereClauseModel::Implemented(bound_trait_ref(trait_id, args_no_self, self_ty)),
        ],
        InlineBoundModel::AliasEqBound {
            trait_id,
            args_no_self,
            associated_ty_id,
            parameters,
            value,
        } => {
            let trait_ref = bound_trait_ref(trait_id, args_no_self, self_ty);
            seq![
                WhereClauseModel::Implemented(trait_ref),
                WhereClauseModel::AliasEq {
                    alias: AliasTyModel::Projection {
                        associated_ty_id,
                        substitution: parameters + trait_ref.substitution,
                    },
                    ty: value,
                },
            ]
        },
    }
}

/// The where-clauses of a quantified bound, each under the bound's binder,
/// with the self type moved in through that binder.
pub open spec fn quantified_where_clauses(
    q: QuantifiedInlineBoundModel,
    self_ty: TyModel,
) -> Option<Seq<QuantifiedWhereClauseModel>> {
    match fold_ty(self_ty, FolderModel::ShiftIn(1), 0) {
        Some(inner) => {
            let wcs = inline_where_clauses(q.value, inner);
            Some(
                Seq::new(
                    wcs.len(),
                    |i: int| QuantifiedWhereClauseModel { binders: q.binders, value: wcs[i] },
                ),
            )
        },
        None => None,
    }
}

/// The well-formed goals of a quantified bound's where-clauses.
pub open spec fn bound_goals_of(q: QuantifiedInlineBoundModel, self_ty: TyModel) -> Option<
    Seq<GoalModel>,
> {
    match quantified_where_clauses(q, self_ty) {
        Some(wcs) => Some(Seq::new(wcs.len(), |i: int| qwc_well_formed_goal(wcs[i]))),
        None => None,
    }
}

/// The well-formed goals of all the bounds, in order.
pub open spec fn bound_goals(bounds: Seq<QuantifiedInlineBoundModel>, self_ty: TyModel) -> Option<
    Seq<GoalModel>,
>
    decreases bounds.len(),
{
    if bounds.len() == 0 {
        Some(Seq::empty())
    } else {
        match (bound_goals(bounds.drop_last(), self_ty), bound_goals_of(bounds.last(), self_ty)) {
            (Some(a), Some(b)) => Some(a + b),
            _ => None,
        }
    }
}

/// A refused prefix of bounds refuses the whole.
proof fn lemma_bound_goals_refused(
    bounds: Seq<QuantifiedInlineBoundModel>,
    self_ty: TyModel,
    i: int,
)
    requires
        0 <= i <= bounds.len(),
        bound_goals(bounds.take(i), self_ty) is None,
    ensures
        bound_goals(bounds, self_ty) is None,
    decreases bounds.len() - i,
{
    if i < bounds.len() {
        assert(bounds.take(i + 1).drop_last() =~= bounds.take(i));
        lemma_bound_goals_refused(bounds, self_ty, i + 1);
    } else {
        assert(bounds.take(i) =~= bounds);
    }
}

impl InlineBound {
    /// Computes [`fold_inline_bound`].
    pub fn fold_with(&self, f: &Folder, outer: u32) -> (r: Option<InlineBound>)
        ensures
            agrees(r, fold_inline_bound(self@, f@, outer)),
    {
        match self {
            InlineBound::TraitBound { trait_id, args_no_self } => match fold_args_with(
                args_no_self,
                f,
                outer,
            ) {
                Some(a) => Some(InlineBound::TraitBound { trait_id: *trait_id, args_no_self: a }),
                None => None,
            },
            InlineBound::AliasEqBound {
                trait_id,
                args_no_self,
                associated_ty_id,
                parameters,
                value,
            } => {
                let a = match fold_args_with(args_no_self, f, outer) {
                    Some(a) => a,
                    None => {
                        return None;
                    },
                };
                let p = match fold_args_with(parameters, f, outer) {
                    Some(p) => p,
                    None => {
                        return None;
                    },
                };
                match value.fold_with(f, outer) {
                    Some(v) => Some(
                        InlineBound::AliasEqBound {
                            trait_id: *trait_id,
                            args_no_self: a,
                            associated_ty_id: *associated_ty_id,
                            parameters: p,
                            value: v,
                        },
                    ),
                    None => None,
                }
            },
        }
    }

    /// Builds [`inline_where_clauses`].
    pub fn into_where_clauses(&self, self_ty: &Ty) -> (r: Vec<WhereClause>)
        ensures
            r@.len() == inline_where_clauses(self@, self_ty@).len(),
            forall|i: int| 0 <= i < r@.len() ==> r[i]@ == inline_where_clauses(self@, self_ty@)[i],
    {
        let mut out: Vec<WhereClause> = Vec::new();
        match self {
            InlineBound::TraitBound { trait_id, args_no_self } => {
                out.push(WhereClause::Implemented(as_trait_ref(*trait_id, args_no_self, self_ty)));
            },
            InlineBound::AliasEqBound {
                trait_id,
                args_no_self,
                associated_ty_id,
                parameters,
                value,
            } => {
                let trait_ref = as_trait_ref(*trait_id, args_no_self, self_ty);
                let mut substitution = clone_args(parameters);
                let ghost head = args_model(substitution@);
                let mut i: usize = 0;
                while i < trait_ref.substitution.len()
                    invariant
                        i <= trait_ref.substitution.len(),
                        substitution.len() == head.len() + i,
                        forall|j: int| 0 <= j < head.len() ==> substitution[j]@ == head[j],
                        forall|j: int|
                            0 <= j < i ==> substitution[head.len() + j]@
                                == trait_ref.substitution[j]@,
                    decreases trait_ref.substitution.len() - i,
                {
                    substitution.push(trait_ref.substitution[i].dup());
                    i += 1;
                }
                proof {
                    assert(args_model(substitution@) =~= args_model(parameters@)
                        + trait_ref@.substitution);
                }
                out.push(WhereClause::Implemented(trait_ref));
                out.push(
                    WhereClause::AliasEq {
                        alias: AliasTy::Projection {
                            associated_ty_id: *associated_ty_id,
                            substitution,
                        },
                        ty: value.dup(),
                    },
                );
            },
        }
        out
    }
}

/// Builds [`bound_trait_ref`].
pub fn as_trait_ref(trait_id: TraitId, args_no_self: &Vec<GenericArg>, self_ty: &Ty) -> (r:
    TraitRef)
    ensures
        r@ == bound_trait_ref(trait_id, args_model(args_no_self@), self_ty@),
{
    let mut substitution: Vec<GenericArg> = Vec::new();
    substitution.push(GenericArg::Ty(self_ty.dup()));
    let mut i: usize = 0;
    while i < args_no_self.len()
        invariant
            i <= args_no_self.len(),
            substitution.len() == i + 1,
            substitution[0]@ == GenericArgModel::Ty(self_ty@),
            forall|j: int| 0 <= j < i ==> substitution[j + 1]@ == args_no_self[j]@,
        decreases args_no_self.len() - i,
    {
        substitution.push(args_no_self[i].dup());
        i += 1;
    }
    proof {
        assert(args_model(substitution@) =~= seq![GenericArgModel::Ty(self_ty@)] + args_model(
            args_no_self@,
        ));
    }
    TraitRef { trait_id, substitution }
}

impl QuantifiedInlineBound {
    /// Computes [`fold_qib`].
    pub fn fold_with(&self, f: &Folder, outer: u32) -> (r: Option<QuantifiedInlineBound>)
        ensures
            agrees(r, fold_qib(self@, f@, outer)),
    {
        match checked_enter_binder(outer) {
            Some(inner) => match self.value.fold_with(f, inner) {
                Some(b) => Some(
                    QuantifiedInlineBound { binders: clone_kinds(&self.binders), value: b },
                ),
                None => None,
            },
            None => None,
        }
    }

    /// Appends the goals of [`bound_goals_of`]; reports whether they exist.
    pub fn push_well_formed_goals(&self, self_ty: &Ty, goals: &mut Vec<Goal>) -> (ok: bool)
        ensures
            match bound_goals_of(self@, self_ty@) {
                Some(found) => ok && goals_model(final(goals)@) == goals_model(old(goals)@)
                    + found,
                None => !ok,
            },
    {
        let ghost before = goals_model(goals@);
        let inner = match self_ty.fold_with(&Folder::ShiftIn(1), 0) {
            Some(t) => t,
            None => {
                return false;
            },
        };
        let wcs = self.value.into_where_clauses(&inner);
        let mut i: usize = 0;
        while i < wcs.len()
            invariant
                i <= wcs.len(),
                goals.len() == before.len() + i,
                forall|j: int| 0 <= j < before.len() ==> goals[j]@ == before[j],
                forall|j: int|
                    0 <= j < i ==> goals[before.len() + j]@ == qwc_well_formed_goal(
                        QuantifiedWhereClauseModel { binders: self.binders@, value: wcs[j]@ },
                    ),
            decreases wcs.len() - i,
        {
            let clause = QuantifiedWhereClause {
                binders: clone_kinds(&self.binders),
                value: wcs[i].dup(),
            };
            goals.push(clause.into_well_formed_goal());
            i += 1;
        }
        proof {
            assert(goals_model(goals@) =~= before + bound_goals_of(self@, self_ty@)->0);
        }
        true
    }
}

/// Computes [`fold_qibs`].
pub fn fold_qibs_with(v: &Vec<QuantifiedInlineBound>, f: &Folder, outer: u32) -> (r: Option<
    Vec<QuantifiedInlineBound>,
>)
    ensures
        match r {
            Some(out) => fold_qibs(bounds_model(v@), f@, outer) == Some(bounds_model(out@)),
            None => fold_qibs(bounds_model(v@), f@, outer) is None,
        },
{
    let mut out: Vec<QuantifiedInlineBound> = Vec::new();
    let mut i: usize = 0;
    while i < v.len()
        invariant
            i <= v.len(),
            out.len() == i,
            forall|j: int|
                0 <= j < i ==> fold_qib(#[trigger] bounds_model(v@)[j], f@, outer) == Some(out[j]@),
        decreases v.len() - i,
    {
        match v[i].fold_with(f, outer) {
            Some(b) => out.push(b),
            None => {
                proof {
                    let s = bounds_model(v@);
                    assert(fold_qib(s[i as int], f@, outer) is None);
                }
                return None;
            },
        }
        i += 1;
    }
    proof {
        assert(fold_qibs(bounds_model(v@), f@, outer)->0 =~= bounds_model(out@));
    }
    Some(out)
}

/// Appends [`bound_goals`]; reports whether they exist.
pub fn push_bound_goals(
    bounds: &Vec<QuantifiedInlineBound>,
    self_ty: &Ty,
    goals: &mut Vec<Goal>,
) -> (ok: bool)
    ensures
        match bound_goals(bounds_model(bounds@), self_ty@) {
            Some(found) => ok && goals_model(final(goals)@) == goals_model(old(goals)@) + found,
            None => !ok,
        },
{
    let ghost before = goals_model(goals@);
    let ghost s = bounds_model(bounds@);
    proof {
        assert(s.take(0) =~= Seq::empty());
        assert(before + Seq::<GoalModel>::empty() =~= before);
    }
    let mut i: usize = 0;
    while i < bounds.len()
        invariant
            i <= bounds.len(),
            s == bounds_model(bounds@),
            bound_goals(s.take(i as int), self_ty@) is Some,
            goals_model(goals@) == before + bound_goals(s.take(i as int), self_ty@)->0,
        decreases bounds.len() - i,
    {
        let ghost mid = bound_goals(s.take(i as int), self_ty@)->0;
        let ok = bounds[i].push_well_formed_goals(self_ty, goals);
        proof {
            assert(s.take(i + 1).drop_last() =~= s.take(i as int));
        }
        if !ok {
            proof {
                lemma_bound_goals_refused(s, self_ty@, i + 1);
            }
            return false;
        }
        proof {
            let found = bound_goals_of(s[i as int], self_ty@)->0;
            assert((before + mid) + found =~= before + (mid + found));
        }
        i += 1;
    }
    proof {
        assert(s.take(i as int) =~= s);
    }
    true
}

} // verus!
