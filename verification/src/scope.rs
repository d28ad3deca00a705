//! Which binders a term refers to.
//!
//! A term is within `depth` when each of its variables refers either to a
//! binder inside the term or to one of the `depth` binders around it. A
//! term within zero is closed.
use vstd::prelude::*;
use crate::bound::{bounds_model, InlineBoundModel, QuantifiedInlineBoundModel};
use crate::decl::{AdtDatum, AssociatedTyDatum, AssociatedTyValue, Database, ImplDatum};
use crate::goal::{DomainGoalModel, GoalModel, ProgramClauseModel};
use crate::ir::{
    qwcs_model, tys_model, AliasTyModel, GenericArgModel, Lifetime, QuantifiedWhereClauseModel,
    TraitRefModel, TyModel, WhereClauseModel,
};

verus! {

/// The lifetime, if a variable, refers to one of the `depth` binders
/// around it.
pub open spec fn lifetime_within(l: Lifetime, depth: int) -> bool {
    match l {
        Lifetime::BoundVar(bv) => bv.debruijn < depth,
        _ => true,
    }
}

/// Every variable of the type refers to a binder inside the type or to
/// one of the `depth` binders around it.
pub open spec fn ty_within(t: TyModel, depth: int) -> bool
    decreases t,
{
    match t {
        TyModel::Apply { name, substitution } => args_within(substitution, depth),
        TyModel::Dyn { binders, bounds } => qwcs_within(bounds, depth + 1),
        TyModel::Alias(alias) => alias_within(alias, depth),
        TyModel::Placeholder(_) => true,
        TyModel::BoundVar(bv) => bv.debruijn < depth,
        TyModel::Function { num_binders, substitution } => args_within(substitution, depth + 1),
        TyModel::InferenceVar(..) => true,
    }
}

/// The generic argument is within `depth`, as the type or lifetime it is.
pub open spec fn arg_within(a: GenericArgModel, depth: int) -> bool
    decreases a,
{
    match a {
        GenericArgModel::Ty(t) => ty_within(t, depth),
        GenericArgModel::Lifetime(l) => lifetime_within(l, depth),
    }
}

/// Every argument is within `depth`.
pub open spec fn args_within(s: Seq<GenericArgModel>, depth: int) -> bool
    decreases s,
{
    forall|i: int| 0 <= i < s.len() ==> arg_within(#[trigger] s[i], depth)
}

/// The arguments of the alias are within `depth`.
pub open spec fn alias_within(a: AliasTyModel, depth: int) -> bool
    decreases a,
{
    match a {
        AliasTyModel::Projection { associated_ty_id, substitution } => args_within(
            substitution,
            depth,
        ),
        AliasTyModel::Opaque { opaque_ty_id, substitution } => args_within(substitution, depth),
    }
}

/// The arguments of the trait reference are within `depth`.
pub open spec fn trait_ref_within(t: TraitRefModel, depth: int) -> bool
    decreases t,
{
    args_within(t.substitution, depth)
}

/// Both sides of an alias equality, or the trait reference, are within
/// `depth`.
pub open spec fn where_clause_within(w: WhereClauseModel, depth: int) -> bool
    decreases w,
{
    match w {
        WhereClauseModel::Implemented(trait_ref) => trait_ref_within(trait_ref, depth),
        WhereClauseModel::AliasEq { alias, ty } => alias_within(alias, depth) && ty_within(
            ty,
            depth,
        ),
    }
}

/// The clause's own binder counts as one more around its body.
pub open spec fn qwc_within(q: QuantifiedWhereClauseModel, depth: int) -> bool
    decreases q,
{
    where_clause_within(q.value, depth + 1)
}

/// Every clause is within `depth`.
pub open spec fn qwcs_within(s: Seq<QuantifiedWhereClauseModel>, depth: int) -> bool
    decreases s,
{
    forall|i: int| 0 <= i < s.len() ==> qwc_within(#[trigger] s[i], depth)
}

/// Every type is within `depth`.
pub open spec fn tys_within(s: Seq<TyModel>, depth: int) -> bool {
    forall|i: int| 0 <= i < s.len() ==> ty_within(#[trigger] s[i], depth)
}

/// What the bound mentions is within `depth`.
pub open spec fn inline_bound_within(b: InlineBoundModel, depth: int) -> bool {
    match b {
        InlineBoundModel::TraitBound { trait_id, args_no_self } => args_within(
            args_no_self,
            depth,
        ),
        InlineBoundModel::AliasEqBound {
            trait_id,
            args_no_self,
            associated_ty_id,
            parameters,
            value,
        } => args_within(args_no_self, depth) && args_within(parameters, depth) && ty_within(
            value,
            depth,
        ),
    }
}

/// The bound's own binder counts as one more around its body.
pub open spec fn qib_within(q: QuantifiedInlineBoundModel, depth: int) -> bool {
    inline_bound_within(q.value, depth + 1)
}

/// Every bound is within `depth`.
pub open spec fn qibs_within(s: Seq<QuantifiedInlineBoundModel>, depth: int) -> bool {
    forall|i: int| 0 <= i < s.len() ==> qib_within(#[trigger] s[i], depth)
}

/// What the domain goal is about is within `depth`.
pub open spec fn domain_goal_within(g: DomainGoalModel, depth: int) -> bool {
    match g {
        DomainGoalModel::Holds(wc) => where_clause_within(wc, depth),
        DomainGoalModel::WellFormedTy(ty) => ty_within(ty, depth),
        DomainGoalModel::WellFormedTrait(tr) => trait_ref_within(tr, depth),
        DomainGoalModel::FromEnvTy(ty) => ty_within(ty, depth),
        DomainGoalModel::FromEnvTrait(tr) => trait_ref_within(tr, depth),
    }
}

/// The consequence is within `depth`, counting the clause's binder if it
/// has one.
pub open spec fn program_clause_within(c: ProgramClauseModel, depth: int) -> bool {
    match c {
        ProgramClauseModel::Implies(g) => domain_goal_within(g, depth),
        ProgramClauseModel::ForAll { binders, consequence } => domain_goal_within(
            consequence,
            depth + 1,
        ),
    }
}

/// Every hypothesis is within `depth`.
pub open spec fn program_clauses_within(s: Seq<ProgramClauseModel>, depth: int) -> bool {
    forall|i: int| 0 <= i < s.len() ==> program_clause_within(#[trigger] s[i], depth)
}

/// Every variable of the goal refers to a quantifier of the goal or to
/// one of the `depth` binders around it.
pub open spec fn goal_within(g: GoalModel, depth: int) -> bool
    decreases g,
{
    match g {
        GoalModel::Quantified { kind, binders, goal } => goal_within(*goal, depth + 1),
        GoalModel::Implies { clauses, goal } => program_clauses_within(clauses, depth)
            && goal_within(*goal, depth),
        GoalModel::All(goals) => goals_within(goals, depth),
        GoalModel::Not(goal) => goal_within(*goal, depth),
        GoalModel::EqGoal { a, b } => arg_within(a, depth) && arg_within(b, depth),
        GoalModel::DomainGoal(g) => domain_goal_within(g, depth),
        GoalModel::CannotProve => true,
    }
}

/// Every goal is within `depth`.
pub open spec fn goals_within(s: Seq<GoalModel>, depth: int) -> bool
    decreases s,
{
    forall|i: int| 0 <= i < s.len() ==> goal_within(#[trigger] s[i], depth)
}

/// No variable of the goal is free.
pub open spec fn is_closed(g: GoalModel) -> bool {
    goal_within(g, 0)
}

/// The body of the declaration refers to no binder but the declaration's.
pub open spec fn adt_is_scoped(adt: AdtDatum) -> bool {
    &&& tys_within(tys_model(adt.fields@), 1)
    &&& qwcs_within(qwcs_model(adt.where_clauses@), 1)
}

/// The header of the impl refers to no binder but the impl's.
pub open spec fn impl_is_scoped(impl_datum: ImplDatum) -> bool {
    &&& trait_ref_within(impl_datum.trait_ref@, 1)
    &&& qwcs_within(qwcs_model(impl_datum.where_clauses@), 1)
}

/// The value refers to no binder but its own.
pub open spec fn value_is_scoped(value: AssociatedTyValue) -> bool {
    ty_within(value.ty@, 1)
}

/// The bounds and where-clauses of the associated type refer to no binder
/// but the associated type's.
pub open spec fn associated_ty_is_scoped(datum: AssociatedTyDatum) -> bool {
    &&& qibs_within(bounds_model(datum.bounds@), 1)
    &&& qwcs_within(qwcs_model(datum.where_clauses@), 1)
}

impl Database {
    /// Every declaration of the store refers to no binder but its own.
    pub open spec fn well_scoped(self) -> bool {
        &&& forall|i: int| 0 <= i < self.adts.len() ==> adt_is_scoped(#[trigger] self.adts[i])
        &&& forall|i: int| 0 <= i < self.impls.len() ==> impl_is_scoped(#[trigger] self.impls[i])
        &&& forall|i: int|
            0 <= i < self.associated_ty_values.len() ==> value_is_scoped(
                #[trigger] self.associated_ty_values[i],
            )
        &&& forall|i: int|
            0 <= i < self.associated_tys.len() ==> associated_ty_is_scoped(
                #[trigger] self.associated_tys[i],
            )
    }
}

} // verus!
