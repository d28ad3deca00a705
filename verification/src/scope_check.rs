//! Deciding which binders a term refers to.
use vstd::prelude::*;
use crate::bound::{bounds_model, InlineBound, QuantifiedInlineBound};
use crate::decl::{AdtDatum, AssociatedTyDatum, AssociatedTyValue, Database, ImplDatum};
use crate::goal::{clauses_model, goals_model, DomainGoal, Goal, GoalModel, ProgramClause};
use crate::index::checked_enter_binder;
use crate::ir::{
    args_model, qwcs_model, tys_model, AliasTy, GenericArg, Lifetime, QuantifiedWhereClause,
    TraitRef, Ty, WhereClause,
};
use crate::scope::{
    adt_is_scoped, alias_within, arg_within, args_within, associated_ty_is_scoped,
    domain_goal_within, goal_within, goals_within, impl_is_scoped, inline_bound_within, is_closed,
    lifetime_within, program_clause_within, program_clauses_within, qib_within, qibs_within,
    qwc_within, qwcs_within, trait_ref_within, ty_within, tys_within, value_is_scoped,
    where_clause_within,
};
use crate::scope_laws::{
    lemma_args_within_beyond, lemma_inline_bound_within_beyond, lemma_qwcs_within_beyond,
    lemma_trait_ref_within_beyond, lemma_ty_within_beyond, lemma_where_clause_within_beyond,
};

verus! {

broadcast use vstd::std_specs::vec::group_vec_axioms;

impl Lifetime {
    /// Decides [`lifetime_within`].
    pub fn is_within(&self, depth: u32) -> (r: bool)
        ensures
            r == lifetime_within(*self, depth as int),
    {
        match self {
            Lifetime::BoundVar(bv) => bv.debruijn < depth,
            _ => true,
        }
    }
}

impl Ty {
    /// Decides [`ty_within`].
    pub fn is_within(&self, depth: u32) -> (r: bool)
        ensures
            r == ty_within(self@, depth as int),
        decreases *self,
    {
        match self {
            Ty::Apply { name, substitution } => args_are_within(substitution, depth),
            Ty::Dyn { binders, bounds } => match checked_enter_binder(depth) {
                Some(inner) => qwcs_are_within(bounds, inner),
                None => {
                    proof {
                        lemma_qwcs_within_beyond(qwcs_model(bounds@), depth + 1);
                    }
                    true
                },
            },
            Ty::Alias(alias) => alias.is_within(depth),
            Ty::Placeholder(_) => true,
            Ty::BoundVar(bv) => bv.debruijn < depth,
            Ty::Function { num_binders, substitution } => match checked_enter_binder(depth) {
                Some(inner) => args_are_within(substitution, inner),
                None => {
                    proof {
                        lemma_args_within_beyond(args_model(substitution@), depth + 1);
                    }
                    true
                },
            },
            Ty::InferenceVar(..) => true,
        }
    }
}

impl GenericArg {
    /// Decides [`arg_within`].
    pub fn is_within(&self, depth: u32) -> (r: bool)
        ensures
            r == arg_within(self@, depth as int),
        decreases *self,
    {
        match self {
            GenericArg::Ty(t) => t.is_within(depth),
            GenericArg::Lifetime(l) => l.is_within(depth),
        }
    }
}

impl AliasTy {
    /// Decides [`alias_within`].
    pub fn is_within(&self, depth: u32) -> (r: bool)
        ensures
            r == alias_within(self@, depth as int),
        decreases *self,
    {
        match self {
            AliasTy::Projection { associated_ty_id, substitution } => args_are_within(
                substitution,
                depth,
            ),
            AliasTy::Opaque { opaque_ty_id, substitution } => args_are_within(substitution, depth),
        }
    }
}

impl TraitRef {
    /// Decides [`trait_ref_within`].
    pub fn is_within(&self, depth: u32) -> (r: bool)
        ensures
            r == trait_ref_within(self@, depth as int),
        decreases *self,
    {
        args_are_within(&self.substitution, depth)
    }
}

impl WhereClause {
    /// Decides [`where_clause_within`].
    pub fn is_within(&self, depth: u32) -> (r: bool)
        ensures
            r == where_clause_within(self@, depth as int),
        decreases *self,
    {
        match self {
            WhereClause::Implemented(trait_ref) => trait_ref.is_within(depth),
            WhereClause::AliasEq { alias, ty } => alias.is_within(depth) && ty.is_within(depth),
        }
    }
}

impl QuantifiedWhereClause {
    /// Decides [`qwc_within`].
    pub fn is_within(&self, depth: u32) -> (r: bool)
        ensures
            r == qwc_within(self@, depth as int),
        decreases *self,
    {
        match checked_enter_binder(depth) {
            Some(inner) => self.value.is_within(inner),
            None => {
                proof {
                    lemma_where_clause_within_beyond(self.value@, depth + 1);
                }
                true
            },
        }
    }
}

/// Decides [`args_within`].
pub fn args_are_within(v: &Vec<GenericArg>, depth: u32) -> (r: bool)
    ensures
        r == args_within(args_model(v@), depth as int),
    decreases *v,
{
    let mut i: usize = 0;
    while i < v.len()
        invariant
            i <= v.len(),
            forall|j: int| 0 <= j < i ==> arg_within(#[trigger] args_model(v@)[j], depth as int),
        decreases v.len() - i,
    {
        if !v[i].is_within(depth) {
            assert(!arg_within(args_model(v@)[i as int], depth as int));
            return false;
        }
        i += 1;
    }
    true
}

/// Decides [`qwcs_within`].
pub fn qwcs_are_within(v: &Vec<QuantifiedWhereClause>, depth: u32) -> (r: bool)
    ensures
        r == qwcs_within(qwcs_model(v@), depth as int),
    decreases *v,
{
    let mut i: usize = 0;
    while i < v.len()
        invariant
            i <= v.len(),
            forall|j: int| 0 <= j < i ==> qwc_within(#[trigger] qwcs_model(v@)[j], depth as int),
        decreases v.len() - i,
    {
        if !v[i].is_within(depth) {
            assert(!qwc_within(qwcs_model(v@)[i as int], depth as int));
            return false;
        }
        i += 1;
    }
    true
}

/// Decides [`tys_within`].
pub fn tys_are_within(v: &Vec<Ty>, depth: u32) -> (r: bool)
    ensures
        r == tys_within(tys_model(v@), depth as int),
{
    let mut i: usize = 0;
    while i < v.len()
        invariant
            i <= v.len(),
            forall|j: int| 0 <= j < i ==> ty_within(#[trigger] tys_model(v@)[j], depth as int),
        decreases v.len() - i,
    {
        if !v[i].is_within(depth) {
            assert(!ty_within(tys_model(v@)[i as int], depth as int));
            return false;
        }
        i += 1;
    }
    true
}

impl InlineBound {
    /// Decides [`inline_bound_within`].
    pub fn is_within(&self, depth: u32) -> (r: bool)
        ensures
            r == inline_bound_within(self@, depth as int),
    {
        match self {
            InlineBound::TraitBound { trait_id, args_no_self } => args_are_within(
                args_no_self,
                depth,
            ),
            InlineBound::AliasEqBound {
                trait_id,
                args_no_self,
                associated_ty_id,
                parameters,
                value,
            } => args_are_within(args_no_self, depth) && args_are_within(parameters, depth)
                && value.is_within(depth),
        }
    }
}

impl QuantifiedInlineBound {
    /// Decides [`qib_within`].
    pub fn is_within(&self, depth: u32) -> (r: bool)
        ensures
            r == qib_within(self@, depth as int),
    {
        match checked_enter_binder(depth) {
            Some(inner) => self.value.is_within(inner),
            None => {
                proof {
                    lemma_inline_bound_within_beyond(self.value@, depth + 1);
                }
                true
            },
        }
    }
}

/// Decides [`qibs_within`].
pub fn qibs_are_within(v: &Vec<QuantifiedInlineBound>, depth: u32) -> (r: bool)
    ensures
        r == qibs_within(bounds_model(v@), depth as int),
{
    let mut i: usize = 0;
    while i < v.len()
        invariant
            i <= v.len(),
            forall|j: int| 0 <= j < i ==> qib_within(#[trigger] bounds_model(v@)[j], depth as int),
        decreases v.len() - i,
    {
        if !v[i].is_within(depth) {
            assert(!qib_within(bounds_model(v@)[i as int], depth as int));
            return false;
        }
        i += 1;
    }
    true
}

/// A domain goal is within any number of binders beyond `u32`.
proof fn lemma_domain_goal_within_beyond(g: crate::goal::DomainGoalModel, d: int)
    requires
        d > u32::MAX,
    ensures
        domain_goal_within(g, d),
{
    match g {
        crate::goal::DomainGoalModel::Holds(wc) => {
            lemma_where_clause_within_beyond(wc, d);
        },
        crate::goal::DomainGoalModel::WellFormedTy(ty) => {
            lemma_ty_within_beyond(ty, d);
        },
        crate::goal::DomainGoalModel::WellFormedTrait(tr) => {
            lemma_trait_ref_within_beyond(tr, d);
        },
        crate::goal::DomainGoalModel::FromEnvTy(ty) => {
            lemma_ty_within_beyond(ty, d);
        },
        crate::goal::DomainGoalModel::FromEnvTrait(tr) => {
            lemma_trait_ref_within_beyond(tr, d);
        },
    }
}

/// A goal is within any number of binders beyond `u32`.
proof fn lemma_goal_within_beyond(g: GoalModel, d: int)
    requires
        d > u32::MAX,
    ensures
        goal_within(g, d),
    decreases g,
{
    match g {
        GoalModel::Quantified { kind, binders, goal } => {
            lemma_goal_within_beyond(*goal, d + 1);
        },
        GoalModel::Implies { clauses, goal } => {
            assert forall|i: int| 0 <= i < clauses.len() implies program_clause_within(
                #[trigger] clauses[i],
                d,
            ) by {
                match clauses[i] {
                    crate::goal::ProgramClauseModel::Implies(c) => {
                        lemma_domain_goal_within_beyond(c, d);
                    },
                    crate::goal::ProgramClauseModel::ForAll { binders, consequence } => {
                        lemma_domain_goal_within_beyond(consequence, d + 1);
                    },
                }
            }
            assert(program_clauses_within(clauses, d));
            lemma_goal_within_beyond(*goal, d);
        },
        GoalModel::All(goals) => {
            assert forall|i: int| 0 <= i < goals.len() implies goal_within(
                #[trigger] goals[i],
                d,
            ) by {
                lemma_goal_within_beyond(goals[i], d);
            }
            assert(goals_within(goals, d));
        },
        GoalModel::Not(goal) => {
            lemma_goal_within_beyond(*goal, d);
        },
        GoalModel::EqGoal { a, b } => {
            crate::scope_laws::lemma_arg_within_beyond(a, d);
            crate::scope_laws::lemma_arg_within_beyond(b, d);
        },
        GoalModel::DomainGoal(g) => {
            lemma_domain_goal_within_beyond(g, d);
        },
        GoalModel::CannotProve => {},
    }
}

impl DomainGoal {
    /// Decides [`domain_goal_within`].
    pub fn is_within(&self, depth: u32) -> (r: bool)
        ensures
            r == domain_goal_within(self@, depth as int),
    {
        match self {
            DomainGoal::Holds(wc) => wc.is_within(depth),
            DomainGoal::WellFormedTy(ty) => ty.is_within(depth),
            DomainGoal::WellFormedTrait(tr) => tr.is_within(depth),
            DomainGoal::FromEnvTy(ty) => ty.is_within(depth),
            DomainGoal::FromEnvTrait(tr) => tr.is_within(depth),
        }
    }
}

impl ProgramClause {
    /// Decides [`program_clause_within`].
    pub fn is_within(&self, depth: u32) -> (r: bool)
        ensures
            r == program_clause_within(self@, depth as int),
    {
        match self {
            ProgramClause::Implies(g) => g.is_within(depth),
            ProgramClause::ForAll { binders, consequence } => match checked_enter_binder(depth) {
                Some(inner) => consequence.is_within(inner),
                None => {
                    proof {
                        lemma_domain_goal_within_beyond(consequence@, depth + 1);
                    }
                    true
                },
            },
        }
    }
}

/// Decides [`program_clauses_within`].
pub fn clauses_are_within(v: &Vec<ProgramClause>, depth: u32) -> (r: bool)
    ensures
        r == program_clauses_within(clauses_model(v@), depth as int),
{
    let mut i: usize = 0;
    while i < v.len()
        invariant
            i <= v.len(),
            forall|j: int|
                0 <= j < i ==> program_clause_within(
                    #[trigger] clauses_model(v@)[j],
                    depth as int,
                ),
        decreases v.len() - i,
    {
        if !v[i].is_within(depth) {
            assert(!program_clause_within(clauses_model(v@)[i as int], depth as int));
            return false;
        }
        i += 1;
    }
    true
}

impl Goal {
    /// Decides [`goal_within`].
    pub fn is_within(&self, depth: u32) -> (r: bool)
        ensures
            r == goal_within(self@, depth as int),
        decreases *self,
    {
        match self {
            Goal::Quantified { kind, binders, goal } => match checked_enter_binder(depth) {
                Some(inner) => goal.is_within(inner),
                None => {
                    proof {
                        lemma_goal_within_beyond(goal@, depth + 1);
                    }
                    true
                },
            },
            Goal::Implies { clauses, goal } => clauses_are_within(clauses, depth)
                && goal.is_within(depth),
            Goal::All(goals) => goals_are_within(goals, depth),
            Goal::Not(goal) => goal.is_within(depth),
            Goal::EqGoal { a, b } => a.is_within(depth) && b.is_within(depth),
            Goal::DomainGoal(g) => g.is_within(depth),
            Goal::CannotProve => true,
        }
    }

    /// Decides [`is_closed`].
    pub fn is_closed(&self) -> (r: bool)
        ensures
            r == is_closed(self@),
    {
        self.is_within(0)
    }
}

/// Decides [`goals_within`].
pub fn goals_are_within(v: &Vec<Goal>, depth: u32) -> (r: bool)
    ensures
        r == goals_within(goals_model(v@), depth as int),
    decreases *v,
{
    let mut i: usize = 0;
    while i < v.len()
        invariant
            i <= v.len(),
            forall|j: int| 0 <= j < i ==> goal_within(#[trigger] goals_model(v@)[j], depth as int),
        decreases v.len() - i,
    {
        if !v[i].is_within(depth) {
            assert(!goal_within(goals_model(v@)[i as int], depth as int));
            return false;
        }
        i += 1;
    }
    true
}

impl AdtDatum {
    /// Decides [`adt_is_scoped`].
    pub fn is_scoped(&self) -> (r: bool)
        ensures
            r == adt_is_scoped(*self),
    {
        tys_are_within(&self.fields, 1) && qwcs_are_within(&self.where_clauses, 1)
    }
}

impl ImplDatum {
    /// Decides [`impl_is_scoped`].
    pub fn is_scoped(&self) -> (r: bool)
        ensures
            r == impl_is_scoped(*self),
    {
        self.trait_ref.is_within(1) && qwcs_are_within(&self.where_clauses, 1)
    }
}

impl AssociatedTyValue {
    /// Decides [`value_is_scoped`].
    pub fn is_scoped(&self) -> (r: bool)
        ensures
            r == value_is_scoped(*self),
    {
        self.ty.is_within(1)
    }
}

impl AssociatedTyDatum {
    /// Decides [`associated_ty_is_scoped`].
    pub fn is_scoped(&self) -> (r: bool)
        ensures
            r == associated_ty_is_scoped(*self),
    {
        qibs_are_within(&self.bounds, 1) && qwcs_are_within(&self.where_clauses, 1)
    }
}

impl Database {
    /// Decides [`Database::well_scoped`].
    pub fn is_well_scoped(&self) -> (r: bool)
        ensures
            r == self.well_scoped(),
    {
        let mut i: usize = 0;
        while i < self.adts.len()
            invariant
                i <= self.adts.len(),
                forall|j: int| 0 <= j < i ==> adt_is_scoped(#[trigger] self.adts[j]),
            decreases self.adts.len() - i,
        {
            if !self.adts[i].is_scoped() {
                return false;
            }
            i += 1;
        }
        let mut i: usize = 0;
        while i < self.impls.len()
            invariant
                i <= self.impls.len(),
                forall|j: int| 0 <= j < i ==> impl_is_scoped(#[trigger] self.impls[j]),
            decreases self.impls.len() - i,
        {
            if !self.impls[i].is_scoped() {
                return false;
            }
            i += 1;
        }
        let mut i: usize = 0;
        while i < self.associated_ty_values.len()
            invariant
                i <= self.associated_ty_values.len(),
                forall|j: int|
                    0 <= j < i ==> value_is_scoped(#[trigger] self.associated_ty_values[j]),
            decreases self.associated_ty_values.len() - i,
        {
            if !self.associated_ty_values[i].is_scoped() {
                return false;
            }
            i += 1;
        }
        let mut i: usize = 0;
        while i < self.associated_tys.len()
            invariant
                i <= self.associated_tys.len(),
                forall|j: int|
                    0 <= j < i ==> associated_ty_is_scoped(#[trigger] self.associated_tys[j]),
            decreases self.associated_tys.len() - i,
        {
            if !self.associated_tys[i].is_scoped() {
                return false;
            }
            i += 1;
        }
        true
    }
}

} // verus!
