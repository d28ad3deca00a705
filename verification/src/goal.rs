//! Goals: what is handed to a solver. This crate only builds them.
use vstd::prelude::*;
use crate::ir::{
    GenericArg, GenericArgModel, QuantifiedWhereClause, QuantifiedWhereClauseModel, TraitRef,
    TraitRefModel, Ty, TyModel, VariableKind, WhereClause, WhereClauseModel,
};

verus! {

broadcast use vstd::std_specs::vec::group_vec_axioms;

/// Which quantifier a binder in a goal stands for.
#[derive(Clone, Copy, Debug, PartialEq, Eq, Structural, Hash)]
pub enum QuantifierKind {
    ForAll,
    Exists,
}

/// An atomic goal about the language rather than about logic.
#[derive(Debug, PartialEq, Eq)]
pub enum DomainGoal {
    /// The where-clause holds.
    Holds(WhereClause),
    /// The type is well-formed.
    WellFormedTy(Ty),
    /// The trait reference is well-formed.
    WellFormedTrait(TraitRef),
    /// The type's well-formedness may be assumed, with all it implies.
    FromEnvTy(Ty),
    /// The trait reference may be assumed, with all it implies.
    FromEnvTrait(TraitRef),
}

/// A hypothesis: a domain goal taken as a fact, possibly under a binder.
#[derive(Debug, PartialEq, Eq)]
pub enum ProgramClause {
    Implies(DomainGoal),
    ForAll { binders: Vec<VariableKind>, consequence: DomainGoal },
}

/// A goal tree.
#[derive(Debug, PartialEq, Eq)]
pub enum Goal {
    /// A binder over `goal`; variables of depth zero in `goal` refer to it.
    Quantified { kind: QuantifierKind, binders: Vec<VariableKind>, goal: Box<Goal> },
    /// `goal` under the hypotheses `clauses`.
    Implies { clauses: Vec<ProgramClause>, goal: Box<Goal> },
    /// The conjunction of the goals; empty, it is trivially true.
    All(Vec<Goal>),
    Not(Box<Goal>),
    /// The two arguments are equal.
    EqGoal { a: GenericArg, b: GenericArg },
    DomainGoal(DomainGoal),
    /// A goal that no solver can settle either way.
    CannotProve,
}

/// Model of [`DomainGoal`].
pub ghost enum DomainGoalModel {
    Holds(WhereClauseModel),
    WellFormedTy(TyModel),
    WellFormedTrait(TraitRefModel),
    FromEnvTy(TyModel),
    FromEnvTrait(TraitRefModel),
}

/// Model of [`ProgramClause`].
pub ghost enum ProgramClauseModel {
    Implies(DomainGoalModel),
    ForAll { binders: Seq<VariableKind>, consequence: DomainGoalModel },
}

/// Model of [`Goal`].
pub ghost enum GoalModel {
    Quantified { kind: QuantifierKind, binders: Seq<VariableKind>, goal: Box<GoalModel> },
    Implies { clauses: Seq<ProgramClauseModel>, goal: Box<GoalModel> },
    All(Seq<GoalModel>),
    Not(Box<GoalModel>),
    EqGoal { a: GenericArgModel, b: GenericArgModel },
    DomainGoal(DomainGoalModel),
    CannotProve,
}

impl DomainGoal {
    /// The value as the contracts speak of it.
    pub open spec fn model(self) -> DomainGoalModel {
        match self {
            DomainGoal::Holds(wc) => DomainGoalModel::Holds(wc@),
            DomainGoal::WellFormedTy(ty) => DomainGoalModel::WellFormedTy(ty@),
            DomainGoal::WellFormedTrait(tr) => DomainGoalModel::WellFormedTrait(tr@),
            DomainGoal::FromEnvTy(ty) => DomainGoalModel::FromEnvTy(ty@),
            DomainGoal::FromEnvTrait(tr) => DomainGoalModel::FromEnvTrait(tr@),
        }
    }
}

impl ProgramClause {
    /// The value as the contracts speak of it.
    pub open spec fn model(self) -> ProgramClauseModel {
        match self {
            ProgramClause::Implies(g) => ProgramClauseModel::Implies(g.model()),
            ProgramClause::ForAll { binders, consequence } => ProgramClauseModel::ForAll {
                binders: binders@,
                consequence: consequence.model(),
            },
        }
    }
}

/// Elementwise model of a list of hypotheses.
pub open spec fn clauses_model(s: Seq<ProgramClause>) -> Seq<ProgramClauseModel> {
    Seq::new(s.len(), |i: int| s[i].model())
}

/// Elementwise model of a list of goals.
pub open spec fn goals_model(s: Seq<Goal>) -> Seq<GoalModel>
    decreases s,
{
    Seq::new(
        s.len(),
        |i: int|
            if 0 <= i < s.len() {
                s[i].model()
            } else {
                arbitrary()
            },
    )
}

impl Goal {
    /// The value as the contracts speak of it.
    pub open spec fn model(self) -> GoalModel
        decreases self,
    {
        match self {
            Goal::Quantified { kind, binders, goal } => GoalModel::Quantified {
                kind,
                binders: binders@,
                goal: Box::new((*goal).model()),
            },
            Goal::Implies { clauses, goal } => GoalModel::Implies {
                clauses: clauses_model(clauses@),
                goal: Box::new((*goal).model()),
            },
            Goal::All(goals) => GoalModel::All(goals_model(goals@)),
            Goal::Not(goal) => GoalModel::Not(Box::new((*goal).model())),
            Goal::EqGoal { a, b } => GoalModel::EqGoal { a: a@, b: b@ },
            Goal::DomainGoal(g) => GoalModel::DomainGoal(g.model()),
            Goal::CannotProve => GoalModel::CannotProve,
        }
    }
}

impl View for DomainGoal {
    type V = DomainGoalModel;

    open spec fn view(&self) -> DomainGoalModel {
        self.model()
    }
}

impl View for ProgramClause {
    type V = ProgramClauseModel;

    open spec fn view(&self) -> ProgramClauseModel {
        self.model()
    }
}

impl View for Goal {
    type V = GoalModel;

    open spec fn view(&self) -> GoalModel {
        self.model()
    }
}

/// The conjunction of the goals: trivially true for none, the goal itself
/// for one, a conjunction node for more.
pub open spec fn all_of(goals: Seq<GoalModel>) -> GoalModel {
    if goals.len() == 1 {
        goals[0]
    } else {
        GoalModel::All(goals)
    }
}

/// `forall<binders> { goal }`.
pub open spec fn forall_goal(binders: Seq<VariableKind>, goal: GoalModel) -> GoalModel {
    GoalModel::Quantified { kind: QuantifierKind::ForAll, binders, goal: Box::new(goal) }
}

/// `exists<binders> { goal }`.
pub open spec fn exists_goal(binders: Seq<VariableKind>, goal: GoalModel) -> GoalModel {
    GoalModel::Quantified { kind: QuantifierKind::Exists, binders, goal: Box::new(goal) }
}

/// `if (clauses) { goal }`.
pub open spec fn implies_goal(clauses: Seq<ProgramClauseModel>, goal: GoalModel) -> GoalModel {
    GoalModel::Implies { clauses, goal: Box::new(goal) }
}

/// The well-formed form of a where-clause: a trait clause asks that the
/// trait reference be well-formed, any other clause that it hold.
pub open spec fn well_formed_form(wc: WhereClauseModel) -> DomainGoalModel {
    match wc {
        WhereClauseModel::Implemented(tr) => DomainGoalModel::WellFormedTrait(tr),
        _ => DomainGoalModel::Holds(wc),
    }
}

/// The from-env form of a where-clause: a trait clause may be assumed
/// with all it implies, any other clause just holds.
pub open spec fn from_env_form(wc: WhereClauseModel) -> DomainGoalModel {
    match wc {
        WhereClauseModel::Implemented(tr) => DomainGoalModel::FromEnvTrait(tr),
        _ => DomainGoalModel::Holds(wc),
    }
}

/// The goal that a quantified where-clause be well-formed.
pub open spec fn qwc_well_formed_goal(q: QuantifiedWhereClauseModel) -> GoalModel {
    forall_goal(q.binders, GoalModel::DomainGoal(well_formed_form(q.value)))
}

/// The hypothesis that a quantified where-clause is in the environment.
pub open spec fn qwc_from_env_clause(q: QuantifiedWhereClauseModel) -> ProgramClauseModel {
    ProgramClauseModel::ForAll { binders: q.binders, consequence: from_env_form(q.value) }
}

/// The goal that a type be well-formed.
pub open spec fn ty_well_formed_goal(t: TyModel) -> GoalModel {
    GoalModel::DomainGoal(DomainGoalModel::WellFormedTy(t))
}

/// The hypothesis that a type is well-formed.
pub open spec fn ty_from_env_clause(t: TyModel) -> ProgramClauseModel {
    ProgramClauseModel::Implies(DomainGoalModel::FromEnvTy(t))
}

/// The goal that a trait be implemented for a type.
pub open spec fn implemented_goal(trait_id: crate::ir::TraitId, ty: TyModel) -> GoalModel {
    GoalModel::DomainGoal(
        DomainGoalModel::Holds(
            WhereClauseModel::Implemented(
                TraitRefModel { trait_id, substitution: seq![GenericArgModel::Ty(ty)] },
            ),
        ),
    )
}

impl Goal {
    /// Builds [`all_of`].
    pub fn all(goals: Vec<Goal>) -> (r: Goal)
        ensures
            r@ == all_of(goals_model(goals@)),
    {
        let mut goals = goals;
        if goals.len() == 1 {
            match goals.pop() {
                Some(g) => g,
                None => Goal::All(goals),
            }
        } else {
            Goal::All(goals)
        }
    }

    /// Builds [`forall_goal`].
    pub fn for_all(binders: Vec<VariableKind>, goal: Goal) -> (r: Goal)
        ensures
            r@ == forall_goal(binders@, goal@),
    {
        Goal::Quantified { kind: QuantifierKind::ForAll, binders, goal: Box::new(goal) }
    }

    /// Builds [`exists_goal`].
    pub fn there_exists(binders: Vec<VariableKind>, goal: Goal) -> (r: Goal)
        ensures
            r@ == exists_goal(binders@, goal@),
    {
        Goal::Quantified { kind: QuantifierKind::Exists, binders, goal: Box::new(goal) }
    }

    /// Builds [`implies_goal`].
    pub fn implies(clauses: Vec<ProgramClause>, goal: Goal) -> (r: Goal)
        ensures
            r@ == implies_goal(clauses_model(clauses@), goal@),
    {
        Goal::Implies { clauses, goal: Box::new(goal) }
    }

    /// Builds [`implemented_goal`].
    pub fn implemented(trait_id: crate::ir::TraitId, ty: Ty) -> (r: Goal)
        ensures
            r@ == implemented_goal(trait_id, ty@),
    {
        let ghost m = ty@;
        let mut substitution: Vec<GenericArg> = Vec::new();
        substitution.push(GenericArg::Ty(ty));
        let r = Goal::DomainGoal(
            DomainGoal::Holds(WhereClause::Implemented(TraitRef { trait_id, substitution })),
        );
        proof {
            assert(crate::ir::args_model(substitution@) =~= seq![GenericArgModel::Ty(m)]);
        }
        r
    }
}

impl WhereClause {
    /// Builds [`well_formed_form`].
    pub fn into_well_formed_goal(self) -> (r: DomainGoal)
        ensures
            r@ == well_formed_form(self@),
    {
        match self {
            WhereClause::Implemented(trait_ref) => DomainGoal::WellFormedTrait(trait_ref),
            wc => DomainGoal::Holds(wc),
        }
    }

    /// Builds [`from_env_form`].
    pub fn into_from_env_goal(self) -> (r: DomainGoal)
        ensures
            r@ == from_env_form(self@),
    {
        match self {
            WhereClause::Implemented(trait_ref) => DomainGoal::FromEnvTrait(trait_ref),
            wc => DomainGoal::Holds(wc),
        }
    }
}

impl QuantifiedWhereClause {
    /// Builds [`qwc_well_formed_goal`].
    pub fn into_well_formed_goal(self) -> (r: Goal)
        ensures
            r@ == qwc_well_formed_goal(self@),
    {
        let QuantifiedWhereClause { binders, value } = self;
        Goal::for_all(binders, Goal::DomainGoal(value.into_well_formed_goal()))
    }

    /// Builds [`qwc_from_env_clause`].
    pub fn into_from_env_clause(self) -> (r: ProgramClause)
        ensures
            r@ == qwc_from_env_clause(self@),
    {
        let QuantifiedWhereClause { binders, value } = self;
        ProgramClause::ForAll { binders, consequence: value.into_from_env_goal() }
    }
}

} // verus!
