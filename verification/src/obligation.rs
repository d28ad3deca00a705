//! The obligations of type declarations and of impl headers.
use vstd::prelude::*;
use crate::closed_laws::law_adt_goal_is_closed;
use crate::scope::{adt_is_scoped, is_closed};
use crate::builtin::{inside_constraint, outside_constraint, sized_constraint, WfWellKnownGoals};
use crate::collect::{types_in_decl, types_in_ty, types_in_where_clauses, InputTypeCollector};
use crate::decl::{first_type, AdtDatum, Database, ImplDatum};
use crate::goal::{
    all_of, clauses_model, forall_goal, goals_model, implies_goal, qwc_from_env_clause,
    ty_from_env_clause, ty_well_formed_goal, DomainGoal, DomainGoalModel, Goal, GoalModel,
    ProgramClause, ProgramClauseModel,
};
use crate::ir::{
    clone_kinds, qwcs_model, tys_model, AdtId, ImplId, QuantifiedWhereClause,
    QuantifiedWhereClauseModel, TraitRef, TraitRefModel, Ty, TyModel,
};
use crate::violation::{yields, InvariantViolation};

verus! {

broadcast use vstd::std_specs::vec::group_vec_axioms;

/// `WellFormed(t)` for each of the types.
pub open spec fn well_formed_all(tys: Seq<TyModel>) -> Seq<GoalModel> {
    Seq::new(tys.len(), |i: int| ty_well_formed_goal(tys[i]))
}

/// `FromEnv(t)` for each of the types.
pub open spec fn from_env_types(tys: Seq<TyModel>) -> Seq<ProgramClauseModel> {
    Seq::new(tys.len(), |i: int| ty_from_env_clause(tys[i]))
}

/// The from-env hypothesis of each where-clause.
pub open spec fn from_env_all(wcs: Seq<QuantifiedWhereClauseModel>) -> Seq<ProgramClauseModel> {
    Seq::new(wcs.len(), |i: int| qwc_from_env_clause(wcs[i]))
}

/// A goal that may be absent, as a list.
pub open spec fn optional(g: Option<GoalModel>) -> Seq<GoalModel> {
    match g {
        Some(x) => seq![x],
        None => Seq::empty(),
    }
}

/// The obligation of a type declaration:
/// `forall<P> { if (FromEnv(W)) { WellFormed(input types of F and W), Sized tail } }`.
/// `None` where the traversal of the declaration refuses.
pub open spec fn adt_wf_goal(db: Database, adt: AdtDatum) -> Option<GoalModel> {
    let fields = tys_model(adt.fields@);
    let wcs = qwcs_model(adt.where_clauses@);
    match types_in_decl(fields, wcs) {
        Some(types) => Some(
            forall_goal(
                adt.binders@,
                implies_goal(
                    from_env_all(wcs),
                    all_of(well_formed_all(types) + optional(sized_constraint(db, fields))),
                ),
            ),
        ),
        None => None,
    }
}

/// What an impl may assume of itself: its where-clauses, and the
/// well-formedness of the input types of its self type. The other
/// arguments of the trait reference add nothing. `None` where the trait
/// reference has no self type or the traversal of the self type refuses.
pub open spec fn impl_environment(
    wcs: Seq<QuantifiedWhereClauseModel>,
    trait_ref: TraitRefModel,
) -> Option<Seq<ProgramClauseModel>> {
    match first_type(trait_ref.substitution) {
        Some(self_ty) => match types_in_ty(self_ty) {
            Some(types) => Some(from_env_all(wcs) + from_env_types(types)),
            None => None,
        },
        None => None,
    }
}

/// What the header of a positive impl has to show under its environment.
pub open spec fn header_body(
    db: Database,
    wcs: Seq<QuantifiedWhereClauseModel>,
    trait_ref: TraitRefModel,
) -> Option<GoalModel> {
    match (types_in_where_clauses(wcs), inside_constraint(db, trait_ref)) {
        (Some(types), Some(inside)) => Some(
            all_of(
                well_formed_all(types) + seq![
                    GoalModel::DomainGoal(DomainGoalModel::WellFormedTrait(trait_ref)),
                ] + optional(inside),
            ),
        ),
        _ => None,
    }
}

/// The obligation of an impl's header. A negative impl has none. For a
/// positive impl it is
/// `forall<P> { if (environment) { WellFormed(input types of W), WellFormed(R), inside rule } }`
/// together with the outside rule, which stands under no hypothesis.
/// `None` where a traversal refuses or a rule is undefined.
pub open spec fn impl_header_goal(db: Database, impl_datum: ImplDatum) -> Option<
    Option<GoalModel>,
> {
    let wcs = qwcs_model(impl_datum.where_clauses@);
    let trait_ref = impl_datum.trait_ref@;
    if !impl_datum.is_positive_spec() {
        Some(None)
    } else {
        match (
            impl_environment(wcs, trait_ref),
            header_body(db, wcs, trait_ref),
            outside_constraint(db, impl_datum),
        ) {
            (Some(env), Some(body), Some(outside)) => Some(
                Some(
                    all_of(
                        seq![forall_goal(impl_datum.binders@, implies_goal(env, body))] + optional(
                            outside,
                        ),
                    ),
                ),
            ),
            _ => None,
        }
    }
}

/// Appends `WellFormed(t)` for each of the types.
pub fn push_well_formed(goals: &mut Vec<Goal>, tys: &Vec<Ty>)
    ensures
        goals_model(final(goals)@) == goals_model(old(goals)@) + well_formed_all(tys_model(tys@)),
{
    let ghost before = goals_model(goals@);
    let mut i: usize = 0;
    while i < tys.len()
        invariant
            i <= tys.len(),
            goals.len() == before.len() + i,
            forall|j: int| 0 <= j < before.len() ==> goals[j]@ == before[j],
            forall|j: int| 0 <= j < i ==> goals[before.len() + j]@ == ty_well_formed_goal(tys[j]@),
        decreases tys.len() - i,
    {
        goals.push(Goal::DomainGoal(DomainGoal::WellFormedTy(tys[i].dup())));
        i += 1;
    }
    proof {
        assert(goals_model(goals@) =~= before + well_formed_all(tys_model(tys@)));
    }
}

/// Appends the from-env hypothesis of each where-clause.
pub fn push_from_env(clauses: &mut Vec<ProgramClause>, wcs: &Vec<QuantifiedWhereClause>)
    ensures
        clauses_model(final(clauses)@) == clauses_model(old(clauses)@) + from_env_all(
            qwcs_model(wcs@),
        ),
{
    let ghost before = clauses_model(clauses@);
    let mut i: usize = 0;
    while i < wcs.len()
        invariant
            i <= wcs.len(),
            clauses.len() == before.len() + i,
            forall|j: int| 0 <= j < before.len() ==> clauses[j]@ == before[j],
            forall|j: int|
                0 <= j < i ==> clauses[before.len() + j]@ == qwc_from_env_clause(wcs[j]@),
        decreases wcs.len() - i,
    {
        clauses.push(wcs[i].dup().into_from_env_clause());
        i += 1;
    }
    proof {
        assert(clauses_model(clauses@) =~= before + from_env_all(qwcs_model(wcs@)));
    }
}

/// Appends `FromEnv(t)` for each of the types.
pub fn push_from_env_types(clauses: &mut Vec<ProgramClause>, tys: &Vec<Ty>)
    ensures
        clauses_model(final(clauses)@) == clauses_model(old(clauses)@) + from_env_types(
            tys_model(tys@),
        ),
{
    let ghost before = clauses_model(clauses@);
    let mut i: usize = 0;
    while i < tys.len()
        invariant
            i <= tys.len(),
            clauses.len() == before.len() + i,
            forall|j: int| 0 <= j < before.len() ==> clauses[j]@ == before[j],
            forall|j: int| 0 <= j < i ==> clauses[before.len() + j]@ == ty_from_env_clause(tys[j]@),
        decreases tys.len() - i,
    {
        clauses.push(ProgramClause::Implies(DomainGoal::FromEnvTy(tys[i].dup())));
        i += 1;
    }
    proof {
        assert(clauses_model(clauses@) =~= before + from_env_types(tys_model(tys@)));
    }
}

/// Appends the goal, if there is one.
pub fn push_optional(goals: &mut Vec<Goal>, goal: Option<Goal>)
    ensures
        goals_model(final(goals)@) == goals_model(old(goals)@) + optional(
            match goal {
                Some(g) => Some(g@),
                None => None,
            },
        ),
{
    let ghost before = goals_model(goals@);
    match goal {
        Some(g) => {
            let ghost m = g@;
            goals.push(g);
            proof {
                assert(goals_model(goals@) =~= before + seq![m]);
            }
        },
        None => {
            proof {
                assert(goals_model(goals@) =~= before + Seq::<GoalModel>::empty());
            }
        },
    }
}

/// Builds [`adt_wf_goal`].
pub fn adt_decl_wf_goal(db: &Database, adt_id: AdtId) -> (r: Result<Goal, InvariantViolation>)
    requires
        db.has_adt(adt_id),
    ensures
        match r {
            Ok(g) => adt_wf_goal(*db, db.adts[adt_id.0 as int]) == Some(g@),
            Err(_) => adt_wf_goal(*db, db.adts[adt_id.0 as int]) is None,
        },
        adt_is_scoped(db.adts[adt_id.0 as int]) ==> (r matches Ok(g) ==> is_closed(g@)),
{
    let adt = db.adt_datum(adt_id);
    let types = match InputTypeCollector::types_in_decl(&adt.fields, &adt.where_clauses) {
        Some(types) => types,
        None => {
            return Err(InvariantViolation);
        },
    };
    let sized_constraint_goal = WfWellKnownGoals::struct_sized_constraint(db, &adt.fields);
    let mut hypotheses: Vec<ProgramClause> = Vec::new();
    push_from_env(&mut hypotheses, &adt.where_clauses);
    let mut goals: Vec<Goal> = Vec::new();
    push_well_formed(&mut goals, &types);
    push_optional(&mut goals, sized_constraint_goal);
    proof {
        let wcs = qwcs_model(adt.where_clauses@);
        assert(clauses_model(hypotheses@) =~= from_env_all(wcs));
        assert(goals_model(goals@) =~= well_formed_all(tys_model(types@)) + optional(
            sized_constraint(*db, tys_model(adt.fields@)),
        ));
        if adt_is_scoped(*adt) {
            law_adt_goal_is_closed(*db, *adt);
        }
    }
    Ok(Goal::for_all(clone_kinds(&adt.binders), Goal::implies(hypotheses, Goal::all(goals))))
}

/// Builds [`impl_environment`].
pub fn impl_wf_environment(where_clauses: &Vec<QuantifiedWhereClause>, trait_ref: &TraitRef) -> (r:
    Result<Vec<ProgramClause>, InvariantViolation>)
    ensures
        match r {
            Ok(v) => impl_environment(qwcs_model(where_clauses@), trait_ref@) == Some(
                clauses_model(v@),
            ),
            Err(_) => impl_environment(qwcs_model(where_clauses@), trait_ref@) is None,
        },
{
    let self_ty = match trait_ref.self_type_parameter() {
        Some(ty) => ty,
        None => {
            return Err(InvariantViolation);
        },
    };
    // Only what is reachable from the self type is assumed well-formed.
    let types = match InputTypeCollector::types_in_ty(self_ty) {
        Some(types) => types,
        None => {
            return Err(InvariantViolation);
        },
    };
    let mut clauses: Vec<ProgramClause> = Vec::new();
    push_from_env(&mut clauses, where_clauses);
    push_from_env_types(&mut clauses, &types);
    proof {
        assert(clauses_model(clauses@) =~= from_env_all(qwcs_model(where_clauses@))
            + from_env_types(tys_model(types@)));
    }
    Ok(clauses)
}

/// Builds [`impl_header_goal`].
pub fn impl_header_wf_goal(db: &Database, impl_id: ImplId) -> (r: Result<
    Option<Goal>,
    InvariantViolation,
>)
    requires
        db.has_impl(impl_id),
        db.admits(db.impls[impl_id.0 as int].trait_ref),
    ensures
        yields(r, impl_header_goal(*db, db.impls[impl_id.0 as int])),
{
    let impl_datum = db.impl_datum(impl_id);
    if !impl_datum.is_positive() {
        return Ok(None);
    }
    let trait_constraint_goal = match WfWellKnownGoals::inside_impl(db, &impl_datum.trait_ref) {
        Ok(g) => g,
        Err(e) => {
            return Err(e);
        },
    };
    let environment = match impl_wf_environment(&impl_datum.where_clauses, &impl_datum.trait_ref) {
        Ok(env) => env,
        Err(e) => {
            return Err(e);
        },
    };
    let types = match InputTypeCollector::types_in_where_clauses(&impl_datum.where_clauses) {
        Some(types) => types,
        None => {
            return Err(InvariantViolation);
        },
    };
    let outside = match WfWellKnownGoals::outside_impl(db, impl_datum) {
        Ok(g) => g,
        Err(e) => {
            return Err(e);
        },
    };
    let mut goals: Vec<Goal> = Vec::new();
    push_well_formed(&mut goals, &types);
    let ghost types_goals = goals_model(goals@);
    goals.push(Goal::DomainGoal(DomainGoal::WellFormedTrait(impl_datum.trait_ref.dup())));
    proof {
        assert(goals_model(goals@) =~= types_goals + seq![
            GoalModel::DomainGoal(DomainGoalModel::WellFormedTrait(impl_datum.trait_ref@)),
        ]);
    }
    push_optional(&mut goals, trait_constraint_goal);
    let well_formed_goal = Goal::for_all(
        clone_kinds(&impl_datum.binders),
        Goal::implies(environment, Goal::all(goals)),
    );
    let mut conjuncts: Vec<Goal> = Vec::new();
    let ghost m = well_formed_goal@;
    conjuncts.push(well_formed_goal);
    proof {
        assert(goals_model(conjuncts@) =~= seq![m]);
    }
    push_optional(&mut conjuncts, outside);
    Ok(Some(Goal::all(conjuncts)))
}

} // verus!
