//! Laws of the obligations, stated over the models that the contracts use.
use vstd::prelude::*;
use crate::builtin::{
    copy_constraint, coverage_goal, drop_constraint, genericity_goal, implemented_all,
    sized_constraint,
};
use crate::collect::{
    collect_arg, collect_args, collect_ty, recorded, types_in_decl, types_in_ty,
};
use crate::decl::{first_type, nominal_id, AdtDatum, Database, ImplDatum, WellKnownTrait};
use crate::fold::{fold_arg, fold_args, fold_ty, FolderModel};
use crate::goal::{all_of, forall_goal, implemented_goal, implies_goal, GoalModel};
use crate::ir::{
    qwcs_model, tys_model, BoundVar, GenericArgModel, ImplId, QuantifiedWhereClauseModel,
    TraitRefModel, TyModel, TypeName,
};
use crate::obligation::{
    adt_wf_goal, from_env_all, from_env_types, impl_environment, impl_header_goal,
    well_formed_all,
};
use crate::shift_laws::law_ty_unshift_round_trip;
use crate::wf::{trait_impl_goal, verdict, ClosedGoal, Solution, WfError, WfSolver};

verus! {

/// A declaration with no field or one field owes no Sized constraint.
pub proof fn law_short_declarations_owe_no_sized_constraint(db: Database, fields: Seq<TyModel>)
    requires
        fields.len() <= 1,
    ensures
        sized_constraint(db, fields) is None,
{
}

/// The obligation of a declaration with no field or one field asks that
/// its input types be well-formed and nothing else.
pub proof fn law_short_declaration_goal_has_no_sized_tail(db: Database, adt: AdtDatum)
    requires
        adt.fields.len() <= 1,
        adt_wf_goal(db, adt) is Some,
    ensures
        ({
            let wcs = qwcs_model(adt.where_clauses@);
            let types = types_in_decl(tys_model(adt.fields@), wcs)->0;
            adt_wf_goal(db, adt)->0 == forall_goal(
                adt.binders@,
                implies_goal(from_env_all(wcs), all_of(well_formed_all(types))),
            )
        }),
{
    let wcs = qwcs_model(adt.where_clauses@);
    let types = types_in_decl(tys_model(adt.fields@), wcs)->0;
    assert(well_formed_all(types) + Seq::<GoalModel>::empty() =~= well_formed_all(types));
}

/// Where a Sized trait is declared, a declaration with two fields or more
/// owes Sized for each field but the last, in order, and for no other type.
pub proof fn law_sized_constraint_spares_the_last_field(db: Database, fields: Seq<TyModel>)
    requires
        fields.len() >= 2,
        db.well_known_trait_id_spec(WellKnownTrait::SizedTrait) is Some,
    ensures
        ({
            let sized = db.well_known_trait_id_spec(WellKnownTrait::SizedTrait)->0;
            let goals = implemented_all(sized, fields.drop_last());
            &&& sized_constraint(db, fields) == Some(all_of(goals))
            &&& goals.len() == fields.len() - 1
            &&& forall|i: int|
                0 <= i < fields.len() - 1 ==> goals[i] == implemented_goal(sized, fields[i])
        }),
{
}

/// The input types of a type applied to one bound parameter are that
/// type alone: the parameter itself is not recorded.
pub proof fn law_application_of_parameter_is_its_only_input_type(name: TypeName, bv: BoundVar)
    ensures
        ({
            let applied = TyModel::Apply {
                name,
                substitution: seq![GenericArgModel::Ty(TyModel::BoundVar(bv))],
            };
            collect_ty(applied, 0) == Some(seq![applied])
        }),
{
    let args = seq![GenericArgModel::Ty(TyModel::BoundVar(bv))];
    let applied = TyModel::Apply { name, substitution: args };
    let out = FolderModel::ShiftOut(0);
    assert(fold_ty(TyModel::BoundVar(bv), out, 0) == Some(TyModel::BoundVar(bv)));
    assert(fold_arg(args[0], out, 0) == Some(args[0]));
    assert(fold_args(args, out, 0) == Some(args)) by {
        assert(fold_args(args, out, 0)->0 =~= args);
    }
    assert(recorded(applied, 0) == Some(seq![applied]));
    assert(collect_args(args, 0) == Some(Seq::<TyModel>::empty())) by {
        assert(args.drop_last() =~= Seq::<GenericArgModel>::empty());
        assert(collect_args(args.drop_last(), 0) == Some(Seq::<TyModel>::empty()));
        assert(collect_arg(args.last(), 0) == Some(Seq::<TyModel>::empty()));
        assert(Seq::<TyModel>::empty() + Seq::<TyModel>::empty() =~= Seq::<TyModel>::empty());
    }
    assert(seq![applied] + Seq::<TyModel>::empty() =~= seq![applied]);
}

/// What the traversal records of a type, moved back in through the
/// binders it was taken out of, is the type: nothing is lost in stating
/// it in the caller's scope.
pub proof fn law_recorded_type_restores(t: TyModel, outer: u32)
    requires
        recorded(t, outer) is Some,
    ensures
        recorded(t, outer)->0.len() == 1,
        fold_ty(recorded(t, outer)->0[0], FolderModel::ShiftIn(outer), 0) == Some(t),
{
    law_ty_unshift_round_trip(t, outer, 0);
}

/// A function type has no input types, whatever it mentions and wherever
/// it stands.
pub proof fn law_function_type_has_no_input_types(
    num_binders: usize,
    substitution: Seq<GenericArgModel>,
    outer: u32,
)
    ensures
        collect_ty(TyModel::Function { num_binders, substitution }, outer) == Some(
            Seq::<TyModel>::empty(),
        ),
{
}

/// An impl assumes of its trait reference only what its self type gives:
/// trait references with the same self type give the same environment,
/// whatever their other arguments.
pub proof fn law_environment_depends_on_self_type_alone(
    wcs: Seq<QuantifiedWhereClauseModel>,
    first: TraitRefModel,
    second: TraitRefModel,
)
    requires
        first_type(first.substitution) == first_type(second.substitution),
    ensures
        impl_environment(wcs, first) == impl_environment(wcs, second),
        impl_environment(wcs, first) matches Some(env) ==> env == from_env_all(wcs)
            + from_env_types(types_in_ty(first_type(first.substitution)->0)->0),
{
}

/// The header of a negative impl owes nothing; that of a positive impl,
/// where its obligation is defined, owes a goal.
pub proof fn law_header_goal_follows_polarity(db: Database, impl_datum: ImplDatum)
    ensures
        !impl_datum.is_positive_spec() ==> impl_header_goal(db, impl_datum) == Some(
            None::<GoalModel>,
        ),
        impl_datum.is_positive_spec() && impl_header_goal(db, impl_datum) is Some
            ==> impl_header_goal(db, impl_datum)->0 is Some,
{
}

/// The Copy rule asks nothing of a self type that is not nominal.
pub proof fn law_copy_of_non_nominal_owes_nothing(db: Database, trait_ref: TraitRefModel)
    requires
        first_type(trait_ref.substitution) matches Some(ty) && nominal_id(ty) is None,
    ensures
        copy_constraint(db, trait_ref) == Some(None::<GoalModel>),
{
}

/// The Drop rule on a nominal self type, where it is defined, is the
/// conjunction of exactly two goals: genericity, then coverage.
pub proof fn law_drop_of_nominal_owes_genericity_and_coverage(db: Database, impl_datum: ImplDatum)
    requires
        first_type(impl_datum.trait_ref@.substitution) matches Some(ty) && nominal_id(ty) is Some,
        drop_constraint(db, impl_datum) is Some,
    ensures
        ({
            let self_ty = first_type(impl_datum.trait_ref@.substitution)->0;
            let id = nominal_id(self_ty)->0;
            let coverage = coverage_goal(
                id,
                db.adts[id.0 as int].binders@,
                impl_datum.binders@,
                self_ty,
            );
            &&& coverage is Some
            &&& drop_constraint(db, impl_datum) == Some(
                Some(
                    GoalModel::All(
                        seq![
                            genericity_goal(
                                impl_datum.binders@,
                                self_ty,
                                qwcs_model(impl_datum.where_clauses@),
                            ),
                            coverage->0,
                        ],
                    ),
                ),
            )
        }),
{
}

/// A verdict is the error exactly when the solver's answer is not a
/// unique solution, and is success otherwise.
pub proof fn law_verdict_is_error_iff_no_unique_solution(answer: Option<Solution>, error: WfError)
    ensures
        verdict(answer, error) == Err::<(), WfError>(error) <==> answer != Some(Solution::Unique),
        verdict(answer, error) == Ok::<(), WfError>(()) <==> answer == Some(Solution::Unique),
{
}

/// The solver's answer is a function of the store and of what the goal
/// put to it models.
pub open spec fn answers_by_model<S: Fn(&Database, &ClosedGoal) -> Option<Solution>>(
    solver: S,
    db: Database,
) -> bool {
    forall|g1: ClosedGoal, g2: ClosedGoal, a1: Option<Solution>, a2: Option<Solution>|
        g1@ == g2@ && #[trigger] call_ensures(solver, (&db, &g1), a1) && #[trigger] call_ensures(
            solver,
            (&db, &g2),
            a2,
        ) ==> a1 == a2
}

/// With such a solver and an unchanged store, any two verdicts on the
/// same impl are the same verdict.
pub proof fn law_trait_impl_verdict_is_repeatable<
    S: Fn(&Database, &ClosedGoal) -> Option<Solution>,
>(
    judge: WfSolver<S>,
    impl_id: ImplId,
    first: Result<(), WfError>,
    second: Result<(), WfError>,
)
    requires
        answers_by_model(judge.solver(), judge.db()),
        trait_impl_goal(judge.db(), impl_id) is Some,
        judge.judged(
            trait_impl_goal(judge.db(), impl_id)->0,
            WfError::IllFormedTraitImpl(
                judge.db().impls[impl_id.0 as int].trait_ref.trait_id,
            ),
            first,
        ),
        judge.judged(
            trait_impl_goal(judge.db(), impl_id)->0,
            WfError::IllFormedTraitImpl(
                judge.db().impls[impl_id.0 as int].trait_ref.trait_id,
            ),
            second,
        ),
    ensures
        first == second,
{
}

} // verus!
