//! The goals assembled from well-scoped declarations are closed.
use vstd::prelude::*;
use crate::assoc::{assoc_ty_goal, assoc_ty_goal_of};
use crate::bound::{
    bound_goals, bound_goals_of, bounds_model, fold_qibs, inline_where_clauses, InlineBoundModel,
    QuantifiedInlineBoundModel,
};
use crate::builtin::{
    copy_constraint, coverage_goal, drop_constraint, genericity_goal, identity_substitution,
    implemented_all, inside_constraint, no_drop_goal, outside_constraint, sized_constraint,
};
use crate::collect::{
    collect_qwcs, collect_tys, types_in_decl, types_in_ty, types_in_where_clauses,
};
use crate::decl::{
    first_type, nominal_id, AdtDatum, AssociatedTyValue, Database, ImplDatum, WellKnownTrait,
};
use crate::fold::{fold_qwcs, fold_trait_ref, fold_ty, fold_tys, FolderModel};
use crate::goal::{
    all_of, exists_goal, forall_goal, implies_goal, qwc_well_formed_goal, ty_from_env_clause,
    well_formed_form, DomainGoalModel, GoalModel,
};
use crate::ir::{
    qwcs_model, tys_model, AssociatedTyValueId, GenericArgModel, ImplId,
    QuantifiedWhereClauseModel, TraitId, TraitRefModel, TyModel, TypeName, VariableKind,
};
use crate::obligation::{
    adt_wf_goal, from_env_all, from_env_types, header_body, impl_environment, impl_header_goal,
    optional, well_formed_all,
};
use crate::scope::{
    adt_is_scoped, arg_within, args_within, associated_ty_is_scoped, goal_within, goals_within,
    impl_is_scoped, is_closed, program_clause_within, program_clauses_within, qib_within,
    qibs_within, qwc_within, qwcs_within,
    trait_ref_within, ty_within, tys_within, value_is_scoped, where_clause_within,
};
use crate::scope_laws::{
    lemma_qibs_substituted_within, lemma_qibs_within_grows, lemma_qwcs_input_types_within,
    lemma_qwcs_substituted_within, lemma_qwcs_within_grows,
    lemma_trait_ref_substituted_within, lemma_trait_ref_within_grows,
    lemma_ty_input_types_within, lemma_ty_shifted_in_within, lemma_tys_input_types_within,
    lemma_tys_substituted_within, lemma_tys_within_grows,
};
use crate::wf::{assoc_ty_goals, trait_impl_goal};

verus! {

/// The self type of a trait reference is in the scope of the reference.
pub proof fn lemma_first_type_within(s: Seq<GenericArgModel>, d: int)
    requires
        args_within(s, d),
        first_type(s) is Some,
    ensures
        ty_within(first_type(s)->0, d),
    decreases s.len(),
{
    if s.len() > 0 {
        assert(arg_within(s[0], d));
        match s[0] {
            GenericArgModel::Ty(_) => {},
            GenericArgModel::Lifetime(_) => {
                let rest = s.subrange(1, s.len() as int);
                assert forall|i: int| 0 <= i < rest.len() implies arg_within(
                    #[trigger] rest[i],
                    d,
                ) by {
                    assert(arg_within(s[i + 1], d));
                }
                lemma_first_type_within(rest, d);
            },
        }
    }
}

/// A conjunction is in the scope of its conjuncts.
pub proof fn lemma_all_of_within(goals: Seq<GoalModel>, d: int)
    requires
        goals_within(goals, d),
    ensures
        goal_within(all_of(goals), d),
{
    if goals.len() == 1 {
        assert(goal_within(goals[0], d));
    }
}

/// That a trait is implemented for types is in the scope of the types.
pub proof fn lemma_implemented_all_within(trait_id: TraitId, tys: Seq<TyModel>, d: int)
    requires
        tys_within(tys, d),
    ensures
        goals_within(implemented_all(trait_id, tys), d),
{
    assert forall|i: int| 0 <= i < tys.len() implies goal_within(
        #[trigger] implemented_all(trait_id, tys)[i],
        d,
    ) by {
        assert(ty_within(tys[i], d));
        let args = seq![GenericArgModel::Ty(tys[i])];
        assert forall|j: int| 0 <= j < args.len() implies arg_within(#[trigger] args[j], d) by {}
    }
}

/// That types are well-formed, asked or assumed, is in the scope of the
/// types.
pub proof fn lemma_well_formed_all_within(tys: Seq<TyModel>, d: int)
    requires
        tys_within(tys, d),
    ensures
        goals_within(well_formed_all(tys), d),
        program_clauses_within(from_env_types(tys), d),
{
    assert forall|i: int| 0 <= i < tys.len() implies goal_within(
        #[trigger] well_formed_all(tys)[i],
        d,
    ) by {
        assert(ty_within(tys[i], d));
    }
    assert forall|i: int| 0 <= i < tys.len() implies program_clause_within(
        #[trigger] from_env_types(tys)[i],
        d,
    ) by {
        assert(ty_within(tys[i], d));
    }
}

/// Hypotheses and goals made of where-clauses are in the scope of the
/// where-clauses.
pub proof fn lemma_where_clause_goals_within(wcs: Seq<QuantifiedWhereClauseModel>, d: int)
    requires
        qwcs_within(wcs, d),
    ensures
        program_clauses_within(from_env_all(wcs), d),
        goals_within(Seq::new(wcs.len(), |i: int| qwc_well_formed_goal(wcs[i])), d),
{
    assert forall|i: int| 0 <= i < wcs.len() implies program_clause_within(
        #[trigger] from_env_all(wcs)[i],
        d,
    ) by {
        assert(qwc_within(wcs[i], d));
    }
    let goals = Seq::new(wcs.len(), |i: int| qwc_well_formed_goal(wcs[i]));
    assert forall|i: int| 0 <= i < wcs.len() implies goal_within(#[trigger] goals[i], d) by {
        assert(qwc_within(wcs[i], d));
        assert(goal_within(GoalModel::DomainGoal(well_formed_form(wcs[i].value)), d + 1));
    }
}

/// The Sized constraint is in the scope of the fields.
pub proof fn lemma_sized_constraint_within(db: Database, fields: Seq<TyModel>, d: int)
    requires
        tys_within(fields, d),
        sized_constraint(db, fields) is Some,
    ensures
        goal_within(sized_constraint(db, fields)->0, d),
{
    let sized = db.well_known_trait_id_spec(WellKnownTrait::SizedTrait)->0;
    let front = fields.drop_last();
    assert forall|i: int| 0 <= i < front.len() implies ty_within(#[trigger] front[i], d) by {
        assert(ty_within(fields[i], d));
    }
    lemma_implemented_all_within(sized, front, d);
    lemma_all_of_within(implemented_all(sized, front), d);
}

/// The obligation of a type declaration that refers to no binder but its
/// own is closed.
pub proof fn law_adt_goal_is_closed(db: Database, adt: AdtDatum)
    requires
        adt_is_scoped(adt),
        adt_wf_goal(db, adt) is Some,
    ensures
        is_closed(adt_wf_goal(db, adt)->0),
{
    let fields = tys_model(adt.fields@);
    let wcs = qwcs_model(adt.where_clauses@);
    let types = types_in_decl(fields, wcs)->0;
    let from_fields = collect_tys(fields, 0)->0;
    let from_wcs = collect_qwcs(wcs, 0)->0;
    lemma_tys_input_types_within(fields, 1, 0);
    lemma_qwcs_input_types_within(wcs, 1, 0);
    assert(types == from_fields + from_wcs);
    assert forall|i: int| 0 <= i < types.len() implies ty_within(#[trigger] types[i], 1) by {
        if i < from_fields.len() {
            assert(ty_within(from_fields[i], 1));
        } else {
            assert(ty_within(from_wcs[i - from_fields.len()], 1));
        }
    }
    lemma_well_formed_all_within(types, 1);
    lemma_where_clause_goals_within(wcs, 1);
    let tail = optional(sized_constraint(db, fields));
    if sized_constraint(db, fields) is Some {
        lemma_sized_constraint_within(db, fields, 1);
    }
    let goals = well_formed_all(types) + tail;
    assert forall|i: int| 0 <= i < goals.len() implies goal_within(#[trigger] goals[i], 1) by {
        if i < well_formed_all(types).len() {
            assert(goal_within(well_formed_all(types)[i], 1));
        } else {
            assert(goals[i] == tail[i - well_formed_all(types).len()]);
        }
    }
    lemma_all_of_within(goals, 1);
    let body = implies_goal(from_env_all(wcs), all_of(goals));
    assert(goal_within(body, 1));
    assert(goal_within(forall_goal(adt.binders@, body), 0));
}

/// A nominal self type, if there is one, names a declaration of the store.
pub open spec fn resolves_self_type(db: Database, trait_ref: TraitRefModel) -> bool {
    match first_type(trait_ref.substitution) {
        Some(t) => match nominal_id(t) {
            Some(id) => db.has_adt(id),
            None => true,
        },
        None => true,
    }
}

/// The Copy rule is in the scope of the trait reference it is about.
pub proof fn lemma_copy_constraint_within(db: Database, trait_ref: TraitRefModel, d: int)
    requires
        0 <= d,
        db.well_scoped(),
        resolves_self_type(db, trait_ref),
        trait_ref_within(trait_ref, d),
        copy_constraint(db, trait_ref) matches Some(Some(_)),
    ensures
        goal_within(copy_constraint(db, trait_ref)->0->0, d),
{
    let ty = first_type(trait_ref.substitution)->0;
    lemma_first_type_within(trait_ref.substitution, d);
    match ty {
        TyModel::Apply { name: TypeName::Adt(id), substitution } => {
            let adt = db.adts[id.0 as int];
            assert(adt_is_scoped(adt));
            let declared = tys_model(adt.fields@);
            lemma_tys_within_grows(declared, 1, d + 1);
            lemma_tys_substituted_within(declared, substitution, d, 0);
            let fields = fold_tys(declared, FolderModel::Subst(substitution), 0)->0;
            lemma_implemented_all_within(trait_ref.trait_id, fields, d);
            let of_fields = implemented_all(trait_ref.trait_id, fields);
            let of_drop = no_drop_goal(db, ty);
            if db.well_known_trait_id_spec(WellKnownTrait::DropTrait) is Some {
                let drop = db.well_known_trait_id_spec(WellKnownTrait::DropTrait)->0;
                lemma_implemented_all_within(drop, seq![ty], d);
                assert(goal_within(implemented_all(drop, seq![ty])[0], d));
                assert(goal_within(of_drop[0], d));
            }
            let goals = of_fields + of_drop;
            assert forall|i: int| 0 <= i < goals.len() implies goal_within(
                #[trigger] goals[i],
                d,
            ) by {
                if i < of_fields.len() {
                    assert(goal_within(of_fields[i], d));
                } else {
                    assert(goals[i] == of_drop[i - of_fields.len()]);
                }
            }
            lemma_all_of_within(goals, d);
        },
        _ => {},
    }
}

/// What an impl owes inside its environment is in the scope of its trait
/// reference.
pub proof fn lemma_inside_constraint_within(db: Database, trait_ref: TraitRefModel, d: int)
    requires
        0 <= d,
        db.well_scoped(),
        resolves_self_type(db, trait_ref),
        trait_ref_within(trait_ref, d),
        inside_constraint(db, trait_ref) matches Some(Some(_)),
    ensures
        goal_within(inside_constraint(db, trait_ref)->0->0, d),
{
    lemma_copy_constraint_within(db, trait_ref, d);
}

/// The arguments that name the parameters of a binder are within it.
pub proof fn lemma_identity_substitution_within(binders: Seq<VariableKind>)
    ensures
        args_within(identity_substitution(binders), 1),
{
    let args = identity_substitution(binders);
    assert forall|i: int| 0 <= i < args.len() implies arg_within(#[trigger] args[i], 1) by {}
}

/// The Drop rule of a well-scoped impl is closed.
pub proof fn lemma_drop_constraint_is_closed(db: Database, impl_datum: ImplDatum)
    requires
        impl_is_scoped(impl_datum),
        drop_constraint(db, impl_datum) matches Some(Some(_)),
    ensures
        is_closed(drop_constraint(db, impl_datum)->0->0),
{
    let self_ty = first_type(impl_datum.trait_ref@.substitution)->0;
    lemma_first_type_within(impl_datum.trait_ref@.substitution, 1);
    match nominal_id(self_ty) {
        None => {},
        Some(id) => {
            let wcs = qwcs_model(impl_datum.where_clauses@);
            let adt_binders = db.adts[id.0 as int].binders@;
            // Genericity.
            lemma_where_clause_goals_within(wcs, 1);
            let asked = Seq::new(wcs.len(), |i: int| qwc_well_formed_goal(wcs[i]));
            lemma_all_of_within(asked, 1);
            lemma_well_formed_all_within(seq![self_ty], 1);
            let assumed = seq![ty_from_env_clause(self_ty)];
            assert(assumed =~= from_env_types(seq![self_ty]));
            let inner = implies_goal(assumed, all_of(asked));
            assert(goal_within(inner, 1));
            let genericity = genericity_goal(impl_datum.binders@, self_ty, wcs);
            assert(goal_within(genericity, 0));
            // Coverage.
            let declared = TyModel::Apply {
                name: TypeName::Adt(id),
                substitution: identity_substitution(adt_binders),
            };
            lemma_identity_substitution_within(adt_binders);
            assert(ty_within(declared, 1));
            lemma_ty_shifted_in_within(declared, 1, 1, 0);
            lemma_ty_shifted_in_within(self_ty, 1, 1, 1);
            let a = fold_ty(declared, FolderModel::ShiftIn(1), 0)->0;
            let b = fold_ty(self_ty, FolderModel::ShiftIn(1), 1)->0;
            let eq = GoalModel::EqGoal { a: GenericArgModel::Ty(a), b: GenericArgModel::Ty(b) };
            assert(goal_within(eq, 2));
            assert(goal_within(exists_goal(impl_datum.binders@, eq), 1));
            let coverage = coverage_goal(id, adt_binders, impl_datum.binders@, self_ty)->0;
            assert(goal_within(coverage, 0));
            let both = seq![genericity, coverage];
            assert forall|i: int| 0 <= i < both.len() implies goal_within(
                #[trigger] both[i],
                0,
            ) by {
                if i == 0 {
                    assert(both[i] == genericity);
                } else {
                    assert(both[i] == coverage);
                }
            }
            assert(goals_within(both, 0));
            assert(drop_constraint(db, impl_datum)->0->0 == GoalModel::All(both));
            assert(goal_within(GoalModel::All(both), 0));
        },
    }
}

/// What an impl owes outside its environment is closed.
pub proof fn lemma_outside_constraint_is_closed(db: Database, impl_datum: ImplDatum)
    requires
        impl_is_scoped(impl_datum),
        outside_constraint(db, impl_datum) matches Some(Some(_)),
    ensures
        is_closed(outside_constraint(db, impl_datum)->0->0),
{
    match db.traits[impl_datum.trait_ref.trait_id.0 as int].well_known {
        Some(WellKnownTrait::DropTrait) => {
            lemma_drop_constraint_is_closed(db, impl_datum);
        },
        _ => {},
    }
}

/// The obligation of the header of an impl is closed, where the impl and
/// the declarations of the store refer to no binders but their own.
pub proof fn law_impl_header_goal_is_closed(db: Database, impl_datum: ImplDatum)
    requires
        db.well_scoped(),
        impl_is_scoped(impl_datum),
        resolves_self_type(db, impl_datum.trait_ref@),
        impl_header_goal(db, impl_datum) matches Some(Some(_)),
    ensures
        is_closed(impl_header_goal(db, impl_datum)->0->0),
{
    let wcs = qwcs_model(impl_datum.where_clauses@);
    let trait_ref = impl_datum.trait_ref@;
    // The environment.
    lemma_impl_environment_within(wcs, trait_ref, 1);
    let env = impl_environment(wcs, trait_ref)->0;
    // What is to be shown under it.
    let types = types_in_where_clauses(wcs)->0;
    lemma_qwcs_input_types_within(wcs, 1, 0);
    lemma_well_formed_all_within(types, 1);
    let inside = inside_constraint(db, trait_ref)->0;
    if inside is Some {
        lemma_inside_constraint_within(db, trait_ref, 1);
    }
    let of_types = well_formed_all(types);
    let of_trait = seq![
        GoalModel::DomainGoal(DomainGoalModel::WellFormedTrait(trait_ref)),
    ];
    let goals = of_types + of_trait + optional(inside);
    assert forall|i: int| 0 <= i < goals.len() implies goal_within(#[trigger] goals[i], 1) by {
        if i < of_types.len() {
            assert(goal_within(of_types[i], 1));
        } else if i < of_types.len() + 1 {
            assert(goals[i] == of_trait[0]);
        } else {
            assert(goals[i] == optional(inside)[i - of_types.len() - 1]);
        }
    }
    lemma_all_of_within(goals, 1);
    let body = header_body(db, wcs, trait_ref)->0;
    assert(body == all_of(goals));
    let under = implies_goal(env, body);
    assert(goal_within(under, 1));
    let quantified = forall_goal(impl_datum.binders@, under);
    assert(goal_within(quantified, 0));
    // What stands outside.
    let outside = outside_constraint(db, impl_datum)->0;
    if outside is Some {
        lemma_outside_constraint_is_closed(db, impl_datum);
    }
    let conjuncts = seq![quantified] + optional(outside);
    assert forall|i: int| 0 <= i < conjuncts.len() implies goal_within(
        #[trigger] conjuncts[i],
        0,
    ) by {
        if i >= 1 {
            assert(conjuncts[i] == optional(outside)[i - 1]);
        }
    }
    lemma_all_of_within(conjuncts, 0);
}

/// The environment of an impl is in the scope of the impl's header.
pub proof fn lemma_impl_environment_within(
    wcs: Seq<QuantifiedWhereClauseModel>,
    trait_ref: TraitRefModel,
    d: int,
)
    requires
        0 <= d,
        qwcs_within(wcs, d),
        trait_ref_within(trait_ref, d),
        impl_environment(wcs, trait_ref) is Some,
    ensures
        program_clauses_within(impl_environment(wcs, trait_ref)->0, d),
{
    let self_ty = first_type(trait_ref.substitution)->0;
    lemma_first_type_within(trait_ref.substitution, d);
    let of_self = types_in_ty(self_ty)->0;
    lemma_ty_input_types_within(self_ty, d, 0);
    lemma_well_formed_all_within(of_self, d);
    lemma_where_clause_goals_within(wcs, d);
    let env = impl_environment(wcs, trait_ref)->0;
    assert forall|i: int| 0 <= i < env.len() implies program_clause_within(
        #[trigger] env[i],
        d,
    ) by {
        if i < from_env_all(wcs).len() {
            assert(program_clause_within(from_env_all(wcs)[i], d));
        } else {
            assert(env[i] == from_env_types(of_self)[i - from_env_all(wcs).len()]);
        }
    }
}

/// The goals of a quantified bound are in the scope of the bound and of
/// the type it is stated of.
pub proof fn lemma_bound_goals_of_within(q: QuantifiedInlineBoundModel, self_ty: TyModel, d: int)
    requires
        0 <= d,
        qib_within(q, d),
        ty_within(self_ty, d),
        bound_goals_of(q, self_ty) is Some,
    ensures
        goals_within(bound_goals_of(q, self_ty)->0, d),
{
    lemma_ty_shifted_in_within(self_ty, 1, d, 0);
    let inner = fold_ty(self_ty, FolderModel::ShiftIn(1), 0)->0;
    let wcs = inline_where_clauses(q.value, inner);
    let head = seq![GenericArgModel::Ty(inner)];
    assert forall|i: int| 0 <= i < wcs.len() implies where_clause_within(
        #[trigger] wcs[i],
        d + 1,
    ) by {
        match q.value {
            InlineBoundModel::TraitBound { trait_id, args_no_self } => {
                let args = head + args_no_self;
                assert forall|j: int| 0 <= j < args.len() implies arg_within(
                    #[trigger] args[j],
                    d + 1,
                ) by {
                    if j >= 1 {
                        assert(arg_within(args_no_self[j - 1], d + 1));
                    }
                }
            },
            InlineBoundModel::AliasEqBound {
                trait_id,
                args_no_self,
                associated_ty_id,
                parameters,
                value,
            } => {
                let args = head + args_no_self;
                assert forall|j: int| 0 <= j < args.len() implies arg_within(
                    #[trigger] args[j],
                    d + 1,
                ) by {
                    if j >= 1 {
                        assert(arg_within(args_no_self[j - 1], d + 1));
                    }
                }
                let all = parameters + args;
                assert forall|j: int| 0 <= j < all.len() implies arg_within(
                    #[trigger] all[j],
                    d + 1,
                ) by {
                    if j < parameters.len() {
                        assert(arg_within(parameters[j], d + 1));
                    } else {
                        assert(arg_within(args[j - parameters.len()], d + 1));
                    }
                }
            },
        }
    }
    let goals = bound_goals_of(q, self_ty)->0;
    assert forall|i: int| 0 <= i < goals.len() implies goal_within(#[trigger] goals[i], d) by {
        assert(where_clause_within(wcs[i], d + 1));
        assert(goal_within(GoalModel::DomainGoal(well_formed_form(wcs[i])), d + 1));
    }
}

/// The goals of all the bounds are in the scope of the bounds and of the
/// type they are stated of.
pub proof fn lemma_bound_goals_within(
    bounds: Seq<QuantifiedInlineBoundModel>,
    self_ty: TyModel,
    d: int,
)
    requires
        0 <= d,
        qibs_within(bounds, d),
        ty_within(self_ty, d),
        bound_goals(bounds, self_ty) is Some,
    ensures
        goals_within(bound_goals(bounds, self_ty)->0, d),
    decreases bounds.len(),
{
    if bounds.len() > 0 {
        let front = bounds.drop_last();
        assert forall|i: int| 0 <= i < front.len() implies qib_within(#[trigger] front[i], d) by {
            assert(qib_within(bounds[i], d));
        }
        assert(qib_within(bounds.last(), d));
        lemma_bound_goals_within(front, self_ty, d);
        lemma_bound_goals_of_within(bounds.last(), self_ty, d);
        let a = bound_goals(front, self_ty)->0;
        let b = bound_goals_of(bounds.last(), self_ty)->0;
        let goals = bound_goals(bounds, self_ty)->0;
        assert forall|i: int| 0 <= i < goals.len() implies goal_within(#[trigger] goals[i], d) by {
            if i < a.len() {
                assert(goal_within(a[i], d));
            } else {
                assert(goals[i] == b[i - a.len()]);
            }
        }
    }
}

/// The obligation of an associated-type value is closed, where the value
/// and the declarations of the store refer to no binders but their own.
pub proof fn law_assoc_ty_goal_is_closed(db: Database, value: AssociatedTyValue)
    requires
        db.well_scoped(),
        value_is_scoped(value),
        db.has_impl(value.impl_id),
        db.has_associated_ty(value.associated_ty_id),
        assoc_ty_goal(db, value) is Some,
    ensures
        is_closed(assoc_ty_goal(db, value)->0),
{
    reveal(assoc_ty_goal);
    let impl_datum = db.impls[value.impl_id.0 as int];
    let datum = db.associated_tys[value.associated_ty_id.0 as int];
    assert(impl_is_scoped(impl_datum));
    assert(associated_ty_is_scoped(datum));
    let parameters = identity_substitution(value.binders@);
    lemma_identity_substitution_within(value.binders@);
    let split = parameters.len() - impl_datum.binders.len();
    let impl_parameters = parameters.skip(split);
    assert forall|i: int| 0 <= i < impl_parameters.len() implies arg_within(
        #[trigger] impl_parameters[i],
        1,
    ) by {
        assert(arg_within(parameters[i + split], 1));
    }
    let by_impl = FolderModel::Subst(impl_parameters);
    // The impl's header, at the value's parameters.
    lemma_trait_ref_within_grows(impl_datum.trait_ref@, 1, 2);
    lemma_trait_ref_substituted_within(impl_datum.trait_ref@, impl_parameters, 1, 0);
    let impl_trait_ref = fold_trait_ref(impl_datum.trait_ref@, by_impl, 0)->0;
    lemma_qwcs_within_grows(qwcs_model(impl_datum.where_clauses@), 1, 2);
    lemma_qwcs_substituted_within(qwcs_model(impl_datum.where_clauses@), impl_parameters, 1, 0);
    let impl_where_clauses = fold_qwcs(qwcs_model(impl_datum.where_clauses@), by_impl, 0)->0;
    lemma_impl_environment_within(impl_where_clauses, impl_trait_ref, 1);
    let environment = impl_environment(impl_where_clauses, impl_trait_ref)->0;
    // The projection, and the trait's declaration at it.
    let substitution = parameters.take(split) + impl_trait_ref.substitution;
    assert forall|i: int| 0 <= i < substitution.len() implies arg_within(
        #[trigger] substitution[i],
        1,
    ) by {
        if i < split {
            assert(arg_within(parameters[i], 1));
        } else {
            assert(arg_within(impl_trait_ref.substitution[i - split], 1));
        }
    }
    let by_projection = FolderModel::Subst(substitution);
    lemma_qibs_within_grows(bounds_model(datum.bounds@), 1, 2);
    lemma_qibs_substituted_within(bounds_model(datum.bounds@), substitution, 1, 0);
    let defn_bounds = fold_qibs(bounds_model(datum.bounds@), by_projection, 0)->0;
    lemma_qwcs_within_grows(qwcs_model(datum.where_clauses@), 1, 2);
    lemma_qwcs_substituted_within(qwcs_model(datum.where_clauses@), substitution, 1, 0);
    let defn_where_clauses = fold_qwcs(qwcs_model(datum.where_clauses@), by_projection, 0)->0;
    lemma_where_clause_goals_within(defn_where_clauses, 1);
    // What is to be shown.
    let types = types_in_ty(value.ty@)->0;
    lemma_ty_input_types_within(value.ty@, 1, 0);
    lemma_well_formed_all_within(types, 1);
    lemma_bound_goals_within(defn_bounds, value.ty@, 1);
    let of_types = well_formed_all(types);
    let of_bounds = bound_goals(defn_bounds, value.ty@)->0;
    let goals = of_types + of_bounds;
    assert forall|i: int| 0 <= i < goals.len() implies goal_within(#[trigger] goals[i], 1) by {
        if i < of_types.len() {
            assert(goal_within(of_types[i], 1));
        } else {
            assert(goals[i] == of_bounds[i - of_types.len()]);
        }
    }
    lemma_all_of_within(goals, 1);
    let innermost = implies_goal(from_env_all(defn_where_clauses), all_of(goals));
    assert(goal_within(innermost, 1));
    let under = implies_goal(environment, innermost);
    assert(goal_within(under, 1));
    assert(goal_within(forall_goal(value.binders@, under), 0));
}

/// The obligations of the associated-type values of a well-formed,
/// well-scoped store are closed.
pub proof fn lemma_assoc_ty_goals_are_closed(db: Database, ids: Seq<AssociatedTyValueId>)
    requires
        db.wf(),
        db.well_scoped(),
        assoc_ty_goals(db, ids) is Some,
    ensures
        goals_within(assoc_ty_goals(db, ids)->0, 0),
    decreases ids.len(),
{
    if ids.len() > 0 {
        lemma_assoc_ty_goals_are_closed(db, ids.drop_last());
        let id = ids.last();
        let a = assoc_ty_goals(db, ids.drop_last())->0;
        let b = optional(assoc_ty_goal_of(db, id)->0);
        if db.has_associated_ty_value(id) {
            let value = db.associated_ty_values[id.0 as int];
            assert(value_is_scoped(value));
            law_assoc_ty_goal_is_closed(db, value);
        }
        let goals = assoc_ty_goals(db, ids)->0;
        assert forall|i: int| 0 <= i < goals.len() implies goal_within(#[trigger] goals[i], 0) by {
            if i < a.len() {
                assert(goal_within(a[i], 0));
            } else {
                assert(goals[i] == b[i - a.len()]);
            }
        }
    }
}

/// The goal put to the solver for an impl is closed, where the store is
/// well-formed and its declarations refer to no binders but their own.
pub proof fn law_trait_impl_goal_is_closed(db: Database, impl_id: ImplId)
    requires
        db.wf(),
        db.well_scoped(),
        db.has_impl(impl_id),
        trait_impl_goal(db, impl_id) is Some,
    ensures
        is_closed(trait_impl_goal(db, impl_id)->0),
{
    let impl_datum = db.impls[impl_id.0 as int];
    assert(impl_is_scoped(impl_datum));
    assert(db.admits(impl_datum.trait_ref));
    let header = impl_header_goal(db, impl_datum)->0;
    if header is Some {
        law_impl_header_goal_is_closed(db, impl_datum);
    }
    lemma_assoc_ty_goals_are_closed(db, impl_datum.associated_ty_value_ids@);
    let values = assoc_ty_goals(db, impl_datum.associated_ty_value_ids@)->0;
    let goals = optional(header) + values;
    assert forall|i: int| 0 <= i < goals.len() implies goal_within(#[trigger] goals[i], 0) by {
        if i < optional(header).len() {
            assert(goals[i] == header->0);
        } else {
            assert(goals[i] == values[i - optional(header).len()]);
        }
    }
    lemma_all_of_within(goals, 0);
}

} // verus!
