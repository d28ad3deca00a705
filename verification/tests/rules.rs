use chalk_wf::builtin::{identity_args, implemented_goals, WfWellKnownGoals};
use chalk_wf::violation::InvariantViolation;
use chalk_wf::decl::{AdtDatum, Database, ImplDatum, Polarity, TraitDatum, WellKnownTrait};
use chalk_wf::goal::{DomainGoal, Goal, ProgramClause, QuantifierKind};
use chalk_wf::ir::TyKind;
use chalk_wf::ir::{
    AdtId, BoundVar, GenericArg, Lifetime, QuantifiedWhereClause, Scalar, TraitId, TraitRef, Ty,
    TypeName, UintTy, VariableKind, WhereClause,
};

fn var(debruijn: u32, index: usize) -> Ty {
    Ty::BoundVar(BoundVar { debruijn, index })
}

fn arg(ty: Ty) -> GenericArg {
    GenericArg::Ty(ty)
}

fn adt(id: usize, args: Vec<Ty>) -> Ty {
    Ty::Apply {
        name: TypeName::Adt(AdtId(id)),
        substitution: args.into_iter().map(GenericArg::Ty).collect(),
    }
}

fn u32_ty() -> Ty {
    Ty::Apply { name: TypeName::Scalar(Scalar::Uint(UintTy::U32)), substitution: vec![] }
}

fn traits(kinds: Vec<Option<WellKnownTrait>>) -> Vec<TraitDatum> {
    kinds.into_iter().map(|well_known| TraitDatum { well_known }).collect()
}

fn database(adts: Vec<AdtDatum>, traits: Vec<TraitDatum>) -> Database {
    Database { adts, traits, impls: vec![], associated_ty_values: vec![], associated_tys: vec![] }
}

fn trait_ref(trait_id: usize, self_ty: Ty) -> TraitRef {
    TraitRef { trait_id: TraitId(trait_id), substitution: vec![arg(self_ty)] }
}

fn impl_of(trait_ref: TraitRef, binders: Vec<VariableKind>, where_clauses: Vec<QuantifiedWhereClause>) -> ImplDatum {
    ImplDatum {
        polarity: Polarity::Positive,
        binders,
        trait_ref,
        where_clauses,
        associated_ty_value_ids: vec![],
    }
}

/// struct S<T> { a: T, b: Other<T> } as declaration 0, Other<T> as 1.
fn generic_struct() -> Vec<AdtDatum> {
    vec![
        AdtDatum {
            binders: vec![VariableKind::Ty(TyKind::General)],
            fields: vec![var(0, 0), adt(1, vec![var(0, 0)])],
            where_clauses: vec![],
        },
        AdtDatum { binders: vec![VariableKind::Ty(TyKind::General)], fields: vec![], where_clauses: vec![] },
    ]
}

#[test]
fn no_sized_constraint_without_fields() {
    let db = database(vec![], traits(vec![Some(WellKnownTrait::SizedTrait)]));
    assert_eq!(WfWellKnownGoals::struct_sized_constraint(&db, &vec![]), None);
}

#[test]
fn no_sized_constraint_for_one_field() {
    let db = database(vec![], traits(vec![Some(WellKnownTrait::SizedTrait)]));
    assert_eq!(WfWellKnownGoals::struct_sized_constraint(&db, &vec![u32_ty()]), None);
}

#[test]
fn sized_constraint_spares_the_last_of_three_fields() {
    let db = database(vec![], traits(vec![None, Some(WellKnownTrait::SizedTrait)]));
    let (a, b, c) = (adt(0, vec![]), adt(1, vec![]), adt(2, vec![]));
    let expected = Goal::All(vec![
        Goal::implemented(TraitId(1), a.clone()),
        Goal::implemented(TraitId(1), b.clone()),
    ]);
    assert_eq!(WfWellKnownGoals::struct_sized_constraint(&db, &vec![a, b, c]), Some(expected));
}

#[test]
fn sized_constraint_of_two_fields_is_a_single_goal() {
    let db = database(vec![], traits(vec![Some(WellKnownTrait::SizedTrait)]));
    let expected = Goal::DomainGoal(DomainGoal::Holds(WhereClause::Implemented(trait_ref(0, u32_ty()))));
    assert_eq!(
        WfWellKnownGoals::struct_sized_constraint(&db, &vec![u32_ty(), adt(0, vec![])]),
        Some(expected)
    );
}

#[test]
fn no_sized_constraint_without_a_sized_trait() {
    let db = database(vec![], traits(vec![Some(WellKnownTrait::CopyTrait), None]));
    assert_eq!(WfWellKnownGoals::struct_sized_constraint(&db, &vec![u32_ty(), u32_ty(), u32_ty()]), None);
}

#[test]
fn well_known_lookup_finds_the_first_declared() {
    let db = database(
        vec![],
        traits(vec![None, Some(WellKnownTrait::DropTrait), Some(WellKnownTrait::CopyTrait), Some(WellKnownTrait::DropTrait)]),
    );
    assert_eq!(db.well_known_trait_id(WellKnownTrait::DropTrait), Some(TraitId(1)));
    assert_eq!(db.well_known_trait_id(WellKnownTrait::CopyTrait), Some(TraitId(2)));
    assert_eq!(db.well_known_trait_id(WellKnownTrait::SizedTrait), None);
}

#[test]
fn store_lookups_return_the_declaration() {
    let db = database(generic_struct(), traits(vec![Some(WellKnownTrait::CloneTrait)]));
    assert_eq!(db.adt_datum(AdtId(1)).fields.len(), 0);
    assert_eq!(db.adt_datum(AdtId(0)).fields.len(), 2);
    assert_eq!(db.trait_datum(TraitId(0)).well_known, Some(WellKnownTrait::CloneTrait));
    assert!(db.associated_ty_value(chalk_wf::ir::AssociatedTyValueId(0)).is_none());
}

#[test]
fn self_type_is_the_first_type_argument() {
    let tr = TraitRef {
        trait_id: TraitId(0),
        substitution: vec![
            GenericArg::Lifetime(Lifetime::InferenceVar(0)),
            arg(adt(4, vec![])),
            arg(u32_ty()),
        ],
    };
    assert_eq!(tr.self_type_parameter(), Some(&adt(4, vec![])));
    assert_eq!(tr.self_type_parameter().unwrap().adt_id(), Some(AdtId(4)));
    assert_eq!(u32_ty().adt_id(), None);
    let none = TraitRef { trait_id: TraitId(0), substitution: vec![GenericArg::Lifetime(Lifetime::InferenceVar(0))] };
    assert_eq!(none.self_type_parameter(), None);
    let datum = impl_of(tr, vec![], vec![]);
    assert_eq!(datum.self_type_adt_id(), Some(AdtId(4)));
    assert_eq!(datum.trait_id(), TraitId(0));
    assert!(datum.is_positive());
}

#[test]
fn copy_on_scalar_owes_nothing() {
    let db = database(vec![], traits(vec![Some(WellKnownTrait::CopyTrait)]));
    assert_eq!(WfWellKnownGoals::copy_impl_constraint(&db, &trait_ref(0, u32_ty())), Ok(None));
    assert_eq!(WfWellKnownGoals::inside_impl(&db, &trait_ref(0, u32_ty())), Ok(None));
    assert_eq!(WfWellKnownGoals::copy_impl_constraint(&db, &trait_ref(0, var(0, 0))), Ok(None));
}

#[test]
fn copy_on_struct_asks_copy_of_fields_and_no_drop() {
    let db = database(
        generic_struct(),
        traits(vec![Some(WellKnownTrait::CopyTrait), Some(WellKnownTrait::DropTrait)]),
    );
    let self_ty = adt(0, vec![u32_ty()]);
    let expected = Goal::All(vec![
        Goal::implemented(TraitId(0), u32_ty()),
        Goal::implemented(TraitId(0), adt(1, vec![u32_ty()])),
        Goal::Not(Box::new(Goal::implemented(TraitId(1), self_ty.clone()))),
    ]);
    assert_eq!(WfWellKnownGoals::inside_impl(&db, &trait_ref(0, self_ty)), Ok(Some(expected)));
}

#[test]
fn copy_without_a_drop_trait_asks_only_of_fields() {
    let db = database(generic_struct(), traits(vec![Some(WellKnownTrait::CopyTrait)]));
    let expected = Goal::All(vec![
        Goal::implemented(TraitId(0), var(0, 7)),
        Goal::implemented(TraitId(0), adt(1, vec![var(0, 7)])),
    ]);
    assert_eq!(
        WfWellKnownGoals::copy_impl_constraint(&db, &trait_ref(0, adt(0, vec![var(0, 7)]))),
        Ok(Some(expected))
    );
    let empty = WfWellKnownGoals::copy_impl_constraint(&db, &trait_ref(0, adt(1, vec![u32_ty()])));
    assert_eq!(empty, Ok(Some(Goal::All(vec![]))));
}

#[test]
fn copy_with_wrong_arity_is_a_defect() {
    let db = database(generic_struct(), traits(vec![Some(WellKnownTrait::CopyTrait)]));
    assert_eq!(
        WfWellKnownGoals::copy_impl_constraint(&db, &trait_ref(0, adt(0, vec![]))),
        Err(InvariantViolation)
    );
    let lifetime_for_type = TraitRef {
        trait_id: TraitId(0),
        substitution: vec![arg(Ty::Apply {
            name: TypeName::Adt(AdtId(0)),
            substitution: vec![GenericArg::Lifetime(Lifetime::InferenceVar(0))],
        })],
    };
    assert_eq!(WfWellKnownGoals::copy_impl_constraint(&db, &lifetime_for_type), Err(InvariantViolation));
}

#[test]
fn inside_impl_is_silent_for_other_traits() {
    let db = database(
        generic_struct(),
        traits(vec![
            None,
            Some(WellKnownTrait::CloneTrait),
            Some(WellKnownTrait::DropTrait),
            Some(WellKnownTrait::SizedTrait),
            Some(WellKnownTrait::FnTrait),
            Some(WellKnownTrait::FnMutTrait),
            Some(WellKnownTrait::FnOnceTrait),
        ]),
    );
    for id in 0..7 {
        assert_eq!(WfWellKnownGoals::inside_impl(&db, &trait_ref(id, adt(0, vec![u32_ty()]))), Ok(None));
    }
}

#[test]
fn manual_sized_impl_cannot_be_proved() {
    let db = database(generic_struct(), traits(vec![Some(WellKnownTrait::SizedTrait)]));
    let datum = impl_of(trait_ref(0, adt(0, vec![u32_ty()])), vec![], vec![]);
    assert_eq!(WfWellKnownGoals::outside_impl(&db, &datum), Ok(Some(Goal::CannotProve)));
}

#[test]
fn outside_impl_is_silent_for_other_traits() {
    let db = database(
        generic_struct(),
        traits(vec![None, Some(WellKnownTrait::CopyTrait), Some(WellKnownTrait::CloneTrait), Some(WellKnownTrait::FnTrait)]),
    );
    for id in 0..4 {
        let datum = impl_of(trait_ref(id, adt(0, vec![u32_ty()])), vec![], vec![]);
        assert_eq!(WfWellKnownGoals::outside_impl(&db, &datum), Ok(None));
    }
}

#[test]
fn drop_on_non_nominal_cannot_be_proved() {
    let db = database(vec![], traits(vec![Some(WellKnownTrait::DropTrait)]));
    let datum = impl_of(trait_ref(0, u32_ty()), vec![], vec![]);
    assert_eq!(WfWellKnownGoals::drop_impl_constraint(&db, &datum), Ok(Some(Goal::CannotProve)));
    assert_eq!(WfWellKnownGoals::outside_impl(&db, &datum), Ok(Some(Goal::CannotProve)));
}

#[test]
fn drop_on_nominal_owes_genericity_and_coverage() {
    // impl<U> Drop for S<U> where U: Tr
    let db = database(generic_struct(), traits(vec![None, Some(WellKnownTrait::DropTrait), None]));
    let bound = TraitRef { trait_id: TraitId(2), substitution: vec![arg(var(1, 0))] };
    let datum = impl_of(
        trait_ref(1, adt(0, vec![var(0, 0)])),
        vec![VariableKind::Ty(TyKind::General)],
        vec![QuantifiedWhereClause { binders: vec![], value: WhereClause::Implemented(bound.clone()) }],
    );
    let genericity = Goal::Quantified {
        kind: QuantifierKind::ForAll,
        binders: vec![VariableKind::Ty(TyKind::General)],
        goal: Box::new(Goal::Implies {
            clauses: vec![ProgramClause::Implies(DomainGoal::FromEnvTy(adt(0, vec![var(0, 0)])))],
            goal: Box::new(Goal::Quantified {
                kind: QuantifierKind::ForAll,
                binders: vec![],
                goal: Box::new(Goal::DomainGoal(DomainGoal::WellFormedTrait(bound))),
            }),
        }),
    };
    let coverage = Goal::Quantified {
        kind: QuantifierKind::ForAll,
        binders: vec![VariableKind::Ty(TyKind::General)],
        goal: Box::new(Goal::Quantified {
            kind: QuantifierKind::Exists,
            binders: vec![VariableKind::Ty(TyKind::General)],
            goal: Box::new(Goal::EqGoal {
                a: arg(adt(0, vec![var(1, 0)])),
                b: arg(adt(0, vec![var(0, 0)])),
            }),
        }),
    };
    assert_eq!(
        WfWellKnownGoals::drop_impl_constraint(&db, &datum),
        Ok(Some(Goal::All(vec![genericity, coverage])))
    );
}

#[test]
fn drop_coverage_shifts_outer_references_of_the_self_type() {
    // A self type that mentions a binder outside the impl: ^1.0 must move
    // to ^2.0 under the declaration's quantifier, ^0.0 stays.
    let adts = vec![AdtDatum { binders: vec![VariableKind::Lifetime, VariableKind::Ty(TyKind::General)], fields: vec![], where_clauses: vec![] }];
    let db = database(adts, traits(vec![Some(WellKnownTrait::DropTrait)]));
    let self_ty = adt(0, vec![var(1, 0), var(0, 0)]);
    let datum = impl_of(trait_ref(0, self_ty.clone()), vec![VariableKind::Ty(TyKind::General)], vec![]);
    let declared = Ty::Apply {
        name: TypeName::Adt(AdtId(0)),
        substitution: vec![
            GenericArg::Lifetime(Lifetime::BoundVar(BoundVar { debruijn: 1, index: 0 })),
            arg(var(1, 1)),
        ],
    };
    let genericity = Goal::Quantified {
        kind: QuantifierKind::ForAll,
        binders: vec![VariableKind::Ty(TyKind::General)],
        goal: Box::new(Goal::Implies {
            clauses: vec![ProgramClause::Implies(DomainGoal::FromEnvTy(self_ty))],
            goal: Box::new(Goal::All(vec![])),
        }),
    };
    let coverage = Goal::Quantified {
        kind: QuantifierKind::ForAll,
        binders: vec![VariableKind::Lifetime, VariableKind::Ty(TyKind::General)],
        goal: Box::new(Goal::Quantified {
            kind: QuantifierKind::Exists,
            binders: vec![VariableKind::Ty(TyKind::General)],
            goal: Box::new(Goal::EqGoal { a: arg(declared), b: arg(adt(0, vec![var(2, 0), var(0, 0)])) }),
        }),
    };
    assert_eq!(
        WfWellKnownGoals::outside_impl(&db, &datum),
        Ok(Some(Goal::All(vec![genericity, coverage])))
    );
}

#[test]
fn rules_without_a_self_type_are_a_defect() {
    let db = database(vec![], traits(vec![Some(WellKnownTrait::CopyTrait), Some(WellKnownTrait::DropTrait)]));
    let copy = TraitRef { trait_id: TraitId(0), substitution: vec![] };
    assert_eq!(WfWellKnownGoals::copy_impl_constraint(&db, &copy), Err(InvariantViolation));
    let drop = impl_of(TraitRef { trait_id: TraitId(1), substitution: vec![] }, vec![], vec![]);
    assert_eq!(WfWellKnownGoals::drop_impl_constraint(&db, &drop), Err(InvariantViolation));
}

#[test]
fn identity_arguments_name_each_parameter() {
    let args = identity_args(&vec![VariableKind::Ty(TyKind::General), VariableKind::Lifetime, VariableKind::Ty(TyKind::General)]);
    assert_eq!(
        args,
        vec![
            arg(var(0, 0)),
            GenericArg::Lifetime(Lifetime::BoundVar(BoundVar { debruijn: 0, index: 1 })),
            arg(var(0, 2)),
        ]
    );
}

#[test]
fn implemented_goals_cover_a_prefix() {
    let tys = vec![u32_ty(), adt(0, vec![]), adt(1, vec![])];
    assert_eq!(
        implemented_goals(TraitId(3), &tys, 2),
        vec![Goal::implemented(TraitId(3), u32_ty()), Goal::implemented(TraitId(3), adt(0, vec![]))]
    );
    assert_eq!(implemented_goals(TraitId(3), &tys, 0), vec![]);
}

#[test]
fn conjunction_of_goals() {
    assert_eq!(Goal::all(vec![]), Goal::All(vec![]));
    assert_eq!(Goal::all(vec![Goal::CannotProve]), Goal::CannotProve);
    assert_eq!(
        Goal::all(vec![Goal::CannotProve, Goal::All(vec![])]),
        Goal::All(vec![Goal::CannotProve, Goal::All(vec![])])
    );
}

#[test]
fn where_clause_goal_forms() {
    let tr = trait_ref(0, u32_ty());
    let implemented = WhereClause::Implemented(tr.clone());
    assert_eq!(implemented.clone().into_well_formed_goal(), DomainGoal::WellFormedTrait(tr.clone()));
    assert_eq!(implemented.clone().into_from_env_goal(), DomainGoal::FromEnvTrait(tr.clone()));
    let alias = WhereClause::AliasEq {
        alias: chalk_wf::ir::AliasTy::Projection { associated_ty_id: chalk_wf::ir::AssocTypeId(0), substitution: vec![arg(u32_ty())] },
        ty: u32_ty(),
    };
    assert_eq!(alias.clone().into_well_formed_goal(), DomainGoal::Holds(alias.clone()));
    assert_eq!(alias.clone().into_from_env_goal(), DomainGoal::Holds(alias.clone()));
    let quantified = QuantifiedWhereClause { binders: vec![VariableKind::Lifetime], value: implemented };
    assert_eq!(
        quantified.clone().into_well_formed_goal(),
        Goal::Quantified {
            kind: QuantifierKind::ForAll,
            binders: vec![VariableKind::Lifetime],
            goal: Box::new(Goal::DomainGoal(DomainGoal::WellFormedTrait(tr.clone()))),
        }
    );
    assert_eq!(
        quantified.into_from_env_clause(),
        ProgramClause::ForAll { binders: vec![VariableKind::Lifetime], consequence: DomainGoal::FromEnvTrait(tr) }
    );
}

#[test]
fn store_admits_trait_references_it_can_resolve() {
    let db = database(generic_struct(), traits(vec![None]));
    assert!(db.does_admit(&trait_ref(0, adt(1, vec![u32_ty()]))));
    assert!(db.does_admit(&trait_ref(0, u32_ty())));
    assert!(db.does_admit(&TraitRef { trait_id: TraitId(0), substitution: vec![] }));
    assert!(!db.does_admit(&trait_ref(1, u32_ty())));
    assert!(!db.does_admit(&trait_ref(0, adt(2, vec![]))));
}

#[test]
fn store_well_formedness_is_decided() {
    let mut db = database(generic_struct(), traits(vec![None]));
    assert!(db.is_wf());
    db.impls.push(impl_of(trait_ref(0, adt(0, vec![u32_ty()])), vec![], vec![]));
    assert!(db.is_wf());
    db.impls.push(impl_of(trait_ref(0, adt(9, vec![])), vec![], vec![]));
    assert!(!db.is_wf());
    db.impls.pop();
    db.associated_ty_values.push(chalk_wf::decl::AssociatedTyValue {
        impl_id: chalk_wf::ir::ImplId(0),
        associated_ty_id: chalk_wf::ir::AssocTypeId(0),
        binders: vec![],
        ty: u32_ty(),
    });
    assert!(!db.is_wf());
    db.associated_tys.push(chalk_wf::decl::AssociatedTyDatum {
        trait_id: TraitId(0),
        binders: vec![],
        bounds: vec![],
        where_clauses: vec![],
    });
    assert!(db.is_wf());
    db.associated_ty_values[0].impl_id = chalk_wf::ir::ImplId(1);
    assert!(!db.is_wf());
}
