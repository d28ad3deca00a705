use chalk_wf::assoc::compute_assoc_ty_goal;
use chalk_wf::bound::{InlineBound, QuantifiedInlineBound};
use chalk_wf::violation::InvariantViolation;
use chalk_wf::decl::{
    AdtDatum, AssociatedTyDatum, AssociatedTyValue, Database, ImplDatum, Polarity, TraitDatum,
    WellKnownTrait,
};
use chalk_wf::goal::{DomainGoal, Goal, ProgramClause, QuantifierKind};
use chalk_wf::ir::TyKind;
use chalk_wf::ir::{
    AdtId, AliasTy, AssocTypeId, AssociatedTyValueId, BoundVar, GenericArg, ImplId, Lifetime,
    Mutability, QuantifiedWhereClause, TraitId, TraitRef, Ty, TypeName, VariableKind, WhereClause,
};
use chalk_wf::obligation::{adt_decl_wf_goal, impl_header_wf_goal, impl_wf_environment};
use chalk_wf::wf::{
    adt_verdict, impl_verdict, trait_impl_wf_goal, ClosedGoal, Solution, WfError, WfSolver,
};

fn var(debruijn: u32, index: usize) -> Ty {
    Ty::BoundVar(BoundVar { debruijn, index })
}

fn arg(ty: Ty) -> GenericArg {
    GenericArg::Ty(ty)
}

fn adt(id: usize, args: Vec<Ty>) -> Ty {
    Ty::Apply {
        name: TypeName::Adt(AdtId(id)),
        substitution: args.into_iter().map(GenericArg::Ty).collect(),
    }
}

fn implemented(trait_id: usize, args: Vec<Ty>) -> QuantifiedWhereClause {
    QuantifiedWhereClause { binders: vec![], value: WhereClause::Implemented(trait_ref(trait_id, args)) }
}

fn trait_ref(trait_id: usize, args: Vec<Ty>) -> TraitRef {
    TraitRef { trait_id: TraitId(trait_id), substitution: args.into_iter().map(GenericArg::Ty).collect() }
}

fn for_all(binders: Vec<VariableKind>, goal: Goal) -> Goal {
    Goal::Quantified { kind: QuantifierKind::ForAll, binders, goal: Box::new(goal) }
}

fn implies(clauses: Vec<ProgramClause>, goal: Goal) -> Goal {
    Goal::Implies { clauses, goal: Box::new(goal) }
}

fn well_formed(ty: Ty) -> Goal {
    Goal::DomainGoal(DomainGoal::WellFormedTy(ty))
}

/// Declaration 0 is `Vec<T>`, declaration 1 is
/// `struct Foo<T> where T: Eq { data: Vec<T> }`; trait 0 is `Eq`, trait 1
/// an ordinary trait with the impl `impl<T> Tr for Foo<T> where T: Eq`
/// (impl 0) and the negative impl of the same (impl 1).
fn sample() -> Database {
    let header = |polarity| ImplDatum {
        polarity,
        binders: vec![VariableKind::Ty(TyKind::General)],
        trait_ref: trait_ref(1, vec![adt(1, vec![var(0, 0)])]),
        where_clauses: vec![implemented(0, vec![var(1, 0)])],
        associated_ty_value_ids: vec![],
    };
    Database {
        adts: vec![
            AdtDatum { binders: vec![VariableKind::Ty(TyKind::General)], fields: vec![], where_clauses: vec![] },
            AdtDatum {
                binders: vec![VariableKind::Ty(TyKind::General)],
                fields: vec![adt(0, vec![var(0, 0)])],
                where_clauses: vec![implemented(0, vec![var(1, 0)])],
            },
        ],
        traits: vec![TraitDatum { well_known: None }, TraitDatum { well_known: None }],
        impls: vec![header(Polarity::Positive), header(Polarity::Negative)],
        associated_ty_values: vec![],
        associated_tys: vec![],
    }
}

fn foo_goal() -> Goal {
    for_all(
        vec![VariableKind::Ty(TyKind::General)],
        implies(
            vec![ProgramClause::ForAll {
                binders: vec![],
                consequence: DomainGoal::FromEnvTrait(trait_ref(0, vec![var(1, 0)])),
            }],
            well_formed(adt(0, vec![var(0, 0)])),
        ),
    )
}

fn header_goal() -> Goal {
    for_all(
        vec![VariableKind::Ty(TyKind::General)],
        implies(
            vec![
                ProgramClause::ForAll {
                    binders: vec![],
                    consequence: DomainGoal::FromEnvTrait(trait_ref(0, vec![var(1, 0)])),
                },
                ProgramClause::Implies(DomainGoal::FromEnvTy(adt(1, vec![var(0, 0)]))),
            ],
            Goal::DomainGoal(DomainGoal::WellFormedTrait(trait_ref(1, vec![adt(1, vec![var(0, 0)])]))),
        ),
    )
}

/// `trait Foo { type Item<'a>: Clone where Self: Marker; }` with
/// `impl<T> Foo for Box<T> { type Item<'a> = Box<&'a T>; }`.
fn with_associated_type() -> Database {
    Database {
        adts: vec![AdtDatum { binders: vec![VariableKind::Ty(TyKind::General)], fields: vec![], where_clauses: vec![] }],
        traits: vec![
            TraitDatum { well_known: None },
            TraitDatum { well_known: Some(WellKnownTrait::CloneTrait) },
            TraitDatum { well_known: None },
        ],
        impls: vec![ImplDatum {
            polarity: Polarity::Positive,
            binders: vec![VariableKind::Ty(TyKind::General)],
            trait_ref: trait_ref(0, vec![adt(0, vec![var(0, 0)])]),
            where_clauses: vec![],
            associated_ty_value_ids: vec![AssociatedTyValueId(7), AssociatedTyValueId(0)],
        }],
        associated_ty_values: vec![AssociatedTyValue {
            impl_id: ImplId(0),
            associated_ty_id: AssocTypeId(0),
            binders: vec![VariableKind::Lifetime, VariableKind::Ty(TyKind::General)],
            ty: boxed_ref(0),
        }],
        associated_tys: vec![AssociatedTyDatum {
            trait_id: TraitId(0),
            binders: vec![VariableKind::Lifetime, VariableKind::Ty(TyKind::General)],
            bounds: vec![QuantifiedInlineBound {
                binders: vec![],
                value: InlineBound::TraitBound { trait_id: TraitId(1), args_no_self: vec![] },
            }],
            where_clauses: vec![implemented(2, vec![var(1, 1)])],
        }],
    }
}

/// `&'a T` with `'a` and `T` parameters 0 and 1 of the binder `depth` out.
fn reference(depth: u32) -> Ty {
    Ty::Apply {
        name: TypeName::Ref(Mutability::Not),
        substitution: vec![
            GenericArg::Lifetime(Lifetime::BoundVar(BoundVar { debruijn: depth, index: 0 })),
            arg(var(depth, 1)),
        ],
    }
}

fn boxed_ref(depth: u32) -> Ty {
    adt(0, vec![reference(depth)])
}

fn item_goal() -> Goal {
    for_all(
        vec![VariableKind::Lifetime, VariableKind::Ty(TyKind::General)],
        implies(
            vec![ProgramClause::Implies(DomainGoal::FromEnvTy(adt(0, vec![var(0, 1)])))],
            implies(
                vec![ProgramClause::ForAll {
                    binders: vec![],
                    consequence: DomainGoal::FromEnvTrait(trait_ref(2, vec![adt(0, vec![var(1, 1)])])),
                }],
                Goal::All(vec![
                    well_formed(boxed_ref(0)),
                    well_formed(reference(0)),
                    for_all(
                        vec![],
                        Goal::DomainGoal(DomainGoal::WellFormedTrait(trait_ref(1, vec![boxed_ref(1)]))),
                    ),
                ]),
            ),
        ),
    )
}

fn item_header_goal() -> Goal {
    for_all(
        vec![VariableKind::Ty(TyKind::General)],
        implies(
            vec![ProgramClause::Implies(DomainGoal::FromEnvTy(adt(0, vec![var(0, 0)])))],
            Goal::DomainGoal(DomainGoal::WellFormedTrait(trait_ref(0, vec![adt(0, vec![var(0, 0)])]))),
        ),
    )
}

#[test]
fn type_declaration_obligation() {
    assert_eq!(adt_decl_wf_goal(&sample(), AdtId(1)), Ok(foo_goal()));
}

#[test]
fn type_declaration_without_fields_owes_a_trivial_goal() {
    let expected = for_all(vec![VariableKind::Ty(TyKind::General)], implies(vec![], Goal::All(vec![])));
    assert_eq!(adt_decl_wf_goal(&sample(), AdtId(0)), Ok(expected));
}

#[test]
fn type_declaration_with_sized_tail() {
    let mut db = sample();
    db.traits.push(TraitDatum { well_known: Some(WellKnownTrait::SizedTrait) });
    db.adts.push(AdtDatum {
        binders: vec![],
        fields: vec![adt(0, vec![adt(0, vec![])]), var(0, 0), adt(0, vec![])],
        where_clauses: vec![],
    });
    let expected = for_all(
        vec![],
        implies(
            vec![],
            Goal::All(vec![
                well_formed(adt(0, vec![adt(0, vec![])])),
                well_formed(adt(0, vec![])),
                well_formed(adt(0, vec![])),
                Goal::All(vec![
                    Goal::implemented(TraitId(2), adt(0, vec![adt(0, vec![])])),
                    Goal::implemented(TraitId(2), var(0, 0)),
                ]),
            ]),
        ),
    );
    assert_eq!(adt_decl_wf_goal(&db, AdtId(2)), Ok(expected));
}

#[test]
fn type_declaration_with_inference_variable_is_a_defect() {
    let mut db = sample();
    db.adts[0].fields.push(Ty::InferenceVar(0, TyKind::General));
    assert_eq!(adt_decl_wf_goal(&db, AdtId(0)), Err(InvariantViolation));
}

#[test]
fn impl_environment_holds_where_clauses_then_self_types() {
    let wcs = vec![implemented(0, vec![var(1, 0)])];
    let tr = trait_ref(1, vec![adt(1, vec![adt(0, vec![var(0, 0)])])]);
    assert_eq!(
        impl_wf_environment(&wcs, &tr),
        Ok(vec![
            ProgramClause::ForAll {
                binders: vec![],
                consequence: DomainGoal::FromEnvTrait(trait_ref(0, vec![var(1, 0)])),
            },
            ProgramClause::Implies(DomainGoal::FromEnvTy(adt(1, vec![adt(0, vec![var(0, 0)])]))),
            ProgramClause::Implies(DomainGoal::FromEnvTy(adt(0, vec![var(0, 0)]))),
        ])
    );
    assert_eq!(impl_wf_environment(&wcs, &trait_ref(1, vec![Ty::InferenceVar(0, TyKind::General)])), Err(InvariantViolation));
}

#[test]
fn impl_environment_assumes_nothing_of_other_trait_arguments() {
    // SelfTy: Tr<X> with X an application that does not occur in SelfTy.
    let self_ty = adt(1, vec![var(0, 0)]);
    let other = adt(0, vec![adt(0, vec![])]);
    let tr = trait_ref(1, vec![self_ty.clone(), other]);
    assert_eq!(
        impl_wf_environment(&vec![], &tr),
        Ok(vec![ProgramClause::Implies(DomainGoal::FromEnvTy(self_ty.clone()))])
    );
    // The self type is the first type among the arguments, wherever it stands.
    let after_lifetime = TraitRef {
        trait_id: TraitId(1),
        substitution: vec![
            GenericArg::Lifetime(Lifetime::BoundVar(BoundVar { debruijn: 0, index: 1 })),
            arg(self_ty.clone()),
            arg(adt(0, vec![])),
        ],
    };
    assert_eq!(
        impl_wf_environment(&vec![], &after_lifetime),
        Ok(vec![ProgramClause::Implies(DomainGoal::FromEnvTy(self_ty))])
    );
    // A defect in another argument does not touch the environment.
    let with_inference = trait_ref(1, vec![adt(0, vec![]), Ty::InferenceVar(0, TyKind::General)]);
    assert_eq!(
        impl_wf_environment(&vec![], &with_inference),
        Ok(vec![ProgramClause::Implies(DomainGoal::FromEnvTy(adt(0, vec![])))])
    );
}

#[test]
fn impl_environment_needs_a_self_type() {
    let none = TraitRef { trait_id: TraitId(1), substitution: vec![] };
    assert_eq!(impl_wf_environment(&vec![], &none), Err(InvariantViolation));
    let only_lifetime = TraitRef {
        trait_id: TraitId(1),
        substitution: vec![GenericArg::Lifetime(Lifetime::InferenceVar(0))],
    };
    assert_eq!(impl_wf_environment(&vec![], &only_lifetime), Err(InvariantViolation));
}

#[test]
fn header_goal_assumes_the_self_type_and_asks_the_whole_trait_reference() {
    // impl<T> Tr<Vec<T>> for Foo<T> where T: Eq
    let mut db = sample();
    let tr = trait_ref(1, vec![adt(1, vec![var(0, 0)]), adt(0, vec![var(0, 0)])]);
    db.impls[0].trait_ref = tr.clone();
    let expected = for_all(
        vec![VariableKind::Ty(TyKind::General)],
        implies(
            vec![
                ProgramClause::ForAll {
                    binders: vec![],
                    consequence: DomainGoal::FromEnvTrait(trait_ref(0, vec![var(1, 0)])),
                },
                ProgramClause::Implies(DomainGoal::FromEnvTy(adt(1, vec![var(0, 0)]))),
            ],
            Goal::DomainGoal(DomainGoal::WellFormedTrait(tr)),
        ),
    );
    assert_eq!(impl_header_wf_goal(&db, ImplId(0)), Ok(Some(expected)));
}

#[test]
fn positive_impl_has_a_header_goal() {
    assert_eq!(impl_header_wf_goal(&sample(), ImplId(0)), Ok(Some(header_goal())));
}

#[test]
fn negative_impl_has_no_header_goal() {
    assert_eq!(impl_header_wf_goal(&sample(), ImplId(1)), Ok(None));
}

#[test]
fn header_goal_includes_both_builtin_rules() {
    // impl Copy for Unit, with Copy declared: the inside rule joins the
    // body, and nothing stands outside.
    let mut db = sample();
    db.traits.push(TraitDatum { well_known: Some(WellKnownTrait::CopyTrait) });
    db.traits.push(TraitDatum { well_known: Some(WellKnownTrait::SizedTrait) });
    db.adts.push(AdtDatum { binders: vec![], fields: vec![], where_clauses: vec![] });
    let unit = adt(2, vec![]);
    db.impls.push(ImplDatum {
        polarity: Polarity::Positive,
        binders: vec![],
        trait_ref: trait_ref(2, vec![unit.clone()]),
        where_clauses: vec![],
        associated_ty_value_ids: vec![],
    });
    db.impls.push(ImplDatum {
        polarity: Polarity::Positive,
        binders: vec![],
        trait_ref: trait_ref(3, vec![unit.clone()]),
        where_clauses: vec![],
        associated_ty_value_ids: vec![],
    });
    let copy = for_all(
        vec![],
        implies(
            vec![ProgramClause::Implies(DomainGoal::FromEnvTy(unit.clone()))],
            Goal::All(vec![
                Goal::DomainGoal(DomainGoal::WellFormedTrait(trait_ref(2, vec![unit.clone()]))),
                Goal::All(vec![]),
            ]),
        ),
    );
    assert_eq!(impl_header_wf_goal(&db, ImplId(2)), Ok(Some(copy)));
    let sized = Goal::All(vec![
        for_all(
            vec![],
            implies(
                vec![ProgramClause::Implies(DomainGoal::FromEnvTy(unit.clone()))],
                Goal::DomainGoal(DomainGoal::WellFormedTrait(trait_ref(3, vec![unit]))),
            ),
        ),
        Goal::CannotProve,
    ]);
    assert_eq!(impl_header_wf_goal(&db, ImplId(3)), Ok(Some(sized)));
}

#[test]
fn projection_of_an_associated_type_value() {
    let db = with_associated_type();
    let parameters = vec![
        GenericArg::Lifetime(Lifetime::BoundVar(BoundVar { debruijn: 0, index: 0 })),
        arg(var(0, 1)),
    ];
    let (impl_parameters, projection) = db
        .impl_parameters_and_projection_from_associated_ty_value(&parameters, &db.associated_ty_values[0])
        .unwrap();
    assert_eq!(impl_parameters, vec![arg(var(0, 1))]);
    assert_eq!(
        projection,
        AliasTy::Projection {
            associated_ty_id: AssocTypeId(0),
            substitution: vec![parameters[0].clone(), arg(adt(0, vec![var(0, 1)]))],
        }
    );
    assert_eq!(
        db.impl_parameters_and_projection_from_associated_ty_value(&vec![], &db.associated_ty_values[0]),
        Err(InvariantViolation)
    );
}

#[test]
fn associated_type_value_obligation() {
    assert_eq!(compute_assoc_ty_goal(&with_associated_type(), AssociatedTyValueId(0)), Ok(Some(item_goal())));
}

#[test]
fn unresolved_associated_type_value_owes_nothing() {
    assert_eq!(compute_assoc_ty_goal(&with_associated_type(), AssociatedTyValueId(7)), Ok(None));
}

#[test]
fn associated_type_value_with_alias_bound() {
    let mut db = with_associated_type();
    db.associated_tys[0].bounds = vec![QuantifiedInlineBound {
        binders: vec![VariableKind::Lifetime],
        value: InlineBound::AliasEqBound {
            trait_id: TraitId(1),
            args_no_self: vec![arg(var(1, 1))],
            associated_ty_id: AssocTypeId(3),
            parameters: vec![GenericArg::Lifetime(Lifetime::BoundVar(BoundVar { debruijn: 0, index: 0 }))],
            value: var(1, 1),
        },
    }];
    db.associated_tys[0].where_clauses = vec![];
    // Inside the bound, the declaration's `Self` (^1.1) is the impl's
    // self type one binder in, `Box<^1.1>`, and the value is seen as
    // `Box<&^1.0 ^1.1>`.
    let self_in = adt(0, vec![var(1, 1)]);
    let bound_ref = TraitRef {
        trait_id: TraitId(1),
        substitution: vec![arg(boxed_ref(1)), arg(self_in.clone())],
    };
    let first = for_all(
        vec![VariableKind::Lifetime],
        Goal::DomainGoal(DomainGoal::WellFormedTrait(bound_ref.clone())),
    );
    let second = for_all(
        vec![VariableKind::Lifetime],
        Goal::DomainGoal(DomainGoal::Holds(WhereClause::AliasEq {
            alias: AliasTy::Projection {
                associated_ty_id: AssocTypeId(3),
                substitution: vec![
                    GenericArg::Lifetime(Lifetime::BoundVar(BoundVar { debruijn: 0, index: 0 })),
                    arg(boxed_ref(1)),
                    arg(self_in.clone()),
                ],
            },
            ty: self_in,
        })),
    );
    let expected = for_all(
        vec![VariableKind::Lifetime, VariableKind::Ty(TyKind::General)],
        implies(
            vec![ProgramClause::Implies(DomainGoal::FromEnvTy(adt(0, vec![var(0, 1)])))],
            implies(
                vec![],
                Goal::All(vec![well_formed(boxed_ref(0)), well_formed(reference(0)), first, second]),
            ),
        ),
    );
    assert_eq!(compute_assoc_ty_goal(&db, AssociatedTyValueId(0)), Ok(Some(expected)));
}

#[test]
fn associated_type_value_with_too_few_parameters_is_a_defect() {
    let mut db = with_associated_type();
    db.associated_ty_values[0].binders = vec![];
    db.associated_ty_values[0].ty = adt(0, vec![]);
    assert_eq!(compute_assoc_ty_goal(&db, AssociatedTyValueId(0)), Err(InvariantViolation));
    let mut db = with_associated_type();
    db.associated_tys[0].binders = vec![VariableKind::Ty(TyKind::General)];
    assert_eq!(compute_assoc_ty_goal(&db, AssociatedTyValueId(0)), Err(InvariantViolation));
}

#[test]
fn impl_obligation_joins_header_and_resolved_values() {
    assert_eq!(
        trait_impl_wf_goal(&with_associated_type(), ImplId(0)),
        Ok(Goal::All(vec![item_header_goal(), item_goal()]))
    );
    assert_eq!(trait_impl_wf_goal(&sample(), ImplId(0)), Ok(header_goal()));
    assert_eq!(trait_impl_wf_goal(&sample(), ImplId(1)), Ok(Goal::All(vec![])));
}

#[test]
fn closing_a_goal_gives_it_an_empty_environment() {
    assert_eq!(
        foo_goal().into_closed_goal(),
        ClosedGoal { environment: vec![], goal: foo_goal() }
    );
}

#[test]
fn verdict_follows_the_answer() {
    assert_eq!(adt_verdict(AdtId(3), Some(Solution::Unique)), Ok(()));
    assert_eq!(adt_verdict(AdtId(3), Some(Solution::Ambiguous)), Err(WfError::IllFormedTypeDecl(AdtId(3))));
    assert_eq!(adt_verdict(AdtId(3), None), Err(WfError::IllFormedTypeDecl(AdtId(3))));
    assert_eq!(impl_verdict(TraitId(4), Some(Solution::Unique)), Ok(()));
    assert_eq!(impl_verdict(TraitId(4), Some(Solution::Ambiguous)), Err(WfError::IllFormedTraitImpl(TraitId(4))));
    assert_eq!(impl_verdict(TraitId(4), None), Err(WfError::IllFormedTraitImpl(TraitId(4))));
    assert!(Solution::Unique.is_unique());
    assert!(!Solution::Ambiguous.is_unique());
}

#[test]
fn type_declaration_is_legal_iff_the_solution_is_unique() {
    let db = sample();
    let unique = WfSolver::new(&db, |_: &Database, _: &ClosedGoal| Some(Solution::Unique));
    assert_eq!(unique.verify_adt_decl(AdtId(1)), Ok(()));
    let ambiguous = WfSolver::new(&db, |_: &Database, _: &ClosedGoal| Some(Solution::Ambiguous));
    assert_eq!(ambiguous.verify_adt_decl(AdtId(1)), Err(WfError::IllFormedTypeDecl(AdtId(1))));
    let none = WfSolver::new(&db, |_: &Database, _: &ClosedGoal| None);
    assert_eq!(none.verify_adt_decl(AdtId(0)), Err(WfError::IllFormedTypeDecl(AdtId(0))));
}

#[test]
fn solver_is_asked_about_the_assembled_goal() {
    let db = sample();
    let expected = foo_goal().into_closed_goal();
    let judge = WfSolver::new(&db, |store: &Database, goal: &ClosedGoal| {
        if *store == sample() && *goal == expected {
            Some(Solution::Unique)
        } else {
            None
        }
    });
    assert_eq!(judge.verify_adt_decl(AdtId(1)), Ok(()));
    assert_eq!(judge.verify_adt_decl(AdtId(0)), Err(WfError::IllFormedTypeDecl(AdtId(0))));
    let expected = Goal::All(vec![item_header_goal(), item_goal()]).into_closed_goal();
    let db = with_associated_type();
    let judge = WfSolver::new(&db, |_: &Database, goal: &ClosedGoal| {
        if *goal == expected {
            Some(Solution::Unique)
        } else {
            Some(Solution::Ambiguous)
        }
    });
    assert_eq!(judge.verify_trait_impl(ImplId(0)), Ok(()));
}

#[test]
fn impl_error_names_the_trait() {
    let db = sample();
    let judge = WfSolver::new(&db, |_: &Database, _: &ClosedGoal| None);
    assert_eq!(judge.verify_trait_impl(ImplId(0)), Err(WfError::IllFormedTraitImpl(TraitId(1))));
    let unique = WfSolver::new(&db, |_: &Database, _: &ClosedGoal| Some(Solution::Unique));
    assert_eq!(unique.verify_trait_impl(ImplId(1)), Ok(()));
}

#[test]
fn repeated_verification_gives_the_same_verdict() {
    let db = with_associated_type();
    let by_shape = |_: &Database, goal: &ClosedGoal| match &goal.goal {
        Goal::All(goals) if goals.len() == 2 => Some(Solution::Ambiguous),
        _ => Some(Solution::Unique),
    };
    let judge = WfSolver::new(&db, by_shape);
    let first = judge.verify_trait_impl(ImplId(0));
    let second = judge.verify_trait_impl(ImplId(0));
    assert_eq!(first, Err(WfError::IllFormedTraitImpl(TraitId(0))));
    assert_eq!(first, second);
    let db = sample();
    let judge = WfSolver::new(&db, by_shape);
    assert_eq!(judge.verify_trait_impl(ImplId(0)), judge.verify_trait_impl(ImplId(0)));
    assert_eq!(judge.verify_trait_impl(ImplId(0)), Ok(()));
}

#[test]
fn error_messages_name_the_offender() {
    assert_eq!(
        WfError::IllFormedTypeDecl(AdtId(3)).message(),
        format!("type declaration `{:?}` does not meet well-formedness requirements", AdtId(3))
    );
    assert_eq!(
        WfError::IllFormedTraitImpl(TraitId(120)).message(),
        "trait impl for `TraitId(120)` does not meet well-formedness requirements"
    );
    for n in [0usize, 9, 10, 99, 100, 4096, usize::MAX] {
        assert_eq!(
            WfError::IllFormedTraitImpl(TraitId(n)).message(),
            format!("trait impl for `{:?}` does not meet well-formedness requirements", TraitId(n))
        );
    }
}

#[test]
fn sample_stores_are_well_scoped() {
    assert!(sample().is_well_scoped());
    assert!(sample().is_wf());
    assert!(with_associated_type().is_well_scoped());
    assert!(with_associated_type().is_wf());
    let mut db = sample();
    db.adts[1].fields.push(var(1, 0));
    assert!(!db.is_well_scoped());
    assert!(!db.adts[1].is_scoped());
    let mut db = with_associated_type();
    db.associated_ty_values[0].ty = boxed_ref(1);
    assert!(!db.is_well_scoped());
    let mut db = with_associated_type();
    db.associated_tys[0].where_clauses = vec![implemented(2, vec![var(2, 0)])];
    assert!(!db.is_well_scoped());
    assert!(!db.associated_tys[0].is_scoped());
    let mut db = with_associated_type();
    db.impls[0].trait_ref = trait_ref(0, vec![var(1, 0)]);
    assert!(!db.impls[0].is_scoped());
    assert!(!db.is_well_scoped());
}

#[test]
fn assembled_goals_are_closed() {
    let db = sample();
    assert!(adt_decl_wf_goal(&db, AdtId(0)).unwrap().is_closed());
    assert!(adt_decl_wf_goal(&db, AdtId(1)).unwrap().is_closed());
    assert!(trait_impl_wf_goal(&db, ImplId(0)).unwrap().is_closed());
    assert!(trait_impl_wf_goal(&db, ImplId(1)).unwrap().is_closed());
    let db = with_associated_type();
    assert!(trait_impl_wf_goal(&db, ImplId(0)).unwrap().is_closed());
    assert!(compute_assoc_ty_goal(&db, AssociatedTyValueId(0)).unwrap().unwrap().is_closed());
    assert!(item_goal().is_closed());
    assert!(header_goal().is_closed());
}

#[test]
fn goal_of_an_ill_scoped_declaration_is_not_closed() {
    let mut db = sample();
    db.adts[1].fields = vec![adt(0, vec![var(1, 0)])];
    let goal = adt_decl_wf_goal(&db, AdtId(1)).unwrap();
    assert!(!goal.is_closed());
    assert!(goal.is_within(1));
}

#[test]
fn scope_of_goals() {
    let open = well_formed(adt(0, vec![var(0, 0)]));
    assert!(!open.is_closed());
    assert!(open.is_within(1));
    assert!(for_all(vec![VariableKind::Ty(TyKind::General)], well_formed(adt(0, vec![var(0, 0)]))).is_closed());
    assert!(!for_all(vec![], well_formed(var(1, 0))).is_closed());
    assert!(Goal::CannotProve.is_closed());
    assert!(Goal::All(vec![]).is_closed());
    assert!(!Goal::All(vec![Goal::CannotProve, well_formed(var(0, 0))]).is_closed());
    assert!(!Goal::Not(Box::new(well_formed(var(0, 0)))).is_closed());
    assert!(!Goal::EqGoal { a: arg(adt(0, vec![])), b: arg(var(3, 0)) }.is_within(3));
    assert!(Goal::EqGoal { a: arg(adt(0, vec![])), b: arg(var(3, 0)) }.is_within(4));
    let hypothesis = ProgramClause::ForAll {
        binders: vec![],
        consequence: DomainGoal::FromEnvTrait(trait_ref(0, vec![var(1, 0)])),
    };
    assert!(!implies(vec![hypothesis], Goal::CannotProve).is_closed());
    let hypothesis = ProgramClause::ForAll {
        binders: vec![],
        consequence: DomainGoal::FromEnvTrait(trait_ref(0, vec![var(0, 0)])),
    };
    assert!(implies(vec![hypothesis], Goal::CannotProve).is_closed());
    assert!(!implies(vec![ProgramClause::Implies(DomainGoal::FromEnvTy(var(0, 0)))], Goal::CannotProve).is_closed());
    let ty = Ty::Function { num_binders: 1, substitution: vec![arg(var(0, 0))] };
    assert!(well_formed(ty).is_closed());
    assert!(well_formed(var(u32::MAX - 1, 0)).is_within(u32::MAX));
    assert!(!well_formed(var(u32::MAX, 0)).is_within(u32::MAX));
    let deep = Ty::Function { num_binders: 1, substitution: vec![arg(var(u32::MAX, 0))] };
    assert!(well_formed(deep).is_within(u32::MAX));
}
