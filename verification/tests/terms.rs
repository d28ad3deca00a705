use chalk_wf::collect::InputTypeCollector;
use chalk_wf::fold::{fold_args_with, move_free_var, Folder};
use chalk_wf::index::{checked_enter_binder, checked_shifted_in_from};
use chalk_wf::ir::TyKind;
use chalk_wf::ir::{
    AdtId, AliasTy, AssocTypeId, BoundVar, GenericArg, Lifetime, OpaqueTyId, PlaceholderIndex,
    QuantifiedWhereClause, Scalar, TraitId, TraitRef, Ty, TypeName, UintTy, VariableKind,
    WhereClause,
};

fn bv(debruijn: u32, index: usize) -> BoundVar {
    BoundVar { debruijn, index }
}

fn var(debruijn: u32, index: usize) -> Ty {
    Ty::BoundVar(bv(debruijn, index))
}

fn arg(ty: Ty) -> GenericArg {
    GenericArg::Ty(ty)
}

fn adt(id: usize, args: Vec<Ty>) -> Ty {
    Ty::Apply {
        name: TypeName::Adt(AdtId(id)),
        substitution: args.into_iter().map(GenericArg::Ty).collect(),
    }
}

fn u32_ty() -> Ty {
    Ty::Apply { name: TypeName::Scalar(Scalar::Uint(UintTy::U32)), substitution: vec![] }
}

fn bool_ty() -> Ty {
    Ty::Apply { name: TypeName::Scalar(Scalar::Bool), substitution: vec![] }
}

fn implemented(trait_id: usize, args: Vec<GenericArg>) -> QuantifiedWhereClause {
    QuantifiedWhereClause {
        binders: vec![],
        value: WhereClause::Implemented(TraitRef { trait_id: TraitId(trait_id), substitution: args }),
    }
}

fn dyn_ty(bounds: Vec<QuantifiedWhereClause>) -> Ty {
    Ty::Dyn { binders: vec![VariableKind::Ty(TyKind::General)], bounds }
}

#[test]
fn checked_shift_adds_depths() {
    assert_eq!(checked_shifted_in_from(bv(3, 1), 4), Some(bv(7, 1)));
    assert_eq!(checked_shifted_in_from(bv(0, 9), 0), Some(bv(0, 9)));
    assert_eq!(checked_shifted_in_from(bv(u32::MAX, 0), 0), Some(bv(u32::MAX, 0)));
}

#[test]
fn checked_shift_refuses_overflow() {
    assert_eq!(checked_shifted_in_from(bv(u32::MAX, 0), 1), None);
    assert_eq!(checked_shifted_in_from(bv(1, 0), u32::MAX), None);
}

#[test]
fn entering_a_binder_adds_one() {
    assert_eq!(checked_enter_binder(0), Some(1));
    assert_eq!(checked_enter_binder(5), Some(6));
    assert_eq!(checked_enter_binder(u32::MAX), None);
}

#[test]
fn free_variable_moves_by_folder() {
    assert_eq!(move_free_var(&Folder::ShiftIn(2), bv(1, 4), 3), Some(bv(6, 4)));
    assert_eq!(move_free_var(&Folder::ShiftOut(2), bv(3, 1), 0), Some(bv(1, 1)));
    assert_eq!(move_free_var(&Folder::ShiftOut(2), bv(2, 1), 5), Some(bv(5, 1)));
    assert_eq!(move_free_var(&Folder::ShiftOut(2), bv(1, 1), 0), None);
    let params: Vec<GenericArg> = vec![];
    assert_eq!(move_free_var(&Folder::Subst(&params), bv(2, 0), 1), Some(bv(2, 0)));
    assert_eq!(move_free_var(&Folder::Subst(&params), bv(0, 0), 1), None);
}

#[test]
fn shift_in_moves_free_variables() {
    let ty = adt(0, vec![var(0, 0), var(1, 2)]);
    assert_eq!(ty.fold_with(&Folder::ShiftIn(2), 0), Some(adt(0, vec![var(2, 0), var(3, 2)])));
}

#[test]
fn shift_in_by_zero_is_identity() {
    let ty = adt(0, vec![var(0, 0), dyn_ty(vec![implemented(1, vec![arg(var(1, 0)), arg(var(2, 0))])])]);
    assert_eq!(ty.fold_with(&Folder::ShiftIn(0), 0), Some(ty.clone()));
}

#[test]
fn shift_in_leaves_variables_bound_inside() {
    // for<..> fn(^0.0, ^1.0): only the second refers outside the function type.
    let ty = Ty::Function { num_binders: 1, substitution: vec![arg(var(0, 0)), arg(var(1, 0))] };
    let expected = Ty::Function { num_binders: 1, substitution: vec![arg(var(0, 0)), arg(var(2, 0))] };
    assert_eq!(ty.fold_with(&Folder::ShiftIn(1), 0), Some(expected));
}

#[test]
fn shift_out_lowers_depth() {
    assert_eq!(var(3, 1).fold_with(&Folder::ShiftOut(2), 0), Some(var(1, 1)));
    assert_eq!(var(2, 0).fold_with(&Folder::ShiftOut(2), 0), Some(var(0, 0)));
}

#[test]
fn shift_out_refuses_captured_variable() {
    assert_eq!(var(0, 0).fold_with(&Folder::ShiftOut(1), 0), None);
    assert_eq!(adt(0, vec![u32_ty(), var(1, 0)]).fold_with(&Folder::ShiftOut(2), 0), None);
}

#[test]
fn shift_out_then_in_round_trips() {
    let ty = adt(3, vec![var(2, 1), u32_ty()]);
    let out = ty.fold_with(&Folder::ShiftOut(2), 0).unwrap();
    assert_eq!(out, adt(3, vec![var(0, 1), u32_ty()]));
    assert_eq!(out.fold_with(&Folder::ShiftIn(2), 0), Some(ty));
}

#[test]
fn shifts_compose_across_nested_binders() {
    // dyn for<> Tr<fn(^0.0, ^2.0, ^3.1)>: inside the function type three
    // binders have been entered, so only ^3.1 is free.
    let inner = Ty::Function {
        num_binders: 1,
        substitution: vec![arg(var(0, 0)), arg(var(2, 0)), arg(var(3, 1))],
    };
    let ty = dyn_ty(vec![implemented(0, vec![arg(var(1, 0)), arg(inner)])]);
    let moved = Ty::Function {
        num_binders: 1,
        substitution: vec![arg(var(0, 0)), arg(var(2, 0)), arg(var(5, 1))],
    };
    let expected = dyn_ty(vec![implemented(0, vec![arg(var(1, 0)), arg(moved)])]);
    let once = ty.fold_with(&Folder::ShiftIn(1), 0).unwrap();
    let twice = once.fold_with(&Folder::ShiftIn(1), 0).unwrap();
    assert_eq!(twice, expected);
    assert_eq!(ty.fold_with(&Folder::ShiftIn(2), 0), Some(expected));
}

#[test]
fn substitution_replaces_innermost_parameters() {
    let params = vec![arg(u32_ty()), arg(bool_ty())];
    let ty = adt(0, vec![var(0, 1), var(0, 0)]);
    assert_eq!(ty.fold_with(&Folder::Subst(&params), 0), Some(adt(0, vec![bool_ty(), u32_ty()])));
}

#[test]
fn substitution_moves_outer_variables_out() {
    let params = vec![arg(u32_ty())];
    let ty = adt(0, vec![var(1, 3), var(0, 0)]);
    assert_eq!(ty.fold_with(&Folder::Subst(&params), 0), Some(adt(0, vec![var(0, 3), u32_ty()])));
}

#[test]
fn substitution_shifts_argument_under_binders() {
    // Inside the trait object two binders have been entered: ^2.0 is the
    // parameter being replaced, and the argument ^0.3 must become ^2.3.
    let params = vec![arg(var(0, 3))];
    let ty = dyn_ty(vec![implemented(0, vec![arg(var(1, 0)), arg(var(2, 0)), arg(var(3, 1))])]);
    let expected = dyn_ty(vec![implemented(0, vec![arg(var(1, 0)), arg(var(2, 3)), arg(var(2, 1))])]);
    assert_eq!(ty.fold_with(&Folder::Subst(&params), 0), Some(expected));
}

#[test]
fn substitution_refuses_wrong_kind_and_missing_argument() {
    let lifetime = vec![GenericArg::Lifetime(Lifetime::Placeholder(PlaceholderIndex { universe: 0, idx: 0 }))];
    assert_eq!(var(0, 0).fold_with(&Folder::Subst(&lifetime), 0), None);
    let one = vec![arg(u32_ty())];
    assert_eq!(var(0, 1).fold_with(&Folder::Subst(&one), 0), None);
    assert_eq!(Lifetime::BoundVar(bv(0, 0)).fold_with(&Folder::Subst(&one), 0), None);
}

#[test]
fn substitution_of_lifetimes() {
    let params = vec![GenericArg::Lifetime(Lifetime::BoundVar(bv(1, 2))), arg(u32_ty())];
    assert_eq!(
        Lifetime::BoundVar(bv(0, 0)).fold_with(&Folder::Subst(&params), 0),
        Some(Lifetime::BoundVar(bv(1, 2)))
    );
    assert_eq!(
        Lifetime::BoundVar(bv(2, 0)).fold_with(&Folder::Subst(&params), 2),
        Some(Lifetime::BoundVar(bv(3, 2)))
    );
    assert_eq!(
        Lifetime::BoundVar(bv(1, 0)).fold_with(&Folder::Subst(&params), 0),
        Some(Lifetime::BoundVar(bv(0, 0)))
    );
    assert_eq!(Lifetime::InferenceVar(4).fold_with(&Folder::Subst(&params), 0), Some(Lifetime::InferenceVar(4)));
}

#[test]
fn folding_refuses_depth_overflow() {
    assert_eq!(var(1, 0).fold_with(&Folder::ShiftIn(u32::MAX), 0), None);
    assert_eq!(dyn_ty(vec![]).fold_with(&Folder::ShiftIn(0), u32::MAX), None);
}

#[test]
fn folding_keeps_placeholders_and_inference_variables() {
    let p = Ty::Placeholder(PlaceholderIndex { universe: 1, idx: 2 });
    assert_eq!(p.fold_with(&Folder::ShiftOut(3), 0), Some(p.clone()));
    assert_eq!(Ty::InferenceVar(7, TyKind::General).fold_with(&Folder::ShiftIn(3), 0), Some(Ty::InferenceVar(7, TyKind::General)));
}

#[test]
fn folding_a_list_fails_as_a_whole() {
    let args = vec![arg(var(2, 0)), arg(var(0, 0))];
    assert_eq!(fold_args_with(&args, &Folder::ShiftOut(1), 0), None);
    assert_eq!(fold_args_with(&args, &Folder::ShiftOut(0), 0), Some(args.clone()));
}

#[test]
fn application_of_bound_parameter_yields_itself_only() {
    let ty = adt(0, vec![var(0, 0)]);
    assert_eq!(InputTypeCollector::types_in_ty(&ty), Some(vec![ty.clone()]));
}

#[test]
fn function_type_yields_nothing() {
    let ty = Ty::Function { num_binders: 1, substitution: vec![arg(adt(0, vec![u32_ty()])), arg(Ty::InferenceVar(0, TyKind::General))] };
    assert_eq!(InputTypeCollector::types_in_ty(&ty), Some(vec![]));
}

#[test]
fn bound_variable_yields_nothing() {
    assert_eq!(InputTypeCollector::types_in_ty(&var(0, 0)), Some(vec![]));
}

#[test]
fn nested_applications_are_recorded_outside_in() {
    let inner = adt(1, vec![var(0, 0)]);
    let outer = adt(0, vec![inner.clone(), u32_ty()]);
    assert_eq!(InputTypeCollector::types_in_ty(&outer), Some(vec![outer.clone(), inner, u32_ty()]));
}

#[test]
fn duplicates_are_kept() {
    let pair = Ty::Apply { name: TypeName::Tuple(2), substitution: vec![arg(u32_ty()), arg(u32_ty())] };
    assert_eq!(InputTypeCollector::types_in_ty(&pair), Some(vec![pair.clone(), u32_ty(), u32_ty()]));
}

#[test]
fn placeholder_and_aliases_are_recorded() {
    let p = Ty::Placeholder(PlaceholderIndex { universe: 0, idx: 1 });
    assert_eq!(InputTypeCollector::types_in_ty(&p), Some(vec![p.clone()]));
    let projection = Ty::Alias(AliasTy::Projection {
        associated_ty_id: AssocTypeId(0),
        substitution: vec![arg(adt(0, vec![]))],
    });
    assert_eq!(InputTypeCollector::types_in_ty(&projection), Some(vec![projection.clone(), adt(0, vec![])]));
    let opaque = Ty::Alias(AliasTy::Opaque { opaque_ty_id: OpaqueTyId(2), substitution: vec![arg(p.clone())] });
    assert_eq!(InputTypeCollector::types_in_ty(&opaque), Some(vec![opaque.clone(), p]));
}

#[test]
fn inference_variable_is_refused() {
    assert_eq!(InputTypeCollector::types_in_ty(&Ty::InferenceVar(0, TyKind::General)), None);
    assert_eq!(InputTypeCollector::types_in_ty(&adt(0, vec![u32_ty(), Ty::InferenceVar(1, TyKind::General)])), None);
}

#[test]
fn lifetimes_hold_no_input_types() {
    let ty = Ty::Apply {
        name: TypeName::Ref(chalk_wf::ir::Mutability::Not),
        substitution: vec![GenericArg::Lifetime(Lifetime::InferenceVar(0)), arg(u32_ty())],
    };
    assert_eq!(InputTypeCollector::types_in_ty(&ty), Some(vec![ty.clone(), u32_ty()]));
}

#[test]
fn types_inside_a_trait_object_are_moved_out() {
    // dyn Tr<Vec<T>> with T the caller's ^0.0: inside the bound it is ^2.0.
    let ty = dyn_ty(vec![implemented(0, vec![arg(var(1, 0)), arg(adt(1, vec![var(2, 0)]))])]);
    assert_eq!(
        InputTypeCollector::types_in_ty(&ty),
        Some(vec![ty.clone(), adt(1, vec![var(0, 0)])])
    );
}

#[test]
fn type_naming_the_trait_objects_self_is_refused() {
    let ty = dyn_ty(vec![implemented(0, vec![arg(var(1, 0)), arg(adt(1, vec![var(1, 0)]))])]);
    assert_eq!(InputTypeCollector::types_in_ty(&ty), None);
}

#[test]
fn where_clause_traversal() {
    let trait_clause = implemented(0, vec![arg(var(1, 0)), arg(adt(0, vec![var(1, 1)]))]);
    let alias = AliasTy::Projection { associated_ty_id: AssocTypeId(0), substitution: vec![arg(var(1, 0))] };
    let alias_clause = QuantifiedWhereClause {
        binders: vec![],
        value: WhereClause::AliasEq { alias: alias.clone(), ty: adt(5, vec![]) },
    };
    let shifted_alias = Ty::Alias(AliasTy::Projection { associated_ty_id: AssocTypeId(0), substitution: vec![arg(var(0, 0))] });
    assert_eq!(
        InputTypeCollector::types_in_where_clauses(&vec![trait_clause, alias_clause]),
        Some(vec![adt(0, vec![var(0, 1)]), shifted_alias])
    );
}

#[test]
fn collector_visits_accumulate() {
    let mut collector = InputTypeCollector::new();
    assert_eq!(collector.types, vec![]);
    collector.visit_ty(&u32_ty(), 0);
    collector.visit_where_clause(
        &WhereClause::Implemented(TraitRef { trait_id: TraitId(0), substitution: vec![arg(bool_ty())] }),
        0,
    );
    collector.visit_arg(&GenericArg::Lifetime(Lifetime::InferenceVar(0)), 0);
    collector.visit_arg(&arg(adt(2, vec![var(1, 0)])), 1);
    assert_eq!(collector.types, vec![u32_ty(), bool_ty(), adt(2, vec![var(0, 0)])]);
}

#[test]
fn collector_visits_lists_in_order() {
    let mut collector = InputTypeCollector::new();
    collector.visit_tys(&vec![adt(0, vec![]), var(0, 0), adt(1, vec![u32_ty()])], 0);
    collector.visit_args(&vec![arg(bool_ty()), GenericArg::Lifetime(Lifetime::InferenceVar(0))], 0);
    collector.visit_qwcs(&vec![implemented(0, vec![arg(var(1, 0)), arg(adt(3, vec![var(1, 2)]))])], 0);
    collector.visit_qwc(&implemented(0, vec![arg(adt(4, vec![]))]), 0);
    collector.visit_trait_ref(
        &TraitRef { trait_id: TraitId(0), substitution: vec![arg(adt(5, vec![var(0, 0)]))] },
        0,
    );
    assert_eq!(
        collector.types,
        vec![
            adt(0, vec![]),
            adt(1, vec![u32_ty()]),
            u32_ty(),
            bool_ty(),
            adt(3, vec![var(0, 2)]),
            adt(4, vec![]),
            adt(5, vec![var(0, 0)]),
        ]
    );
}

#[test]
fn traversal_accepts_what_it_can_state_outside() {
    assert!(InputTypeCollector::accepts_ty(&u32_ty(), 0));
    assert!(InputTypeCollector::accepts_ty(&var(0, 0), 3));
    assert!(InputTypeCollector::accepts_ty(&adt(0, vec![var(2, 0)]), 2));
    let function = Ty::Function { num_binders: 1, substitution: vec![arg(Ty::InferenceVar(0, TyKind::General))] };
    assert!(InputTypeCollector::accepts_ty(&function, 0));
    let ty = dyn_ty(vec![implemented(0, vec![arg(var(1, 0)), arg(adt(1, vec![var(2, 0)]))])]);
    assert!(InputTypeCollector::accepts_ty(&ty, 0));
    assert!(InputTypeCollector::accepts_arg(&GenericArg::Lifetime(Lifetime::InferenceVar(0)), 0));
    assert!(InputTypeCollector::accepts_args(&vec![arg(u32_ty()), arg(var(0, 0))], 0));
    assert!(InputTypeCollector::accepts_tys(&vec![], 0));
    assert!(InputTypeCollector::accepts_qwcs(&vec![implemented(0, vec![arg(var(1, 0))])], 0));
    assert!(InputTypeCollector::accepts_qwc(&implemented(0, vec![arg(adt(0, vec![var(1, 0)]))]), 0));
    let tr = TraitRef { trait_id: TraitId(0), substitution: vec![arg(adt(0, vec![]))] };
    assert!(InputTypeCollector::accepts_trait_ref(&tr, 0));
    assert!(InputTypeCollector::accepts_where_clause(&WhereClause::Implemented(tr), 0));
    let alias = AliasTy::Projection { associated_ty_id: AssocTypeId(0), substitution: vec![arg(var(1, 0))] };
    assert!(InputTypeCollector::accepts_alias(&alias, 1));
}

#[test]
fn traversal_refuses_defects() {
    let inference = Ty::InferenceVar(0, TyKind::General);
    assert!(!InputTypeCollector::accepts_ty(&inference, 0));
    assert!(!InputTypeCollector::accepts_ty(&adt(0, vec![u32_ty(), inference.clone()]), 0));
    assert!(!InputTypeCollector::accepts_arg(&arg(inference.clone()), 0));
    assert!(!InputTypeCollector::accepts_args(&vec![arg(u32_ty()), arg(inference.clone())], 0));
    assert!(!InputTypeCollector::accepts_tys(&vec![u32_ty(), inference.clone()], 0));
    // A type that names a binder entered on the way to it.
    assert!(!InputTypeCollector::accepts_ty(&adt(0, vec![var(0, 0)]), 1));
    assert!(!InputTypeCollector::accepts_ty(&adt(0, vec![var(1, 0)]), 2));
    let ty = dyn_ty(vec![implemented(0, vec![arg(var(1, 0)), arg(adt(1, vec![var(1, 0)]))])]);
    assert!(!InputTypeCollector::accepts_ty(&ty, 0));
    assert!(!InputTypeCollector::accepts_qwc(&implemented(0, vec![arg(adt(0, vec![var(0, 0)]))]), 0));
    assert!(!InputTypeCollector::accepts_qwcs(
        &vec![implemented(0, vec![arg(u32_ty())]), implemented(0, vec![arg(inference.clone())])],
        0
    ));
    let tr = TraitRef { trait_id: TraitId(0), substitution: vec![arg(inference)] };
    assert!(!InputTypeCollector::accepts_trait_ref(&tr, 0));
    assert!(!InputTypeCollector::accepts_where_clause(&WhereClause::Implemented(tr), 0));
    let alias = AliasTy::Projection { associated_ty_id: AssocTypeId(0), substitution: vec![arg(var(0, 0))] };
    assert!(!InputTypeCollector::accepts_alias(&alias, 1));
    // Depth beyond `u32`.
    assert!(!InputTypeCollector::accepts_ty(&dyn_ty(vec![]), u32::MAX));
    assert!(!InputTypeCollector::accepts_qwc(&implemented(0, vec![]), u32::MAX));
}

#[test]
fn declaration_traversal_visits_fields_first() {
    let fields = vec![adt(0, vec![]), var(0, 0)];
    let wcs = vec![implemented(0, vec![arg(var(1, 0)), arg(u32_ty())])];
    assert_eq!(InputTypeCollector::types_in_decl(&fields, &wcs), Some(vec![adt(0, vec![]), u32_ty()]));
    let bad_field = vec![Ty::InferenceVar(0, TyKind::General)];
    assert_eq!(InputTypeCollector::types_in_decl(&bad_field, &wcs), None);
    let bad_clause = vec![implemented(0, vec![arg(Ty::InferenceVar(0, TyKind::General))])];
    assert_eq!(InputTypeCollector::types_in_decl(&fields, &bad_clause), None);
    assert_eq!(InputTypeCollector::types_in_where_clauses(&bad_clause), None);
}

#[test]
fn clone_is_deep_and_equal() {
    let ty = dyn_ty(vec![implemented(0, vec![arg(var(1, 0)), arg(adt(1, vec![var(2, 0)]))])]);
    assert_eq!(ty.clone(), ty);
    let tr = TraitRef { trait_id: TraitId(3), substitution: vec![arg(ty.clone())] };
    assert_eq!(tr.clone(), tr);
}

#[test]
fn shift_in_then_out_round_trips() {
    let ty = dyn_ty(vec![implemented(0, vec![arg(var(1, 0)), arg(adt(1, vec![var(2, 0), var(7, 3)]))])]);
    let moved = ty.fold_with(&Folder::ShiftIn(5), 0).unwrap();
    assert_eq!(
        moved,
        dyn_ty(vec![implemented(0, vec![arg(var(1, 0)), arg(adt(1, vec![var(7, 0), var(12, 3)]))])])
    );
    assert_eq!(moved.fold_with(&Folder::ShiftOut(5), 0), Some(ty));
}

#[test]
fn substitution_ignores_a_term_moved_past_its_binder() {
    let ty = dyn_ty(vec![implemented(0, vec![arg(var(1, 0)), arg(adt(1, vec![var(2, 0), var(0, 1)]))])]);
    let moved = ty.fold_with(&Folder::ShiftIn(1), 0).unwrap();
    let params = vec![arg(u32_ty()), arg(bool_ty())];
    assert_eq!(moved.fold_with(&Folder::Subst(&params), 0), Some(ty.clone()));
    let none: Vec<GenericArg> = vec![];
    assert_eq!(moved.fold_with(&Folder::Subst(&none), 0), Some(ty));
}

#[test]
fn scope_of_terms() {
    assert!(u32_ty().is_within(0));
    assert!(!var(0, 0).is_within(0));
    assert!(var(0, 5).is_within(1));
    assert!(!var(2, 0).is_within(2));
    let ty = dyn_ty(vec![implemented(0, vec![arg(var(1, 0)), arg(adt(1, vec![var(2, 0)]))])]);
    assert!(!ty.is_within(0));
    assert!(ty.is_within(1));
    assert!(dyn_ty(vec![implemented(0, vec![arg(var(1, 0))])]).is_within(0));
    assert!(Lifetime::InferenceVar(0).is_within(0));
    assert!(!Lifetime::BoundVar(bv(0, 0)).is_within(0));
    assert!(Ty::InferenceVar(3, TyKind::Integer).is_within(0));
    let clause = implemented(0, vec![arg(var(1, 0))]);
    assert!(!clause.is_within(0));
    assert!(clause.is_within(1));
    assert!(!clause.value.is_within(1));
    assert!(clause.value.is_within(2));
}
