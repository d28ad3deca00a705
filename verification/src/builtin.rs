//! Legality rules of the built-in traits Sized, Copy and Drop.
use vstd::prelude::*;
use crate::decl::{first_type, nominal_id, Database, ImplDatum, WellKnownTrait};
use crate::fold::{fold_ty, fold_tys, fold_tys_with, Folder, FolderModel};
use crate::goal::{
    all_of, exists_goal, forall_goal, goals_model, implemented_goal, implies_goal,
    qwc_well_formed_goal, ty_from_env_clause, DomainGoal, Goal, GoalModel, ProgramClause,
    clauses_model,
};
use crate::ir::{
    args_model, clone_kinds, qwcs_model, tys_model, AdtId, BoundVar, GenericArg, GenericArgModel,
    Lifetime, QuantifiedWhereClause, QuantifiedWhereClauseModel, TraitId, TraitRef, TraitRefModel,
    Ty, TyModel, TypeName, VariableKind,
};
use crate::violation::{yields, InvariantViolation};

verus! {

broadcast use vstd::std_specs::vec::group_vec_axioms;

/// `trait_id` implemented for each of the types.
pub open spec fn implemented_all(trait_id: TraitId, tys: Seq<TyModel>) -> Seq<GoalModel> {
    Seq::new(tys.len(), |i: int| implemented_goal(trait_id, tys[i]))
}

/// The tail constraint of a declaration's fields: none for at most one
/// field or where no Sized trait is declared, otherwise Sized for every
/// field but the last.
pub open spec fn sized_constraint(db: Database, fields: Seq<TyModel>) -> Option<GoalModel> {
    if fields.len() <= 1 {
        None
    } else {
        match db.well_known_trait_id_spec(WellKnownTrait::SizedTrait) {
            Some(sized) => Some(all_of(implemented_all(sized, fields.drop_last()))),
            None => None,
        }
    }
}

/// `not { Implemented(ty: Drop) }`, where a Drop trait is declared.
pub open spec fn no_drop_goal(db: Database, ty: TyModel) -> Seq<GoalModel> {
    match db.well_known_trait_id_spec(WellKnownTrait::DropTrait) {
        Some(drop) => seq![GoalModel::Not(Box::new(implemented_goal(drop, ty)))],
        None => Seq::empty(),
    }
}

/// The Copy rule for `trait_ref`. A self type that is not nominal carries
/// no obligation. A nominal one needs the trait for each field, the fields
/// instantiated at the self type's arguments, and must not implement Drop.
/// `None` where there is no self type or the arguments do not fit the
/// declaration's binder.
pub open spec fn copy_constraint(db: Database, trait_ref: TraitRefModel) -> Option<
    Option<GoalModel>,
> {
    match first_type(trait_ref.substitution) {
        None => None,
        Some(ty) => match ty {
            TyModel::Apply { name: TypeName::Adt(id), substitution } => {
                let adt = db.adts[id.0 as int];
                if adt.binders.len() != substitution.len() {
                    None
                } else {
                    match fold_tys(tys_model(adt.fields@), FolderModel::Subst(substitution), 0) {
                        Some(fields) => Some(
                            Some(
                                all_of(
                                    implemented_all(trait_ref.trait_id, fields) + no_drop_goal(
                                        db,
                                        ty,
                                    ),
                                ),
                            ),
                        ),
                        None => None,
                    }
                }
            },
            _ => Some(None),
        },
    }
}

/// What an impl of `trait_ref` owes inside its environment: the Copy rule
/// for the Copy trait, nothing for any other trait.
pub open spec fn inside_constraint(db: Database, trait_ref: TraitRefModel) -> Option<
    Option<GoalModel>,
> {
    match db.traits[trait_ref.trait_id.0 as int].well_known {
        Some(WellKnownTrait::CopyTrait) => copy_constraint(db, trait_ref),
        _ => Some(None),
    }
}

/// The arguments that name the parameters of a binder as seen from
/// directly inside it.
pub open spec fn identity_substitution(binders: Seq<VariableKind>) -> Seq<GenericArgModel> {
    Seq::new(
        binders.len(),
        |i: int|
            {
                let bv = BoundVar { debruijn: 0, index: i as usize };
                match binders[i] {
                    VariableKind::Ty(_) => GenericArgModel::Ty(TyModel::BoundVar(bv)),
                    VariableKind::Lifetime => GenericArgModel::Lifetime(Lifetime::BoundVar(bv)),
                }
            },
    )
}

/// Genericity: every where-clause of the impl follows from the self type
/// being well-formed. `forall<impl> { if (FromEnv(Self)) { where-clauses } }`.
pub open spec fn genericity_goal(
    binders: Seq<VariableKind>,
    self_ty: TyModel,
    where_clauses: Seq<QuantifiedWhereClauseModel>,
) -> GoalModel {
    forall_goal(
        binders,
        implies_goal(
            seq![ty_from_env_clause(self_ty)],
            all_of(Seq::new(where_clauses.len(), |i: int| qwc_well_formed_goal(where_clauses[i]))),
        ),
    )
}

/// Coverage: the impl's self type matches every instance of the
/// declaration. `forall<adt> { exists<impl> { Adt<adt params> = Self } }`,
/// each side moved in through the binder that the other one does not see.
pub open spec fn coverage_goal(
    id: AdtId,
    adt_binders: Seq<VariableKind>,
    impl_binders: Seq<VariableKind>,
    self_ty: TyModel,
) -> Option<GoalModel> {
    let declared = TyModel::Apply {
        name: TypeName::Adt(id),
        substitution: identity_substitution(adt_binders),
    };
    match (
        fold_ty(declared, FolderModel::ShiftIn(1), 0),
        fold_ty(self_ty, FolderModel::ShiftIn(1), 1),
    ) {
        (Some(a), Some(b)) => Some(
            forall_goal(
                adt_binders,
                exists_goal(
                    impl_binders,
                    GoalModel::EqGoal { a: GenericArgModel::Ty(a), b: GenericArgModel::Ty(b) },
                ),
            ),
        ),
        _ => None,
    }
}

/// The Drop rule for an impl: unprovable on a self type that is not
/// nominal, otherwise genericity and coverage together.
pub open spec fn drop_constraint(db: Database, impl_datum: ImplDatum) -> Option<Option<GoalModel>> {
    match first_type(impl_datum.trait_ref@.substitution) {
        None => None,
        Some(self_ty) => match nominal_id(self_ty) {
            None => Some(Some(GoalModel::CannotProve)),
            Some(id) => match coverage_goal(
                id,
                db.adts[id.0 as int].binders@,
                impl_datum.binders@,
                self_ty,
            ) {
                Some(coverage) => Some(
                    Some(
                        GoalModel::All(
                            seq![
                                genericity_goal(
                                    impl_datum.binders@,
                                    self_ty,
                                    qwcs_model(impl_datum.where_clauses@),
                                ),
                                coverage,
                            ],
                        ),
                    ),
                ),
                None => None,
            },
        },
    }
}

/// What an impl owes whatever its environment: an impl of Sized can never
/// be proved, an impl of Drop owes the Drop rule, any other nothing.
pub open spec fn outside_constraint(db: Database, impl_datum: ImplDatum) -> Option<
    Option<GoalModel>,
> {
    match db.traits[impl_datum.trait_ref.trait_id.0 as int].well_known {
        Some(WellKnownTrait::SizedTrait) => Some(Some(GoalModel::CannotProve)),
        Some(WellKnownTrait::DropTrait) => drop_constraint(db, impl_datum),
        _ => Some(None),
    }
}

/// Builds [`implemented_all`] for the first `n` types.
pub fn implemented_goals(trait_id: TraitId, tys: &Vec<Ty>, n: usize) -> (r: Vec<Goal>)
    requires
        n <= tys.len(),
    ensures
        goals_model(r@) == implemented_all(trait_id, tys_model(tys@).take(n as int)),
{
    let mut out: Vec<Goal> = Vec::new();
    let mut i: usize = 0;
    while i < n
        invariant
            i <= n <= tys.len(),
            out.len() == i,
            forall|j: int| 0 <= j < i ==> out[j]@ == implemented_goal(trait_id, tys[j]@),
        decreases n - i,
    {
        out.push(Goal::implemented(trait_id, tys[i].dup()));
        i += 1;
    }
    proof {
        assert(goals_model(out@) =~= implemented_all(trait_id, tys_model(tys@).take(n as int)));
    }
    out
}

/// Builds [`identity_substitution`].
pub fn identity_args(binders: &Vec<VariableKind>) -> (r: Vec<GenericArg>)
    ensures
        args_model(r@) == identity_substitution(binders@),
{
    let mut out: Vec<GenericArg> = Vec::new();
    let mut i: usize = 0;
    while i < binders.len()
        invariant
            i <= binders.len(),
            out.len() == i,
            forall|j: int| 0 <= j < i ==> out[j]@ == identity_substitution(binders@)[j],
        decreases binders.len() - i,
    {
        let bv = BoundVar { debruijn: 0, index: i };
        let arg = match binders[i] {
            VariableKind::Ty(_) => GenericArg::Ty(Ty::BoundVar(bv)),
            VariableKind::Lifetime => GenericArg::Lifetime(Lifetime::BoundVar(bv)),
        };
        out.push(arg);
        i += 1;
    }
    proof {
        assert(args_model(out@) =~= identity_substitution(binders@));
    }
    out
}

/// The well-formed goal of each where-clause, in order.
pub fn well_formed_goals(where_clauses: &Vec<QuantifiedWhereClause>) -> (r: Vec<Goal>)
    ensures
        goals_model(r@) == Seq::new(
            where_clauses.len() as nat,
            |i: int| qwc_well_formed_goal(qwcs_model(where_clauses@)[i]),
        ),
{
    let mut out: Vec<Goal> = Vec::new();
    let mut i: usize = 0;
    while i < where_clauses.len()
        invariant
            i <= where_clauses.len(),
            out.len() == i,
            forall|j: int| 0 <= j < i ==> out[j]@ == qwc_well_formed_goal(where_clauses[j]@),
        decreases where_clauses.len() - i,
    {
        out.push(where_clauses[i].dup().into_well_formed_goal());
        i += 1;
    }
    proof {
        assert(goals_model(out@) =~= Seq::new(
            where_clauses.len() as nat,
            |i: int| qwc_well_formed_goal(qwcs_model(where_clauses@)[i]),
        ));
    }
    out
}

/// The rules for the built-in traits.
pub struct WfWellKnownGoals {}

impl WfWellKnownGoals {
    /// The goal an impl of `trait_ref` owes under its own environment.
    pub fn inside_impl(db: &Database, trait_ref: &TraitRef) -> (r: Result<
        Option<Goal>,
        InvariantViolation,
    >)
        requires
            db.admits(*trait_ref),
        ensures
            yields(r, inside_constraint(*db, trait_ref@)),
    {
        match db.trait_datum(trait_ref.trait_id).well_known {
            Some(WellKnownTrait::CopyTrait) => Self::copy_impl_constraint(db, trait_ref),
            _ => Ok(None),
        }
    }

    /// The goal an impl owes under no assumption at all. It does not
    /// include [`WfWellKnownGoals::inside_impl`]: an impl owes both.
    pub fn outside_impl(db: &Database, impl_datum: &ImplDatum) -> (r: Result<
        Option<Goal>,
        InvariantViolation,
    >)
        requires
            db.admits(impl_datum.trait_ref),
        ensures
            yields(r, outside_constraint(*db, *impl_datum)),
    {
        match db.trait_datum(impl_datum.trait_id()).well_known {
            Some(WellKnownTrait::SizedTrait) => Ok(Some(Goal::CannotProve)),
            Some(WellKnownTrait::DropTrait) => Self::drop_impl_constraint(db, impl_datum),
            _ => Ok(None),
        }
    }

    /// The Sized constraint of a declaration's fields.
    pub fn struct_sized_constraint(db: &Database, fields: &Vec<Ty>) -> (r: Option<Goal>)
        ensures
            match r {
                Some(g) => sized_constraint(*db, tys_model(fields@)) == Some(g@),
                None => sized_constraint(*db, tys_model(fields@)) is None,
            },
    {
        if fields.len() <= 1 {
            return None;
        }
        match db.well_known_trait_id(WellKnownTrait::SizedTrait) {
            Some(sized) => {
                let goals = implemented_goals(sized, fields, fields.len() - 1);
                proof {
                    assert(tys_model(fields@).take(fields.len() - 1) =~= tys_model(
                        fields@,
                    ).drop_last());
                }
                Some(Goal::all(goals))
            },
            None => None,
        }
    }

    /// The Copy rule; see [`copy_constraint`].
    pub fn copy_impl_constraint(db: &Database, trait_ref: &TraitRef) -> (r: Result<
        Option<Goal>,
        InvariantViolation,
    >)
        requires
            db.admits(*trait_ref),
        ensures
            yields(r, copy_constraint(*db, trait_ref@)),
    {
        let ty = match trait_ref.self_type_parameter() {
            Some(ty) => ty,
            None => {
                return Err(InvariantViolation);
            },
        };
        let (adt_id, substitution) = match ty {
            Ty::Apply { name: TypeName::Adt(adt_id), substitution } => (*adt_id, substitution),
            _ => {
                return Ok(None);
            },
        };
        let adt_datum = db.adt_datum(adt_id);
        if adt_datum.binders.len() != substitution.len() {
            return Err(InvariantViolation);
        }
        let fields = match fold_tys_with(&adt_datum.fields, &Folder::Subst(substitution), 0) {
            Some(fields) => fields,
            None => {
                return Err(InvariantViolation);
            },
        };
        let mut goals = implemented_goals(trait_ref.trait_id, &fields, fields.len());
        let ghost field_goals = goals_model(goals@);
        proof {
            assert(tys_model(fields@).take(fields.len() as int) =~= tys_model(fields@));
        }
        match db.well_known_trait_id(WellKnownTrait::DropTrait) {
            Some(drop) => {
                let not_drop = Goal::Not(Box::new(Goal::implemented(drop, ty.dup())));
                goals.push(not_drop);
            },
            None => {},
        }
        proof {
            assert(goals_model(goals@) =~= field_goals + no_drop_goal(*db, ty@));
        }
        Ok(Some(Goal::all(goals)))
    }

    /// The Drop rule; see [`drop_constraint`].
    pub fn drop_impl_constraint(db: &Database, impl_datum: &ImplDatum) -> (r: Result<
        Option<Goal>,
        InvariantViolation,
    >)
        requires
            db.admits(impl_datum.trait_ref),
        ensures
            yields(r, drop_constraint(*db, *impl_datum)),
    {
        let self_ty = match impl_datum.trait_ref.self_type_parameter() {
            Some(ty) => ty,
            None => {
                return Err(InvariantViolation);
            },
        };
        let adt_id = match self_ty.adt_id() {
            Some(id) => id,
            None => {
                return Ok(Some(Goal::CannotProve));
            },
        };
        let adt_datum = db.adt_datum(adt_id);

        // forall<impl> { if (FromEnv(Self)) { where-clauses } }
        let mut hypotheses: Vec<ProgramClause> = Vec::new();
        hypotheses.push(ProgramClause::Implies(DomainGoal::FromEnvTy(self_ty.dup())));
        proof {
            assert(clauses_model(hypotheses@) =~= seq![ty_from_env_clause(self_ty@)]);
        }
        let implied_by_adt_def_goal = Goal::for_all(
            clone_kinds(&impl_datum.binders),
            Goal::implies(hypotheses, Goal::all(well_formed_goals(&impl_datum.where_clauses))),
        );

        // forall<adt> { exists<impl> { Adt<..> = Self } }
        let declared = Ty::Apply {
            name: TypeName::Adt(adt_id),
            substitution: identity_args(&adt_datum.binders),
        };
        let def_adt = match declared.fold_with(&Folder::ShiftIn(1), 0) {
            Some(ty) => ty,
            None => {
                return Err(InvariantViolation);
            },
        };
        let impl_adt = match self_ty.fold_with(&Folder::ShiftIn(1), 1) {
            Some(ty) => ty,
            None => {
                return Err(InvariantViolation);
            },
        };
        let eq_goal = Goal::for_all(
            clone_kinds(&adt_datum.binders),
            Goal::there_exists(
                clone_kinds(&impl_datum.binders),
                Goal::EqGoal { a: GenericArg::Ty(def_adt), b: GenericArg::Ty(impl_adt) },
            ),
        );

        let mut goals: Vec<Goal> = Vec::new();
        goals.push(implied_by_adt_def_goal);
        goals.push(eq_goal);
        let r = Goal::All(goals);
        proof {
            assert(goals_model(goals@) =~= seq![goals@[0]@, goals@[1]@]);
        }
        Ok(Some(r))
    }
}

} // verus!
