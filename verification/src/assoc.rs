//! The obligation of an associated-type value.
//!
//! A value such as `type Item<'a> = Box<&'a T>` inside `impl<T> Foo for
//! Box<T>` is quantified over its own parameters and the impl's together.
//! Under the impl's environment and the where-clauses that the trait
//! declares on the associated type, the input types of the value must be
//! well-formed and the value must meet the bounds that the trait declares.
use vstd::prelude::*;
use crate::bound::{bound_goals, bounds_model, fold_qibs, fold_qibs_with, push_bound_goals};
use crate::builtin::{identity_args, identity_substitution};
use crate::collect::{types_in_ty, InputTypeCollector};
use crate::decl::{AssociatedTyValue, Database};
use crate::fold::{
    fold_qwcs, fold_qwcs_with, fold_trait_ref, Folder, FolderModel,
};
use crate::goal::{
    all_of, clauses_model, forall_goal, goals_model, implies_goal, Goal, GoalModel, ProgramClause,
};
use crate::ir::{
    args_model, clone_kinds, qwcs_model, tys_model, AliasTy, AliasTyModel,
    AssociatedTyValueId, GenericArg, GenericArgModel,
};
use crate::obligation::{
    from_env_all, impl_environment, impl_wf_environment, push_from_env, push_well_formed,
    well_formed_all,
};
use crate::violation::{yields, InvariantViolation};

verus! {

broadcast use vstd::std_specs::vec::group_vec_axioms;

/// The impl's share of a value's parameters, which come last, and the
/// projection that the value defines: the associated type applied to the
/// value's own parameters followed by the arguments of the impl's trait
/// reference. `None` where there are fewer parameters than the impl has,
/// or the impl's trait reference cannot take them.
pub open spec fn impl_parameters_and_projection(
    db: Database,
    parameters: Seq<GenericArgModel>,
    value: AssociatedTyValue,
) -> Option<(Seq<GenericArgModel>, AliasTyModel)> {
    let impl_datum = db.impls[value.impl_id.0 as int];
    if parameters.len() < impl_datum.binders.len() {
        None
    } else {
        let split = parameters.len() - impl_datum.binders.len();
        let impl_parameters = parameters.skip(split);
        match fold_trait_ref(impl_datum.trait_ref@, FolderModel::Subst(impl_parameters), 0) {
            Some(trait_ref) => Some(
                (
                    impl_parameters,
                    AliasTyModel::Projection {
                        associated_ty_id: value.associated_ty_id,
                        substitution: parameters.take(split) + trait_ref.substitution,
                    },
                ),
            ),
            None => None,
        }
    }
}

/// The obligation of a value, for a store that holds its impl and its
/// associated type. `None` where a substitution or a traversal refuses.
#[verifier::opaque]
pub open spec fn assoc_ty_goal(db: Database, value: AssociatedTyValue) -> Option<GoalModel> {
    let impl_datum = db.impls[value.impl_id.0 as int];
    let datum = db.associated_tys[value.associated_ty_id.0 as int];
    match impl_parameters_and_projection(db, identity_substitution(value.binders@), value) {
        Some((impl_parameters, AliasTyModel::Projection { associated_ty_id, substitution })) => {
            let by_impl = FolderModel::Subst(impl_parameters);
            let by_projection = FolderModel::Subst(substitution);
            if datum.binders.len() != substitution.len() {
                None
            } else {
                match (
                    fold_trait_ref(impl_datum.trait_ref@, by_impl, 0),
                    fold_qwcs(qwcs_model(impl_datum.where_clauses@), by_impl, 0),
                    fold_qibs(bounds_model(datum.bounds@), by_projection, 0),
                    fold_qwcs(qwcs_model(datum.where_clauses@), by_projection, 0),
                    types_in_ty(value.ty@),
                ) {
                    (
                        Some(impl_trait_ref),
                        Some(impl_where_clauses),
                        Some(defn_bounds),
                        Some(defn_where_clauses),
                        Some(types),
                    ) => match (
                        impl_environment(impl_where_clauses, impl_trait_ref),
                        bound_goals(defn_bounds, value.ty@),
                    ) {
                        (Some(environment), Some(bounds)) => Some(
                            forall_goal(
                                value.binders@,
                                implies_goal(
                                    environment,
                                    implies_goal(
                                        from_env_all(defn_where_clauses),
                                        all_of(well_formed_all(types) + bounds),
                                    ),
                                ),
                            ),
                        ),
                        _ => None,
                    },
                    _ => None,
                }
            }
        },
        _ => None,
    }
}

/// The obligation of the value under an identifier: none where the store
/// holds no such value.
pub open spec fn assoc_ty_goal_of(db: Database, id: AssociatedTyValueId) -> Option<
    Option<GoalModel>,
> {
    if db.has_associated_ty_value(id) {
        match assoc_ty_goal(db, db.associated_ty_values[id.0 as int]) {
            Some(g) => Some(Some(g)),
            None => None,
        }
    } else {
        Some(None)
    }
}

/// Copies the arguments from position `from` on.
pub fn clone_args_from(v: &Vec<GenericArg>, from: usize) -> (r: Vec<GenericArg>)
    requires
        from <= v.len(),
    ensures
        args_model(r@) == args_model(v@).skip(from as int),
{
    let mut out: Vec<GenericArg> = Vec::new();
    let mut i: usize = from;
    while i < v.len()
        invariant
            from <= i <= v.len(),
            out.len() == i - from,
            forall|j: int| 0 <= j < i - from ==> out[j]@ == v[from + j]@,
        decreases v.len() - i,
    {
        out.push(v[i].dup());
        i += 1;
    }
    proof {
        assert(args_model(out@) =~= args_model(v@).skip(from as int));
    }
    out
}

impl Database {
    /// Computes [`impl_parameters_and_projection`].
    pub fn impl_parameters_and_projection_from_associated_ty_value(
        &self,
        parameters: &Vec<GenericArg>,
        value: &AssociatedTyValue,
    ) -> (r: Result<(Vec<GenericArg>, AliasTy), InvariantViolation>)
        requires
            self.has_impl(value.impl_id),
        ensures
            match r {
                Ok((p, projection)) => impl_parameters_and_projection(
                    *self,
                    args_model(parameters@),
                    *value,
                ) == Some((args_model(p@), projection@)),
                Err(_) => impl_parameters_and_projection(*self, args_model(parameters@), *value)
                    is None,
            },
    {
        let impl_datum = self.impl_datum(value.impl_id);
        let impl_params_len = impl_datum.binders.len();
        if parameters.len() < impl_params_len {
            return Err(InvariantViolation);
        }
        // The impl's parameters are a suffix.
        let split_point = parameters.len() - impl_params_len;
        let impl_parameters = clone_args_from(parameters, split_point);
        let trait_ref = match impl_datum.trait_ref.fold_with(&Folder::Subst(&impl_parameters), 0) {
            Some(t) => t,
            None => {
                return Err(InvariantViolation);
            },
        };
        let mut substitution: Vec<GenericArg> = Vec::new();
        let mut i: usize = 0;
        while i < split_point
            invariant
                i <= split_point <= parameters.len(),
                substitution.len() == i,
                forall|j: int| 0 <= j < i ==> substitution[j]@ == parameters[j]@,
            decreases split_point - i,
        {
            substitution.push(parameters[i].dup());
            i += 1;
        }
        let mut k: usize = 0;
        while k < trait_ref.substitution.len()
            invariant
                k <= trait_ref.substitution.len(),
                split_point <= parameters.len(),
                substitution.len() == split_point + k,
                forall|j: int| 0 <= j < split_point ==> substitution[j]@ == parameters[j]@,
                forall|j: int|
                    0 <= j < k ==> substitution[split_point + j]@ == trait_ref.substitution[j]@,
            decreases trait_ref.substitution.len() - k,
        {
            substitution.push(trait_ref.substitution[k].dup());
            k += 1;
        }
        proof {
            assert(args_model(substitution@) =~= args_model(parameters@).take(split_point as int)
                + trait_ref@.substitution);
        }
        Ok(
            (
                impl_parameters,
                AliasTy::Projection { associated_ty_id: value.associated_ty_id, substitution },
            ),
        )
    }
}

/// Builds [`assoc_ty_goal_of`].
pub fn compute_assoc_ty_goal(db: &Database, assoc_ty_id: AssociatedTyValueId) -> (r: Result<
    Option<Goal>,
    InvariantViolation,
>)
    requires
        db.wf(),
    ensures
        yields(r, assoc_ty_goal_of(*db, assoc_ty_id)),
{
    proof {
        reveal(assoc_ty_goal);
    }
    let assoc_ty = match db.associated_ty_value(assoc_ty_id) {
        Some(v) => v,
        None => {
            return Ok(None);
        },
    };
    // forall<value parameters, impl parameters> { .. }
    let assoc_ty_substitution = identity_args(&assoc_ty.binders);
    let (impl_parameters, projection) =
        match db.impl_parameters_and_projection_from_associated_ty_value(
        &assoc_ty_substitution,
        assoc_ty,
    ) {
        Ok(pair) => pair,
        Err(e) => {
            return Err(e);
        },
    };
    let projection_substitution = match &projection {
        AliasTy::Projection { associated_ty_id, substitution } => substitution,
        AliasTy::Opaque { .. } => {
            return Err(InvariantViolation);
        },
    };

    // if (impl environment) { .. }
    let impl_datum = db.impl_datum(assoc_ty.impl_id);
    let by_impl = Folder::Subst(&impl_parameters);
    let impl_trait_ref = match impl_datum.trait_ref.fold_with(&by_impl, 0) {
        Some(t) => t,
        None => {
            return Err(InvariantViolation);
        },
    };
    let impl_where_clauses = match fold_qwcs_with(&impl_datum.where_clauses, &by_impl, 0) {
        Some(w) => w,
        None => {
            return Err(InvariantViolation);
        },
    };
    let impl_wf_clauses = match impl_wf_environment(&impl_where_clauses, &impl_trait_ref) {
        Ok(c) => c,
        Err(e) => {
            return Err(e);
        },
    };

    // The bounds and where-clauses of the trait's declaration, at the projection.
    let assoc_ty_datum = db.associated_ty_data(assoc_ty.associated_ty_id);
    if assoc_ty_datum.binders.len() != projection_substitution.len() {
        return Err(InvariantViolation);
    }
    let by_projection = Folder::Subst(projection_substitution);
    let defn_bounds = match fold_qibs_with(&assoc_ty_datum.bounds, &by_projection, 0) {
        Some(b) => b,
        None => {
            return Err(InvariantViolation);
        },
    };
    let defn_where_clauses = match fold_qwcs_with(
        &assoc_ty_datum.where_clauses,
        &by_projection,
        0,
    ) {
        Some(w) => w,
        None => {
            return Err(InvariantViolation);
        },
    };

    // if (where-clauses on the associated type) { WellFormed(input types), bounds }
    let types = match InputTypeCollector::types_in_ty(&assoc_ty.ty) {
        Some(t) => t,
        None => {
            return Err(InvariantViolation);
        },
    };
    let mut hypotheses: Vec<ProgramClause> = Vec::new();
    push_from_env(&mut hypotheses, &defn_where_clauses);
    let mut goals: Vec<Goal> = Vec::new();
    push_well_formed(&mut goals, &types);
    if !push_bound_goals(&defn_bounds, &assoc_ty.ty, &mut goals) {
        return Err(InvariantViolation);
    }
    proof {
        assert(clauses_model(hypotheses@) =~= from_env_all(qwcs_model(defn_where_clauses@)));
        assert(goals_model(goals@) =~= well_formed_all(tys_model(types@)) + bound_goals(
            bounds_model(defn_bounds@),
            assoc_ty.ty@,
        )->0);
    }
    Ok(
        Some(
            Goal::for_all(
                clone_kinds(&assoc_ty.binders),
                Goal::implies(impl_wf_clauses, Goal::implies(hypotheses, Goal::all(goals))),
            ),
        ),
    )
}

} // verus!
