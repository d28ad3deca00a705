//! How scopes change under shifting, substitution and traversal.
use vstd::prelude::*;
use crate::bound::{
    fold_inline_bound, fold_qib, fold_qibs, InlineBoundModel, QuantifiedInlineBoundModel,
};
use crate::collect::{
    collect_alias, collect_arg, collect_args, collect_qwc, collect_qwcs, collect_trait_ref,
    collect_ty, collect_tys, collect_where_clause,
};
use crate::fold::{
    fold_alias, fold_arg, fold_args, fold_qwc, fold_qwcs, fold_trait_ref, fold_ty, fold_tys,
    fold_where_clause, FolderModel,
};
use crate::ir::{
    AliasTyModel, GenericArgModel, Lifetime, QuantifiedWhereClauseModel, TraitRefModel, TyModel,
    WhereClauseModel,
};
use crate::scope::{
    alias_within, arg_within, args_within, inline_bound_within, qib_within, qibs_within,
    qwc_within, qwcs_within, trait_ref_within, ty_within, tys_within, where_clause_within,
};

verus! {

/// A type within some binders is within any larger number of them.
pub proof fn lemma_ty_within_grows(x: TyModel, d: int, e: int)
    requires
        ty_within(x, d),
        d <= e,
    ensures
        ty_within(x, e),
    decreases x,
{
    match x {
        TyModel::Apply { name, substitution } => {
            lemma_args_within_grows(substitution, d, e);
        },
        TyModel::Dyn { binders, bounds } => {
            lemma_qwcs_within_grows(bounds, d + 1, e + 1);
        },
        TyModel::Alias(alias) => {
            lemma_alias_within_grows(alias, d, e);
        },
        TyModel::Function { num_binders, substitution } => {
            lemma_args_within_grows(substitution, d + 1, e + 1);
        },
        _ => {},
    }
}

/// Growth of the scope, for a generic argument.
pub proof fn lemma_arg_within_grows(x: GenericArgModel, d: int, e: int)
    requires
        arg_within(x, d),
        d <= e,
    ensures
        arg_within(x, e),
    decreases x,
{
    match x {
        GenericArgModel::Ty(t) => {
            lemma_ty_within_grows(t, d, e);
        },
        GenericArgModel::Lifetime(_) => {},
    }
}

/// Growth of the scope, for a list of generic arguments.
pub proof fn lemma_args_within_grows(x: Seq<GenericArgModel>, d: int, e: int)
    requires
        args_within(x, d),
        d <= e,
    ensures
        args_within(x, e),
    decreases x,
{
    assert forall|i: int| 0 <= i < x.len() implies arg_within(#[trigger] x[i], e) by {
        lemma_arg_within_grows(x[i], d, e);
    }
}

/// Growth of the scope, for a alias.
pub proof fn lemma_alias_within_grows(x: AliasTyModel, d: int, e: int)
    requires
        alias_within(x, d),
        d <= e,
    ensures
        alias_within(x, e),
    decreases x,
{
    match x {
        AliasTyModel::Projection { associated_ty_id, substitution } => {
            lemma_args_within_grows(substitution, d, e);
        },
        AliasTyModel::Opaque { opaque_ty_id, substitution } => {
            lemma_args_within_grows(substitution, d, e);
        },
    }
}

/// Growth of the scope, for a trait reference.
pub proof fn lemma_trait_ref_within_grows(x: TraitRefModel, d: int, e: int)
    requires
        trait_ref_within(x, d),
        d <= e,
    ensures
        trait_ref_within(x, e),
    decreases x,
{
    lemma_args_within_grows(x.substitution, d, e);
}

/// Growth of the scope, for a where-clause.
pub proof fn lemma_where_clause_within_grows(x: WhereClauseModel, d: int, e: int)
    requires
        where_clause_within(x, d),
        d <= e,
    ensures
        where_clause_within(x, e),
    decreases x,
{
    match x {
        WhereClauseModel::Implemented(trait_ref) => {
            lemma_trait_ref_within_grows(trait_ref, d, e);
        },
        WhereClauseModel::AliasEq { alias, ty } => {
            lemma_alias_within_grows(alias, d, e);
            lemma_ty_within_grows(ty, d, e);
        },
    }
}

/// Growth of the scope, for a quantified where-clause.
pub proof fn lemma_qwc_within_grows(x: QuantifiedWhereClauseModel, d: int, e: int)
    requires
        qwc_within(x, d),
        d <= e,
    ensures
        qwc_within(x, e),
    decreases x,
{
    lemma_where_clause_within_grows(x.value, d + 1, e + 1);
}

/// Growth of the scope, for a list of quantified where-clauses.
pub proof fn lemma_qwcs_within_grows(x: Seq<QuantifiedWhereClauseModel>, d: int, e: int)
    requires
        qwcs_within(x, d),
        d <= e,
    ensures
        qwcs_within(x, e),
    decreases x,
{
    assert forall|i: int| 0 <= i < x.len() implies qwc_within(#[trigger] x[i], e) by {
        lemma_qwc_within_grows(x[i], d, e);
    }
}

/// Growth of the scope, for a list of types.
pub proof fn lemma_tys_within_grows(x: Seq<TyModel>, d: int, e: int)
    requires
        tys_within(x, d),
        d <= e,
    ensures
        tys_within(x, e),
{
    assert forall|i: int| 0 <= i < x.len() implies ty_within(#[trigger] x[i], e) by {
        lemma_ty_within_grows(x[i], d, e);
    }
}

/// Growth of the scope, for a inline bound.
pub proof fn lemma_inline_bound_within_grows(x: InlineBoundModel, d: int, e: int)
    requires
        inline_bound_within(x, d),
        d <= e,
    ensures
        inline_bound_within(x, e),
{
    match x {
        InlineBoundModel::TraitBound { trait_id, args_no_self } => {
            lemma_args_within_grows(args_no_self, d, e);
        },
        InlineBoundModel::AliasEqBound {
            trait_id,
            args_no_self,
            associated_ty_id,
            parameters,
            value,
        } => {
            lemma_args_within_grows(args_no_self, d, e);
            lemma_args_within_grows(parameters, d, e);
            lemma_ty_within_grows(value, d, e);
        },
    }
}

/// Growth of the scope, for a quantified inline bound.
pub proof fn lemma_qib_within_grows(x: QuantifiedInlineBoundModel, d: int, e: int)
    requires
        qib_within(x, d),
        d <= e,
    ensures
        qib_within(x, e),
{
    lemma_inline_bound_within_grows(x.value, d + 1, e + 1);
}

/// Growth of the scope, for a list of quantified inline bounds.
pub proof fn lemma_qibs_within_grows(x: Seq<QuantifiedInlineBoundModel>, d: int, e: int)
    requires
        qibs_within(x, d),
        d <= e,
    ensures
        qibs_within(x, e),
{
    assert forall|i: int| 0 <= i < x.len() implies qib_within(#[trigger] x[i], e) by {
        lemma_qib_within_grows(x[i], d, e);
    }
}

/// No variable has a depth beyond `u32`: a type is within any number of
/// binders greater than that.
pub proof fn lemma_ty_within_beyond(x: TyModel, d: int)
    requires
        d > u32::MAX,
    ensures
        ty_within(x, d),
    decreases x,
{
    match x {
        TyModel::Apply { name, substitution } => {
            lemma_args_within_beyond(substitution, d);
        },
        TyModel::Dyn { binders, bounds } => {
            lemma_qwcs_within_beyond(bounds, d + 1);
        },
        TyModel::Alias(alias) => {
            lemma_alias_within_beyond(alias, d);
        },
        TyModel::Function { num_binders, substitution } => {
            lemma_args_within_beyond(substitution, d + 1);
        },
        _ => {},
    }
}

/// The scope beyond every index, for a generic argument.
pub proof fn lemma_arg_within_beyond(x: GenericArgModel, d: int)
    requires
        d > u32::MAX,
    ensures
        arg_within(x, d),
    decreases x,
{
    match x {
        GenericArgModel::Ty(t) => {
            lemma_ty_within_beyond(t, d);
        },
        GenericArgModel::Lifetime(_) => {},
    }
}

/// The scope beyond every index, for a list of generic arguments.
pub proof fn lemma_args_within_beyond(x: Seq<GenericArgModel>, d: int)
    requires
        d > u32::MAX,
    ensures
        args_within(x, d),
    decreases x,
{
    assert forall|i: int| 0 <= i < x.len() implies arg_within(#[trigger] x[i], d) by {
        lemma_arg_within_beyond(x[i], d);
    }
}

/// The scope beyond every index, for a alias.
pub proof fn lemma_alias_within_beyond(x: AliasTyModel, d: int)
    requires
        d > u32::MAX,
    ensures
        alias_within(x, d),
    decreases x,
{
    match x {
        AliasTyModel::Projection { associated_ty_id, substitution } => {
            lemma_args_within_beyond(substitution, d);
        },
        AliasTyModel::Opaque { opaque_ty_id, substitution } => {
            lemma_args_within_beyond(substitution, d);
        },
    }
}

/// The scope beyond every index, for a trait reference.
pub proof fn lemma_trait_ref_within_beyond(x: TraitRefModel, d: int)
    requires
        d > u32::MAX,
    ensures
        trait_ref_within(x, d),
    decreases x,
{
    lemma_args_within_beyond(x.substitution, d);
}

/// The scope beyond every index, for a where-clause.
pub proof fn lemma_where_clause_within_beyond(x: WhereClauseModel, d: int)
    requires
        d > u32::MAX,
    ensures
        where_clause_within(x, d),
    decreases x,
{
    match x {
        WhereClauseModel::Implemented(trait_ref) => {
            lemma_trait_ref_within_beyond(trait_ref, d);
        },
        WhereClauseModel::AliasEq { alias, ty } => {
            lemma_alias_within_beyond(alias, d);
            lemma_ty_within_beyond(ty, d);
        },
    }
}

/// The scope beyond every index, for a quantified where-clause.
pub proof fn lemma_qwc_within_beyond(x: QuantifiedWhereClauseModel, d: int)
    requires
        d > u32::MAX,
    ensures
        qwc_within(x, d),
    decreases x,
{
    lemma_where_clause_within_beyond(x.value, d + 1);
}

/// The scope beyond every index, for a list of quantified where-clauses.
pub proof fn lemma_qwcs_within_beyond(x: Seq<QuantifiedWhereClauseModel>, d: int)
    requires
        d > u32::MAX,
    ensures
        qwcs_within(x, d),
    decreases x,
{
    assert forall|i: int| 0 <= i < x.len() implies qwc_within(#[trigger] x[i], d) by {
        lemma_qwc_within_beyond(x[i], d);
    }
}

/// The scope beyond every index, for a inline bound.
pub proof fn lemma_inline_bound_within_beyond(x: InlineBoundModel, d: int)
    requires
        d > u32::MAX,
    ensures
        inline_bound_within(x, d),
{
    match x {
        InlineBoundModel::TraitBound { trait_id, args_no_self } => {
            lemma_args_within_beyond(args_no_self, d);
        },
        InlineBoundModel::AliasEqBound {
            trait_id,
            args_no_self,
            associated_ty_id,
            parameters,
            value,
        } => {
            lemma_args_within_beyond(args_no_self, d);
            lemma_args_within_beyond(parameters, d);
            lemma_ty_within_beyond(value, d);
        },
    }
}

/// A type within `dd` binders, moved in through `k` more, is within
/// `dd + k`.
pub proof fn lemma_ty_shifted_in_within(x: TyModel, k: u32, dd: int, outer: u32)
    requires
        ty_within(x, dd),
        outer <= dd,
        fold_ty(x, FolderModel::ShiftIn(k), outer) is Some,
    ensures
        ty_within(fold_ty(x, FolderModel::ShiftIn(k), outer)->0, dd + k),
    decreases x,
{
    match x {
        TyModel::Apply { name, substitution } => {
            lemma_args_shifted_in_within(substitution, k, dd, outer);
        },
        TyModel::Dyn { binders, bounds } => {
            lemma_qwcs_shifted_in_within(bounds, k, dd + 1, (outer + 1) as u32);
        },
        TyModel::Alias(alias) => {
            lemma_alias_shifted_in_within(alias, k, dd, outer);
        },
        TyModel::Function { num_binders, substitution } => {
            lemma_args_shifted_in_within(substitution, k, dd + 1, (outer + 1) as u32);
        },
        _ => {},
    }
}

/// The scope after a shift in, for a generic argument.
pub proof fn lemma_arg_shifted_in_within(x: GenericArgModel, k: u32, dd: int, outer: u32)
    requires
        arg_within(x, dd),
        outer <= dd,
        fold_arg(x, FolderModel::ShiftIn(k), outer) is Some,
    ensures
        arg_within(fold_arg(x, FolderModel::ShiftIn(k), outer)->0, dd + k),
    decreases x,
{
    match x {
        GenericArgModel::Ty(t) => {
            lemma_ty_shifted_in_within(t, k, dd, outer);
        },
        GenericArgModel::Lifetime(l) => {},
    }
}

/// The scope after a shift in, for a list of generic arguments.
pub proof fn lemma_args_shifted_in_within(x: Seq<GenericArgModel>, k: u32, dd: int, outer: u32)
    requires
        args_within(x, dd),
        outer <= dd,
        fold_args(x, FolderModel::ShiftIn(k), outer) is Some,
    ensures
        args_within(fold_args(x, FolderModel::ShiftIn(k), outer)->0, dd + k),
    decreases x,
{
    let folded = fold_args(x, FolderModel::ShiftIn(k), outer)->0;
    assert forall|i: int| 0 <= i < folded.len() implies arg_within(
        #[trigger] folded[i],
        dd + k,
    ) by {
        assert(arg_within(x[i], dd));
        assert(fold_arg(x[i], FolderModel::ShiftIn(k), outer) == Some(folded[i]));
        lemma_arg_shifted_in_within(x[i], k, dd, outer);
    }
}

/// The scope after a shift in, for a alias.
pub proof fn lemma_alias_shifted_in_within(x: AliasTyModel, k: u32, dd: int, outer: u32)
    requires
        alias_within(x, dd),
        outer <= dd,
        fold_alias(x, FolderModel::ShiftIn(k), outer) is Some,
    ensures
        alias_within(fold_alias(x, FolderModel::ShiftIn(k), outer)->0, dd + k),
    decreases x,
{
    match x {
        AliasTyModel::Projection { associated_ty_id, substitution } => {
            lemma_args_shifted_in_within(substitution, k, dd, outer);
        },
        AliasTyModel::Opaque { opaque_ty_id, substitution } => {
            lemma_args_shifted_in_within(substitution, k, dd, outer);
        },
    }
}

/// The scope after a shift in, for a trait reference.
pub proof fn lemma_trait_ref_shifted_in_within(x: TraitRefModel, k: u32, dd: int, outer: u32)
    requires
        trait_ref_within(x, dd),
        outer <= dd,
        fold_trait_ref(x, FolderModel::ShiftIn(k), outer) is Some,
    ensures
        trait_ref_within(fold_trait_ref(x, FolderModel::ShiftIn(k), outer)->0, dd + k),
    decreases x,
{
    lemma_args_shifted_in_within(x.substitution, k, dd, outer);
}

/// The scope after a shift in, for a where-clause.
pub proof fn lemma_where_clause_shifted_in_within(x: WhereClauseModel, k: u32, dd: int, outer: u32)
    requires
        where_clause_within(x, dd),
        outer <= dd,
        fold_where_clause(x, FolderModel::ShiftIn(k), outer) is Some,
    ensures
        where_clause_within(fold_where_clause(x, FolderModel::ShiftIn(k), outer)->0, dd + k),
    decreases x,
{
    match x {
        WhereClauseModel::Implemented(trait_ref) => {
            lemma_trait_ref_shifted_in_within(trait_ref, k, dd, outer);
        },
        WhereClauseModel::AliasEq { alias, ty } => {
            lemma_alias_shifted_in_within(alias, k, dd, outer);
            lemma_ty_shifted_in_within(ty, k, dd, outer);
        },
    }
}

/// The scope after a shift in, for a quantified where-clause.
pub proof fn lemma_qwc_shifted_in_within(x: QuantifiedWhereClauseModel, k: u32, dd: int, outer: u32)
    requires
        qwc_within(x, dd),
        outer <= dd,
        fold_qwc(x, FolderModel::ShiftIn(k), outer) is Some,
    ensures
        qwc_within(fold_qwc(x, FolderModel::ShiftIn(k), outer)->0, dd + k),
    decreases x,
{
    lemma_where_clause_shifted_in_within(x.value, k, dd + 1, (outer + 1) as u32);
}

/// The scope after a shift in, for a list of quantified where-clauses.
pub proof fn lemma_qwcs_shifted_in_within(
    x: Seq<QuantifiedWhereClauseModel>,
    k: u32,
    dd: int,
    outer: u32,
)
    requires
        qwcs_within(x, dd),
        outer <= dd,
        fold_qwcs(x, FolderModel::ShiftIn(k), outer) is Some,
    ensures
        qwcs_within(fold_qwcs(x, FolderModel::ShiftIn(k), outer)->0, dd + k),
    decreases x,
{
    let folded = fold_qwcs(x, FolderModel::ShiftIn(k), outer)->0;
    assert forall|i: int| 0 <= i < folded.len() implies qwc_within(
        #[trigger] folded[i],
        dd + k,
    ) by {
        assert(qwc_within(x[i], dd));
        assert(fold_qwc(x[i], FolderModel::ShiftIn(k), outer) == Some(folded[i]));
        lemma_qwc_shifted_in_within(x[i], k, dd, outer);
    }
}

/// A type within `dd + k` binders that can be moved out through `k` of
/// them is within `dd`.
pub proof fn lemma_ty_shifted_out_within(x: TyModel, k: u32, dd: int, outer: u32)
    requires
        ty_within(x, dd + k),
        outer <= dd,
        fold_ty(x, FolderModel::ShiftOut(k), outer) is Some,
    ensures
        ty_within(fold_ty(x, FolderModel::ShiftOut(k), outer)->0, dd),
    decreases x,
{
    match x {
        TyModel::Apply { name, substitution } => {
            lemma_args_shifted_out_within(substitution, k, dd, outer);
        },
        TyModel::Dyn { binders, bounds } => {
            lemma_qwcs_shifted_out_within(bounds, k, dd + 1, (outer + 1) as u32);
        },
        TyModel::Alias(alias) => {
            lemma_alias_shifted_out_within(alias, k, dd, outer);
        },
        TyModel::Function { num_binders, substitution } => {
            lemma_args_shifted_out_within(substitution, k, dd + 1, (outer + 1) as u32);
        },
        _ => {},
    }
}

/// The scope after a shift out, for a generic argument.
pub proof fn lemma_arg_shifted_out_within(x: GenericArgModel, k: u32, dd: int, outer: u32)
    requires
        arg_within(x, dd + k),
        outer <= dd,
        fold_arg(x, FolderModel::ShiftOut(k), outer) is Some,
    ensures
        arg_within(fold_arg(x, FolderModel::ShiftOut(k), outer)->0, dd),
    decreases x,
{
    match x {
        GenericArgModel::Ty(t) => {
            lemma_ty_shifted_out_within(t, k, dd, outer);
        },
        GenericArgModel::Lifetime(l) => {},
    }
}

/// The scope after a shift out, for a list of generic arguments.
pub proof fn lemma_args_shifted_out_within(x: Seq<GenericArgModel>, k: u32, dd: int, outer: u32)
    requires
        args_within(x, dd + k),
        outer <= dd,
        fold_args(x, FolderModel::ShiftOut(k), outer) is Some,
    ensures
        args_within(fold_args(x, FolderModel::ShiftOut(k), outer)->0, dd),
    decreases x,
{
    let folded = fold_args(x, FolderModel::ShiftOut(k), outer)->0;
    assert forall|i: int| 0 <= i < folded.len() implies arg_within(#[trigger] folded[i], dd) by {
        assert(arg_within(x[i], dd + k));
        assert(fold_arg(x[i], FolderModel::ShiftOut(k), outer) == Some(folded[i]));
        lemma_arg_shifted_out_within(x[i], k, dd, outer);
    }
}

/// The scope after a shift out, for a alias.
pub proof fn lemma_alias_shifted_out_within(x: AliasTyModel, k: u32, dd: int, outer: u32)
    requires
        alias_within(x, dd + k),
        outer <= dd,
        fold_alias(x, FolderModel::ShiftOut(k), outer) is Some,
    ensures
        alias_within(fold_alias(x, FolderModel::ShiftOut(k), outer)->0, dd),
    decreases x,
{
    match x {
        AliasTyModel::Projection { associated_ty_id, substitution } => {
            lemma_args_shifted_out_within(substitution, k, dd, outer);
        },
        AliasTyModel::Opaque { opaque_ty_id, substitution } => {
            lemma_args_shifted_out_within(substitution, k, dd, outer);
        },
    }
}

/// The scope after a shift out, for a trait reference.
pub proof fn lemma_trait_ref_shifted_out_within(x: TraitRefModel, k: u32, dd: int, outer: u32)
    requires
        trait_ref_within(x, dd + k),
        outer <= dd,
        fold_trait_ref(x, FolderModel::ShiftOut(k), outer) is Some,
    ensures
        trait_ref_within(fold_trait_ref(x, FolderModel::ShiftOut(k), outer)->0, dd),
    decreases x,
{
    lemma_args_shifted_out_within(x.substitution, k, dd, outer);
}

/// The scope after a shift out, for a where-clause.
pub proof fn lemma_where_clause_shifted_out_within(x: WhereClauseModel, k: u32, dd: int, outer: u32)
    requires
        where_clause_within(x, dd + k),
        outer <= dd,
        fold_where_clause(x, FolderModel::ShiftOut(k), outer) is Some,
    ensures
        where_clause_within(fold_where_clause(x, FolderModel::ShiftOut(k), outer)->0, dd),
    decreases x,
{
    match x {
        WhereClauseModel::Implemented(trait_ref) => {
            lemma_trait_ref_shifted_out_within(trait_ref, k, dd, outer);
        },
        WhereClauseModel::AliasEq { alias, ty } => {
            lemma_alias_shifted_out_within(alias, k, dd, outer);
            lemma_ty_shifted_out_within(ty, k, dd, outer);
        },
    }
}

/// The scope after a shift out, for a quantified where-clause.
pub proof fn lemma_qwc_shifted_out_within(
    x: QuantifiedWhereClauseModel,
    k: u32,
    dd: int,
    outer: u32,
)
    requires
        qwc_within(x, dd + k),
        outer <= dd,
        fold_qwc(x, FolderModel::ShiftOut(k), outer) is Some,
    ensures
        qwc_within(fold_qwc(x, FolderModel::ShiftOut(k), outer)->0, dd),
    decreases x,
{
    lemma_where_clause_shifted_out_within(x.value, k, dd + 1, (outer + 1) as u32);
}

/// The scope after a shift out, for a list of quantified where-clauses.
pub proof fn lemma_qwcs_shifted_out_within(
    x: Seq<QuantifiedWhereClauseModel>,
    k: u32,
    dd: int,
    outer: u32,
)
    requires
        qwcs_within(x, dd + k),
        outer <= dd,
        fold_qwcs(x, FolderModel::ShiftOut(k), outer) is Some,
    ensures
        qwcs_within(fold_qwcs(x, FolderModel::ShiftOut(k), outer)->0, dd),
    decreases x,
{
    let folded = fold_qwcs(x, FolderModel::ShiftOut(k), outer)->0;
    assert forall|i: int| 0 <= i < folded.len() implies qwc_within(#[trigger] folded[i], dd) by {
        assert(qwc_within(x[i], dd + k));
        assert(fold_qwc(x[i], FolderModel::ShiftOut(k), outer) == Some(folded[i]));
        lemma_qwc_shifted_out_within(x[i], k, dd, outer);
    }
}

/// Substitution eliminates a binder: a type within `dd + 1` binders, with
/// arguments that are within the `dd` outer ones where the binder stands,
/// becomes a type within `dd`.
pub proof fn lemma_ty_substituted_within(
    x: TyModel,
    params: Seq<GenericArgModel>,
    dd: int,
    outer: u32,
)
    requires
        ty_within(x, dd + 1),
        outer <= dd,
        args_within(params, dd - outer),
        fold_ty(x, FolderModel::Subst(params), outer) is Some,
    ensures
        ty_within(fold_ty(x, FolderModel::Subst(params), outer)->0, dd),
    decreases x,
{
    match x {
        TyModel::Apply { name, substitution } => {
            lemma_args_substituted_within(substitution, params, dd, outer);
        },
        TyModel::Dyn { binders, bounds } => {
            lemma_qwcs_substituted_within(bounds, params, dd + 1, (outer + 1) as u32);
        },
        TyModel::Alias(alias) => {
            lemma_alias_substituted_within(alias, params, dd, outer);
        },
        TyModel::Function { num_binders, substitution } => {
            lemma_args_substituted_within(substitution, params, dd + 1, (outer + 1) as u32);
        },
        TyModel::BoundVar(bv) => {
            if bv.debruijn == outer && bv.index < params.len() {
                assert(arg_within(params[bv.index as int], dd - outer));
                match params[bv.index as int] {
                    GenericArgModel::Ty(arg) => {
                        lemma_ty_shifted_in_within(arg, outer, dd - outer, 0);
                    },
                    GenericArgModel::Lifetime(_) => {},
                }
            }
        },
        _ => {},
    }
}

/// The scope after substitution, for a generic argument.
pub proof fn lemma_arg_substituted_within(
    x: GenericArgModel,
    params: Seq<GenericArgModel>,
    dd: int,
    outer: u32,
)
    requires
        arg_within(x, dd + 1),
        outer <= dd,
        args_within(params, dd - outer),
        fold_arg(x, FolderModel::Subst(params), outer) is Some,
    ensures
        arg_within(fold_arg(x, FolderModel::Subst(params), outer)->0, dd),
    decreases x,
{
    match x {
        GenericArgModel::Ty(t) => {
            lemma_ty_substituted_within(t, params, dd, outer);
        },
        GenericArgModel::Lifetime(l) => {
            match l {
                Lifetime::BoundVar(bv) => {
                    if bv.debruijn == outer && bv.index < params.len() {
                        assert(arg_within(params[bv.index as int], dd - outer));
                    }
                },
                _ => {},
            }
        },
    }
}

/// The scope after substitution, for a list of generic arguments.
pub proof fn lemma_args_substituted_within(
    x: Seq<GenericArgModel>,
    params: Seq<GenericArgModel>,
    dd: int,
    outer: u32,
)
    requires
        args_within(x, dd + 1),
        outer <= dd,
        args_within(params, dd - outer),
        fold_args(x, FolderModel::Subst(params), outer) is Some,
    ensures
        args_within(fold_args(x, FolderModel::Subst(params), outer)->0, dd),
    decreases x,
{
    let folded = fold_args(x, FolderModel::Subst(params), outer)->0;
    assert forall|i: int| 0 <= i < folded.len() implies arg_within(#[trigger] folded[i], dd) by {
        assert(arg_within(x[i], dd + 1));
        assert(fold_arg(x[i], FolderModel::Subst(params), outer) == Some(folded[i]));
        lemma_arg_substituted_within(x[i], params, dd, outer);
    }
}

/// The scope after substitution, for a alias.
pub proof fn lemma_alias_substituted_within(
    x: AliasTyModel,
    params: Seq<GenericArgModel>,
    dd: int,
    outer: u32,
)
    requires
        alias_within(x, dd + 1),
        outer <= dd,
        args_within(params, dd - outer),
        fold_alias(x, FolderModel::Subst(params), outer) is Some,
    ensures
        alias_within(fold_alias(x, FolderModel::Subst(params), outer)->0, dd),
    decreases x,
{
    match x {
        AliasTyModel::Projection { associated_ty_id, substitution } => {
            lemma_args_substituted_within(substitution, params, dd, outer);
        },
        AliasTyModel::Opaque { opaque_ty_id, substitution } => {
            lemma_args_substituted_within(substitution, params, dd, outer);
        },
    }
}

/// The scope after substitution, for a trait reference.
pub proof fn lemma_trait_ref_substituted_within(
    x: TraitRefModel,
    params: Seq<GenericArgModel>,
    dd: int,
    outer: u32,
)
    requires
        trait_ref_within(x, dd + 1),
        outer <= dd,
        args_within(params, dd - outer),
        fold_trait_ref(x, FolderModel::Subst(params), outer) is Some,
    ensures
        trait_ref_within(fold_trait_ref(x, FolderModel::Subst(params), outer)->0, dd),
    decreases x,
{
    lemma_args_substituted_within(x.substitution, params, dd, outer);
}

/// The scope after substitution, for a where-clause.
pub proof fn lemma_where_clause_substituted_within(
    x: WhereClauseModel,
    params: Seq<GenericArgModel>,
    dd: int,
    outer: u32,
)
    requires
        where_clause_within(x, dd + 1),
        outer <= dd,
        args_within(params, dd - outer),
        fold_where_clause(x, FolderModel::Subst(params), outer) is Some,
    ensures
        where_clause_within(fold_where_clause(x, FolderModel::Subst(params), outer)->0, dd),
    decreases x,
{
    match x {
        WhereClauseModel::Implemented(trait_ref) => {
            lemma_trait_ref_substituted_within(trait_ref, params, dd, outer);
        },
        WhereClauseModel::AliasEq { alias, ty } => {
            lemma_alias_substituted_within(alias, params, dd, outer);
            lemma_ty_substituted_within(ty, params, dd, outer);
        },
    }
}

/// The scope after substitution, for a quantified where-clause.
pub proof fn lemma_qwc_substituted_within(
    x: QuantifiedWhereClauseModel,
    params: Seq<GenericArgModel>,
    dd: int,
    outer: u32,
)
    requires
        qwc_within(x, dd + 1),
        outer <= dd,
        args_within(params, dd - outer),
        fold_qwc(x, FolderModel::Subst(params), outer) is Some,
    ensures
        qwc_within(fold_qwc(x, FolderModel::Subst(params), outer)->0, dd),
    decreases x,
{
    lemma_where_clause_substituted_within(x.value, params, dd + 1, (outer + 1) as u32);
}

/// The scope after substitution, for a list of quantified where-clauses.
pub proof fn lemma_qwcs_substituted_within(
    x: Seq<QuantifiedWhereClauseModel>,
    params: Seq<GenericArgModel>,
    dd: int,
    outer: u32,
)
    requires
        qwcs_within(x, dd + 1),
        outer <= dd,
        args_within(params, dd - outer),
        fold_qwcs(x, FolderModel::Subst(params), outer) is Some,
    ensures
        qwcs_within(fold_qwcs(x, FolderModel::Subst(params), outer)->0, dd),
    decreases x,
{
    let folded = fold_qwcs(x, FolderModel::Subst(params), outer)->0;
    assert forall|i: int| 0 <= i < folded.len() implies qwc_within(#[trigger] folded[i], dd) by {
        assert(qwc_within(x[i], dd + 1));
        assert(fold_qwc(x[i], FolderModel::Subst(params), outer) == Some(folded[i]));
        lemma_qwc_substituted_within(x[i], params, dd, outer);
    }
}

/// The scope after substitution, for a list of types.
pub proof fn lemma_tys_substituted_within(
    x: Seq<TyModel>,
    params: Seq<GenericArgModel>,
    dd: int,
    outer: u32,
)
    requires
        tys_within(x, dd + 1),
        outer <= dd,
        args_within(params, dd - outer),
        fold_tys(x, FolderModel::Subst(params), outer) is Some,
    ensures
        tys_within(fold_tys(x, FolderModel::Subst(params), outer)->0, dd),
{
    let folded = fold_tys(x, FolderModel::Subst(params), outer)->0;
    assert forall|i: int| 0 <= i < folded.len() implies ty_within(#[trigger] folded[i], dd) by {
        assert(ty_within(x[i], dd + 1));
        assert(fold_ty(x[i], FolderModel::Subst(params), outer) == Some(folded[i]));
        lemma_ty_substituted_within(x[i], params, dd, outer);
    }
}

/// The scope after substitution, for a inline bound.
pub proof fn lemma_inline_bound_substituted_within(
    x: InlineBoundModel,
    params: Seq<GenericArgModel>,
    dd: int,
    outer: u32,
)
    requires
        inline_bound_within(x, dd + 1),
        outer <= dd,
        args_within(params, dd - outer),
        fold_inline_bound(x, FolderModel::Subst(params), outer) is Some,
    ensures
        inline_bound_within(fold_inline_bound(x, FolderModel::Subst(params), outer)->0, dd),
{
    match x {
        InlineBoundModel::TraitBound { trait_id, args_no_self } => {
            lemma_args_substituted_within(args_no_self, params, dd, outer);
        },
        InlineBoundModel::AliasEqBound {
            trait_id,
            args_no_self,
            associated_ty_id,
            parameters,
            value,
        } => {
            lemma_args_substituted_within(args_no_self, params, dd, outer);
            lemma_args_substituted_within(parameters, params, dd, outer);
            lemma_ty_substituted_within(value, params, dd, outer);
        },
    }
}

/// The scope after substitution, for a quantified inline bound.
pub proof fn lemma_qib_substituted_within(
    x: QuantifiedInlineBoundModel,
    params: Seq<GenericArgModel>,
    dd: int,
    outer: u32,
)
    requires
        qib_within(x, dd + 1),
        outer <= dd,
        args_within(params, dd - outer),
        fold_qib(x, FolderModel::Subst(params), outer) is Some,
    ensures
        qib_within(fold_qib(x, FolderModel::Subst(params), outer)->0, dd),
{
    lemma_inline_bound_substituted_within(x.value, params, dd + 1, (outer + 1) as u32);
}

/// The scope after substitution, for a list of quantified inline bounds.
pub proof fn lemma_qibs_substituted_within(
    x: Seq<QuantifiedInlineBoundModel>,
    params: Seq<GenericArgModel>,
    dd: int,
    outer: u32,
)
    requires
        qibs_within(x, dd + 1),
        outer <= dd,
        args_within(params, dd - outer),
        fold_qibs(x, FolderModel::Subst(params), outer) is Some,
    ensures
        qibs_within(fold_qibs(x, FolderModel::Subst(params), outer)->0, dd),
{
    let folded = fold_qibs(x, FolderModel::Subst(params), outer)->0;
    assert forall|i: int| 0 <= i < folded.len() implies qib_within(#[trigger] folded[i], dd) by {
        assert(qib_within(x[i], dd + 1));
        assert(fold_qib(x[i], FolderModel::Subst(params), outer) == Some(folded[i]));
        lemma_qib_substituted_within(x[i], params, dd, outer);
    }
}

/// The input types of a type met `outer` binders inside a term that is
/// within `dd` binders are themselves within `dd`: they are stated in the
/// scope of the term, not in that of the place where they were found.
pub proof fn lemma_ty_input_types_within(x: TyModel, dd: int, outer: u32)
    requires
        0 <= dd,
        ty_within(x, dd + outer),
        collect_ty(x, outer) is Some,
    ensures
        tys_within(collect_ty(x, outer)->0, dd),
    decreases x,
{
    match x {
        TyModel::Apply { name, substitution } => {
            lemma_ty_shifted_out_within(x, outer, dd, 0);
            lemma_args_input_types_within(substitution, dd, outer);
        },
        TyModel::Dyn { binders, bounds } => {
            lemma_ty_shifted_out_within(x, outer, dd, 0);
            lemma_qwcs_input_types_within(bounds, dd, (outer + 1) as u32);
        },
        TyModel::Alias(alias) => {
            lemma_alias_input_types_within(alias, dd, outer);
        },
        TyModel::Placeholder(_) => {
            lemma_ty_shifted_out_within(x, outer, dd, 0);
        },
        _ => {},
    }
}

/// The scope of the input types of a generic argument.
pub proof fn lemma_arg_input_types_within(x: GenericArgModel, dd: int, outer: u32)
    requires
        0 <= dd,
        arg_within(x, dd + outer),
        collect_arg(x, outer) is Some,
    ensures
        tys_within(collect_arg(x, outer)->0, dd),
    decreases x,
{
    match x {
        GenericArgModel::Ty(t) => {
            lemma_ty_input_types_within(t, dd, outer);
        },
        GenericArgModel::Lifetime(_) => {},
    }
}

/// The scope of the input types of a list of generic arguments.
pub proof fn lemma_args_input_types_within(x: Seq<GenericArgModel>, dd: int, outer: u32)
    requires
        0 <= dd,
        args_within(x, dd + outer),
        collect_args(x, outer) is Some,
    ensures
        tys_within(collect_args(x, outer)->0, dd),
    decreases x,
{
    if x.len() > 0 {
        assert forall|i: int| 0 <= i < x.drop_last().len() implies arg_within(
            #[trigger] x.drop_last()[i],
            dd + outer,
        ) by {
            assert(arg_within(x[i], dd + outer));
        }
        assert(arg_within(x.last(), dd + outer));
        lemma_args_input_types_within(x.drop_last(), dd, outer);
        lemma_arg_input_types_within(x.last(), dd, outer);
    }
}

/// The scope of the input types of a alias.
pub proof fn lemma_alias_input_types_within(x: AliasTyModel, dd: int, outer: u32)
    requires
        0 <= dd,
        alias_within(x, dd + outer),
        collect_alias(x, outer) is Some,
    ensures
        tys_within(collect_alias(x, outer)->0, dd),
    decreases x,
{
    lemma_ty_shifted_out_within(TyModel::Alias(x), outer, dd, 0);
    match x {
        AliasTyModel::Projection { associated_ty_id, substitution } => {
            lemma_args_input_types_within(substitution, dd, outer);
        },
        AliasTyModel::Opaque { opaque_ty_id, substitution } => {
            lemma_args_input_types_within(substitution, dd, outer);
        },
    }
}

/// The scope of the input types of a trait reference.
pub proof fn lemma_trait_ref_input_types_within(x: TraitRefModel, dd: int, outer: u32)
    requires
        0 <= dd,
        trait_ref_within(x, dd + outer),
        collect_trait_ref(x, outer) is Some,
    ensures
        tys_within(collect_trait_ref(x, outer)->0, dd),
    decreases x,
{
    lemma_args_input_types_within(x.substitution, dd, outer);
}

/// The scope of the input types of a where-clause.
pub proof fn lemma_where_clause_input_types_within(x: WhereClauseModel, dd: int, outer: u32)
    requires
        0 <= dd,
        where_clause_within(x, dd + outer),
        collect_where_clause(x, outer) is Some,
    ensures
        tys_within(collect_where_clause(x, outer)->0, dd),
    decreases x,
{
    match x {
        WhereClauseModel::Implemented(trait_ref) => {
            lemma_trait_ref_input_types_within(trait_ref, dd, outer);
        },
        WhereClauseModel::AliasEq { alias, ty } => {
            lemma_alias_input_types_within(alias, dd, outer);
        },
    }
}

/// The scope of the input types of a quantified where-clause.
pub proof fn lemma_qwc_input_types_within(x: QuantifiedWhereClauseModel, dd: int, outer: u32)
    requires
        0 <= dd,
        qwc_within(x, dd + outer),
        collect_qwc(x, outer) is Some,
    ensures
        tys_within(collect_qwc(x, outer)->0, dd),
    decreases x,
{
    lemma_where_clause_input_types_within(x.value, dd, (outer + 1) as u32);
}

/// The scope of the input types of a list of quantified where-clauses.
pub proof fn lemma_qwcs_input_types_within(x: Seq<QuantifiedWhereClauseModel>, dd: int, outer: u32)
    requires
        0 <= dd,
        qwcs_within(x, dd + outer),
        collect_qwcs(x, outer) is Some,
    ensures
        tys_within(collect_qwcs(x, outer)->0, dd),
    decreases x,
{
    if x.len() > 0 {
        assert forall|i: int| 0 <= i < x.drop_last().len() implies qwc_within(
            #[trigger] x.drop_last()[i],
            dd + outer,
        ) by {
            assert(qwc_within(x[i], dd + outer));
        }
        assert(qwc_within(x.last(), dd + outer));
        lemma_qwcs_input_types_within(x.drop_last(), dd, outer);
        lemma_qwc_input_types_within(x.last(), dd, outer);
    }
}

/// The scope of the input types of a list of types.
pub proof fn lemma_tys_input_types_within(x: Seq<TyModel>, dd: int, outer: u32)
    requires
        0 <= dd,
        tys_within(x, dd + outer),
        collect_tys(x, outer) is Some,
    ensures
        tys_within(collect_tys(x, outer)->0, dd),
    decreases x.len(),
{
    if x.len() > 0 {
        assert forall|i: int| 0 <= i < x.drop_last().len() implies ty_within(
            #[trigger] x.drop_last()[i],
            dd + outer,
        ) by {
            assert(ty_within(x[i], dd + outer));
        }
        assert(ty_within(x.last(), dd + outer));
        lemma_tys_input_types_within(x.drop_last(), dd, outer);
        lemma_ty_input_types_within(x.last(), dd, outer);
    }
}

} // verus!
