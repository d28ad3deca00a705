//! Shifts across binders: moving a term in and out again restores it,
//! moving it in twice is moving it in once by the sum, and a term moved in
//! through a binder is untouched by substitution for that binder, at
//! every depth of nesting.
use vstd::prelude::*;
use crate::fold::{
    fold_alias, fold_arg, fold_args, fold_lifetime, fold_qwc, fold_qwcs, fold_trait_ref, fold_ty,
    fold_where_clause, FolderModel,
};
use crate::ir::{
    AliasTyModel, GenericArgModel, Lifetime, QuantifiedWhereClauseModel, TraitRefModel, TyModel,
    WhereClauseModel,
};

verus! {

/// A lifetime moved in through `k` binders and out again is itself.
pub proof fn law_lifetime_shift_round_trip(l: Lifetime, k: u32, outer: u32)
    requires
        fold_lifetime(l, FolderModel::ShiftIn(k), outer) is Some,
    ensures
        fold_lifetime(
            fold_lifetime(l, FolderModel::ShiftIn(k), outer)->0,
            FolderModel::ShiftOut(k),
            outer,
        ) == Some(l),
{
}

/// A type moved in through `k` binders and out again is itself, wherever
/// in a term it stands.
pub proof fn law_ty_shift_round_trip(t: TyModel, k: u32, outer: u32)
    requires
        fold_ty(t, FolderModel::ShiftIn(k), outer) is Some,
    ensures
        fold_ty(fold_ty(t, FolderModel::ShiftIn(k), outer)->0, FolderModel::ShiftOut(k), outer)
            == Some(t),
    decreases t,
{
    match t {
        TyModel::Apply { name, substitution } => {
            law_args_shift_round_trip(substitution, k, outer);
        },
        TyModel::Dyn { binders, bounds } => {
            law_qwcs_shift_round_trip(bounds, k, (outer + 1) as u32);
        },
        TyModel::Alias(alias) => {
            law_alias_shift_round_trip(alias, k, outer);
        },
        TyModel::Function { num_binders, substitution } => {
            law_args_shift_round_trip(substitution, k, (outer + 1) as u32);
        },
        _ => {},
    }
}

/// The round trip for a generic argument.
pub proof fn law_arg_shift_round_trip(a: GenericArgModel, k: u32, outer: u32)
    requires
        fold_arg(a, FolderModel::ShiftIn(k), outer) is Some,
    ensures
        fold_arg(fold_arg(a, FolderModel::ShiftIn(k), outer)->0, FolderModel::ShiftOut(k), outer)
            == Some(a),
    decreases a,
{
    match a {
        GenericArgModel::Ty(t) => {
            law_ty_shift_round_trip(t, k, outer);
        },
        GenericArgModel::Lifetime(l) => {
            law_lifetime_shift_round_trip(l, k, outer);
        },
    }
}

/// The round trip for a list of generic arguments.
pub proof fn law_args_shift_round_trip(s: Seq<GenericArgModel>, k: u32, outer: u32)
    requires
        fold_args(s, FolderModel::ShiftIn(k), outer) is Some,
    ensures
        fold_args(fold_args(s, FolderModel::ShiftIn(k), outer)->0, FolderModel::ShiftOut(k), outer)
            == Some(s),
    decreases s,
{
    let moved = fold_args(s, FolderModel::ShiftIn(k), outer)->0;
    assert forall|i: int| 0 <= i < moved.len() implies fold_arg(
        #[trigger] moved[i],
        FolderModel::ShiftOut(k),
        outer,
    ) == Some(s[i]) by {
        assert(fold_arg(s[i], FolderModel::ShiftIn(k), outer) is Some);
        law_arg_shift_round_trip(s[i], k, outer);
    }
    assert(fold_args(moved, FolderModel::ShiftOut(k), outer)->0 =~= s);
}

/// The round trip for an alias.
pub proof fn law_alias_shift_round_trip(a: AliasTyModel, k: u32, outer: u32)
    requires
        fold_alias(a, FolderModel::ShiftIn(k), outer) is Some,
    ensures
        fold_alias(
            fold_alias(a, FolderModel::ShiftIn(k), outer)->0,
            FolderModel::ShiftOut(k),
            outer,
        ) == Some(a),
    decreases a,
{
    match a {
        AliasTyModel::Projection { associated_ty_id, substitution } => {
            law_args_shift_round_trip(substitution, k, outer);
        },
        AliasTyModel::Opaque { opaque_ty_id, substitution } => {
            law_args_shift_round_trip(substitution, k, outer);
        },
    }
}

/// The round trip for a trait reference.
pub proof fn law_trait_ref_shift_round_trip(t: TraitRefModel, k: u32, outer: u32)
    requires
        fold_trait_ref(t, FolderModel::ShiftIn(k), outer) is Some,
    ensures
        fold_trait_ref(
            fold_trait_ref(t, FolderModel::ShiftIn(k), outer)->0,
            FolderModel::ShiftOut(k),
            outer,
        ) == Some(t),
    decreases t,
{
    law_args_shift_round_trip(t.substitution, k, outer);
}

/// The round trip for a where-clause.
pub proof fn law_where_clause_shift_round_trip(w: WhereClauseModel, k: u32, outer: u32)
    requires
        fold_where_clause(w, FolderModel::ShiftIn(k), outer) is Some,
    ensures
        fold_where_clause(
            fold_where_clause(w, FolderModel::ShiftIn(k), outer)->0,
            FolderModel::ShiftOut(k),
            outer,
        ) == Some(w),
    decreases w,
{
    match w {
        WhereClauseModel::Implemented(trait_ref) => {
            law_trait_ref_shift_round_trip(trait_ref, k, outer);
        },
        WhereClauseModel::AliasEq { alias, ty } => {
            law_alias_shift_round_trip(alias, k, outer);
            law_ty_shift_round_trip(ty, k, outer);
        },
    }
}

/// The round trip for a quantified where-clause.
pub proof fn law_qwc_shift_round_trip(q: QuantifiedWhereClauseModel, k: u32, outer: u32)
    requires
        fold_qwc(q, FolderModel::ShiftIn(k), outer) is Some,
    ensures
        fold_qwc(fold_qwc(q, FolderModel::ShiftIn(k), outer)->0, FolderModel::ShiftOut(k), outer)
            == Some(q),
    decreases q,
{
    law_where_clause_shift_round_trip(q.value, k, (outer + 1) as u32);
}

/// The round trip for a list of quantified where-clauses.
pub proof fn law_qwcs_shift_round_trip(s: Seq<QuantifiedWhereClauseModel>, k: u32, outer: u32)
    requires
        fold_qwcs(s, FolderModel::ShiftIn(k), outer) is Some,
    ensures
        fold_qwcs(fold_qwcs(s, FolderModel::ShiftIn(k), outer)->0, FolderModel::ShiftOut(k), outer)
            == Some(s),
    decreases s,
{
    let moved = fold_qwcs(s, FolderModel::ShiftIn(k), outer)->0;
    assert forall|i: int| 0 <= i < moved.len() implies fold_qwc(
        #[trigger] moved[i],
        FolderModel::ShiftOut(k),
        outer,
    ) == Some(s[i]) by {
        assert(fold_qwc(s[i], FolderModel::ShiftIn(k), outer) is Some);
        law_qwc_shift_round_trip(s[i], k, outer);
    }
    assert(fold_qwcs(moved, FolderModel::ShiftOut(k), outer)->0 =~= s);
}

/// A lifetime that can be moved out through `k` binders is itself again
/// when moved back in.
pub proof fn law_lifetime_unshift_round_trip(l: Lifetime, k: u32, outer: u32)
    requires
        fold_lifetime(l, FolderModel::ShiftOut(k), outer) is Some,
    ensures
        fold_lifetime(
            fold_lifetime(l, FolderModel::ShiftOut(k), outer)->0,
            FolderModel::ShiftIn(k),
            outer,
        ) == Some(l),
{
}

/// A type that can be moved out through `k` binders is itself again when
/// moved back in: what is recorded of it in the outer scope loses nothing.
pub proof fn law_ty_unshift_round_trip(t: TyModel, k: u32, outer: u32)
    requires
        fold_ty(t, FolderModel::ShiftOut(k), outer) is Some,
    ensures
        fold_ty(fold_ty(t, FolderModel::ShiftOut(k), outer)->0, FolderModel::ShiftIn(k), outer)
            == Some(t),
    decreases t,
{
    match t {
        TyModel::Apply { name, substitution } => {
            law_args_unshift_round_trip(substitution, k, outer);
        },
        TyModel::Dyn { binders, bounds } => {
            law_qwcs_unshift_round_trip(bounds, k, (outer + 1) as u32);
        },
        TyModel::Alias(alias) => {
            law_alias_unshift_round_trip(alias, k, outer);
        },
        TyModel::Function { num_binders, substitution } => {
            law_args_unshift_round_trip(substitution, k, (outer + 1) as u32);
        },
        _ => {},
    }
}

/// The round trip out and back in for a generic argument.
pub proof fn law_arg_unshift_round_trip(a: GenericArgModel, k: u32, outer: u32)
    requires
        fold_arg(a, FolderModel::ShiftOut(k), outer) is Some,
    ensures
        fold_arg(fold_arg(a, FolderModel::ShiftOut(k), outer)->0, FolderModel::ShiftIn(k), outer)
            == Some(a),
    decreases a,
{
    match a {
        GenericArgModel::Ty(t) => {
            law_ty_unshift_round_trip(t, k, outer);
        },
        GenericArgModel::Lifetime(l) => {
            law_lifetime_unshift_round_trip(l, k, outer);
        },
    }
}

/// The round trip out and back in for a list of generic arguments.
pub proof fn law_args_unshift_round_trip(s: Seq<GenericArgModel>, k: u32, outer: u32)
    requires
        fold_args(s, FolderModel::ShiftOut(k), outer) is Some,
    ensures
        fold_args(fold_args(s, FolderModel::ShiftOut(k), outer)->0, FolderModel::ShiftIn(k), outer)
            == Some(s),
    decreases s,
{
    let moved = fold_args(s, FolderModel::ShiftOut(k), outer)->0;
    assert forall|i: int| 0 <= i < moved.len() implies fold_arg(
        #[trigger] moved[i],
        FolderModel::ShiftIn(k),
        outer,
    ) == Some(s[i]) by {
        assert(fold_arg(s[i], FolderModel::ShiftOut(k), outer) is Some);
        law_arg_unshift_round_trip(s[i], k, outer);
    }
    assert(fold_args(moved, FolderModel::ShiftIn(k), outer)->0 =~= s);
}

/// The round trip out and back in for an alias.
pub proof fn law_alias_unshift_round_trip(a: AliasTyModel, k: u32, outer: u32)
    requires
        fold_alias(a, FolderModel::ShiftOut(k), outer) is Some,
    ensures
        fold_alias(
            fold_alias(a, FolderModel::ShiftOut(k), outer)->0,
            FolderModel::ShiftIn(k),
            outer,
        ) == Some(a),
    decreases a,
{
    match a {
        AliasTyModel::Projection { associated_ty_id, substitution } => {
            law_args_unshift_round_trip(substitution, k, outer);
        },
        AliasTyModel::Opaque { opaque_ty_id, substitution } => {
            law_args_unshift_round_trip(substitution, k, outer);
        },
    }
}

/// The round trip out and back in for a trait reference.
pub proof fn law_trait_ref_unshift_round_trip(t: TraitRefModel, k: u32, outer: u32)
    requires
        fold_trait_ref(t, FolderModel::ShiftOut(k), outer) is Some,
    ensures
        fold_trait_ref(
            fold_trait_ref(t, FolderModel::ShiftOut(k), outer)->0,
            FolderModel::ShiftIn(k),
            outer,
        ) == Some(t),
    decreases t,
{
    law_args_unshift_round_trip(t.substitution, k, outer);
}

/// The round trip out and back in for a where-clause.
pub proof fn law_where_clause_unshift_round_trip(w: WhereClauseModel, k: u32, outer: u32)
    requires
        fold_where_clause(w, FolderModel::ShiftOut(k), outer) is Some,
    ensures
        fold_where_clause(
            fold_where_clause(w, FolderModel::ShiftOut(k), outer)->0,
            FolderModel::ShiftIn(k),
            outer,
        ) == Some(w),
    decreases w,
{
    match w {
        WhereClauseModel::Implemented(trait_ref) => {
            law_trait_ref_unshift_round_trip(trait_ref, k, outer);
        },
        WhereClauseModel::AliasEq { alias, ty } => {
            law_alias_unshift_round_trip(alias, k, outer);
            law_ty_unshift_round_trip(ty, k, outer);
        },
    }
}

/// The round trip out and back in for a quantified where-clause.
pub proof fn law_qwc_unshift_round_trip(q: QuantifiedWhereClauseModel, k: u32, outer: u32)
    requires
        fold_qwc(q, FolderModel::ShiftOut(k), outer) is Some,
    ensures
        fold_qwc(fold_qwc(q, FolderModel::ShiftOut(k), outer)->0, FolderModel::ShiftIn(k), outer)
            == Some(q),
    decreases q,
{
    law_where_clause_unshift_round_trip(q.value, k, (outer + 1) as u32);
}

/// The round trip out and back in for a list of quantified where-clauses.
pub proof fn law_qwcs_unshift_round_trip(s: Seq<QuantifiedWhereClauseModel>, k: u32, outer: u32)
    requires
        fold_qwcs(s, FolderModel::ShiftOut(k), outer) is Some,
    ensures
        fold_qwcs(fold_qwcs(s, FolderModel::ShiftOut(k), outer)->0, FolderModel::ShiftIn(k), outer)
            == Some(s),
    decreases s,
{
    let moved = fold_qwcs(s, FolderModel::ShiftOut(k), outer)->0;
    assert forall|i: int| 0 <= i < moved.len() implies fold_qwc(
        #[trigger] moved[i],
        FolderModel::ShiftIn(k),
        outer,
    ) == Some(s[i]) by {
        assert(fold_qwc(s[i], FolderModel::ShiftOut(k), outer) is Some);
        law_qwc_unshift_round_trip(s[i], k, outer);
    }
    assert(fold_qwcs(moved, FolderModel::ShiftIn(k), outer)->0 =~= s);
}

/// Moving a lifetime in through `a` binders and then through `b` more is
/// moving it in through `a + b`.
pub proof fn law_lifetime_shifts_compose(t: Lifetime, a: u32, b: u32, outer: u32)
    requires
        a + b <= u32::MAX,
        fold_lifetime(t, FolderModel::ShiftIn(a), outer) matches Some(once) && fold_lifetime(
            once,
            FolderModel::ShiftIn(b),
            outer,
        ) is Some,
    ensures
        fold_lifetime(t, FolderModel::ShiftIn((a + b) as u32), outer) == fold_lifetime(
            fold_lifetime(t, FolderModel::ShiftIn(a), outer)->0,
            FolderModel::ShiftIn(b),
            outer,
        ),
{
}

/// Moving a type in through `a` binders and then through `b` more is
/// moving it in through `a + b`, wherever in a term it stands.
pub proof fn law_ty_shifts_compose(t: TyModel, a: u32, b: u32, outer: u32)
    requires
        a + b <= u32::MAX,
        fold_ty(t, FolderModel::ShiftIn(a), outer) matches Some(once) && fold_ty(
            once,
            FolderModel::ShiftIn(b),
            outer,
        ) is Some,
    ensures
        fold_ty(t, FolderModel::ShiftIn((a + b) as u32), outer) == fold_ty(
            fold_ty(t, FolderModel::ShiftIn(a), outer)->0,
            FolderModel::ShiftIn(b),
            outer,
        ),
    decreases t,
{
    match t {
        TyModel::Apply { name, substitution } => {
            law_args_shifts_compose(substitution, a, b, outer);
        },
        TyModel::Dyn { binders, bounds } => {
            law_qwcs_shifts_compose(bounds, a, b, (outer + 1) as u32);
        },
        TyModel::Alias(alias) => {
            law_alias_shifts_compose(alias, a, b, outer);
        },
        TyModel::Function { num_binders, substitution } => {
            law_args_shifts_compose(substitution, a, b, (outer + 1) as u32);
        },
        _ => {},
    }
}

/// Composition of shifts for a generic argument.
pub proof fn law_arg_shifts_compose(t: GenericArgModel, a: u32, b: u32, outer: u32)
    requires
        a + b <= u32::MAX,
        fold_arg(t, FolderModel::ShiftIn(a), outer) matches Some(once) && fold_arg(
            once,
            FolderModel::ShiftIn(b),
            outer,
        ) is Some,
    ensures
        fold_arg(t, FolderModel::ShiftIn((a + b) as u32), outer) == fold_arg(
            fold_arg(t, FolderModel::ShiftIn(a), outer)->0,
            FolderModel::ShiftIn(b),
            outer,
        ),
    decreases t,
{
    match t {
        GenericArgModel::Ty(ty) => {
            law_ty_shifts_compose(ty, a, b, outer);
        },
        GenericArgModel::Lifetime(l) => {
            law_lifetime_shifts_compose(l, a, b, outer);
        },
    }
}

/// Composition of shifts for a list of generic arguments.
pub proof fn law_args_shifts_compose(t: Seq<GenericArgModel>, a: u32, b: u32, outer: u32)
    requires
        a + b <= u32::MAX,
        fold_args(t, FolderModel::ShiftIn(a), outer) matches Some(once) && fold_args(
            once,
            FolderModel::ShiftIn(b),
            outer,
        ) is Some,
    ensures
        fold_args(t, FolderModel::ShiftIn((a + b) as u32), outer) == fold_args(
            fold_args(t, FolderModel::ShiftIn(a), outer)->0,
            FolderModel::ShiftIn(b),
            outer,
        ),
    decreases t,
{
    let once = fold_args(t, FolderModel::ShiftIn(a), outer)->0;
    let twice = fold_args(once, FolderModel::ShiftIn(b), outer)->0;
    let sum = FolderModel::ShiftIn((a + b) as u32);
    assert forall|i: int| 0 <= i < t.len() implies fold_arg(#[trigger] t[i], sum, outer) == Some(
        twice[i],
    ) by {
        assert(fold_arg(t[i], FolderModel::ShiftIn(a), outer) == Some(once[i]));
        assert(fold_arg(once[i], FolderModel::ShiftIn(b), outer) == Some(twice[i]));
        law_arg_shifts_compose(t[i], a, b, outer);
    }
    assert(fold_args(t, sum, outer)->0 =~= twice);
}

/// Composition of shifts for a alias.
pub proof fn law_alias_shifts_compose(t: AliasTyModel, a: u32, b: u32, outer: u32)
    requires
        a + b <= u32::MAX,
        fold_alias(t, FolderModel::ShiftIn(a), outer) matches Some(once) && fold_alias(
            once,
            FolderModel::ShiftIn(b),
            outer,
        ) is Some,
    ensures
        fold_alias(t, FolderModel::ShiftIn((a + b) as u32), outer) == fold_alias(
            fold_alias(t, FolderModel::ShiftIn(a), outer)->0,
            FolderModel::ShiftIn(b),
            outer,
        ),
    decreases t,
{
    match t {
        AliasTyModel::Projection { associated_ty_id, substitution } => {
            law_args_shifts_compose(substitution, a, b, outer);
        },
        AliasTyModel::Opaque { opaque_ty_id, substitution } => {
            law_args_shifts_compose(substitution, a, b, outer);
        },
    }
}

/// Composition of shifts for a trait reference.
pub proof fn law_trait_ref_shifts_compose(t: TraitRefModel, a: u32, b: u32, outer: u32)
    requires
        a + b <= u32::MAX,
        fold_trait_ref(t, FolderModel::ShiftIn(a), outer) matches Some(once) && fold_trait_ref(
            once,
            FolderModel::ShiftIn(b),
            outer,
        ) is Some,
    ensures
        fold_trait_ref(t, FolderModel::ShiftIn((a + b) as u32), outer) == fold_trait_ref(
            fold_trait_ref(t, FolderModel::ShiftIn(a), outer)->0,
            FolderModel::ShiftIn(b),
            outer,
        ),
    decreases t,
{
    law_args_shifts_compose(t.substitution, a, b, outer);
}

/// Composition of shifts for a where-clause.
pub proof fn law_where_clause_shifts_compose(t: WhereClauseModel, a: u32, b: u32, outer: u32)
    requires
        a + b <= u32::MAX,
        fold_where_clause(t, FolderModel::ShiftIn(a), outer) matches Some(once)
            && fold_where_clause(once, FolderModel::ShiftIn(b), outer) is Some,
    ensures
        fold_where_clause(t, FolderModel::ShiftIn((a + b) as u32), outer) == fold_where_clause(
            fold_where_clause(t, FolderModel::ShiftIn(a), outer)->0,
            FolderModel::ShiftIn(b),
            outer,
        ),
    decreases t,
{
    match t {
        WhereClauseModel::Implemented(trait_ref) => {
            law_trait_ref_shifts_compose(trait_ref, a, b, outer);
        },
        WhereClauseModel::AliasEq { alias, ty } => {
            law_alias_shifts_compose(alias, a, b, outer);
            law_ty_shifts_compose(ty, a, b, outer);
        },
    }
}

/// Composition of shifts for a quantified where-clause.
pub proof fn law_qwc_shifts_compose(t: QuantifiedWhereClauseModel, a: u32, b: u32, outer: u32)
    requires
        a + b <= u32::MAX,
        fold_qwc(t, FolderModel::ShiftIn(a), outer) matches Some(once) && fold_qwc(
            once,
            FolderModel::ShiftIn(b),
            outer,
        ) is Some,
    ensures
        fold_qwc(t, FolderModel::ShiftIn((a + b) as u32), outer) == fold_qwc(
            fold_qwc(t, FolderModel::ShiftIn(a), outer)->0,
            FolderModel::ShiftIn(b),
            outer,
        ),
    decreases t,
{
    law_where_clause_shifts_compose(t.value, a, b, (outer + 1) as u32);
}

/// Composition of shifts for a list of quantified where-clauses.
pub proof fn law_qwcs_shifts_compose(t: Seq<QuantifiedWhereClauseModel>, a: u32, b: u32, outer: u32)
    requires
        a + b <= u32::MAX,
        fold_qwcs(t, FolderModel::ShiftIn(a), outer) matches Some(once) && fold_qwcs(
            once,
            FolderModel::ShiftIn(b),
            outer,
        ) is Some,
    ensures
        fold_qwcs(t, FolderModel::ShiftIn((a + b) as u32), outer) == fold_qwcs(
            fold_qwcs(t, FolderModel::ShiftIn(a), outer)->0,
            FolderModel::ShiftIn(b),
            outer,
        ),
    decreases t,
{
    let once = fold_qwcs(t, FolderModel::ShiftIn(a), outer)->0;
    let twice = fold_qwcs(once, FolderModel::ShiftIn(b), outer)->0;
    let sum = FolderModel::ShiftIn((a + b) as u32);
    assert forall|i: int| 0 <= i < t.len() implies fold_qwc(#[trigger] t[i], sum, outer) == Some(
        twice[i],
    ) by {
        assert(fold_qwc(t[i], FolderModel::ShiftIn(a), outer) == Some(once[i]));
        assert(fold_qwc(once[i], FolderModel::ShiftIn(b), outer) == Some(twice[i]));
        law_qwc_shifts_compose(t[i], a, b, outer);
    }
    assert(fold_qwcs(t, sum, outer)->0 =~= twice);
}

/// A lifetime moved in through one binder does not name that binder:
/// substituting for it gives the lifetime back, whatever the arguments.
pub proof fn law_lifetime_shifted_ignores_substitution(
    l: Lifetime,
    params: Seq<GenericArgModel>,
    outer: u32,
)
    requires
        fold_lifetime(l, FolderModel::ShiftIn(1), outer) is Some,
    ensures
        fold_lifetime(
            fold_lifetime(l, FolderModel::ShiftIn(1), outer)->0,
            FolderModel::Subst(params),
            outer,
        ) == Some(l),
{
}

/// A type moved in through one binder does not name that binder:
/// substituting for it gives the type back, whatever the arguments.
pub proof fn law_ty_shifted_ignores_substitution(
    t: TyModel,
    params: Seq<GenericArgModel>,
    outer: u32,
)
    requires
        fold_ty(t, FolderModel::ShiftIn(1), outer) is Some,
    ensures
        fold_ty(fold_ty(t, FolderModel::ShiftIn(1), outer)->0, FolderModel::Subst(params), outer)
            == Some(t),
    decreases t,
{
    match t {
        TyModel::Apply { name, substitution } => {
            law_args_shifted_ignores_substitution(substitution, params, outer);
        },
        TyModel::Dyn { binders, bounds } => {
            law_qwcs_shifted_ignores_substitution(bounds, params, (outer + 1) as u32);
        },
        TyModel::Alias(alias) => {
            law_alias_shifted_ignores_substitution(alias, params, outer);
        },
        TyModel::Function { num_binders, substitution } => {
            law_args_shifted_ignores_substitution(substitution, params, (outer + 1) as u32);
        },
        _ => {},
    }
}

/// Substitution after a shift, for a generic argument.
pub proof fn law_arg_shifted_ignores_substitution(
    a: GenericArgModel,
    params: Seq<GenericArgModel>,
    outer: u32,
)
    requires
        fold_arg(a, FolderModel::ShiftIn(1), outer) is Some,
    ensures
        fold_arg(fold_arg(a, FolderModel::ShiftIn(1), outer)->0, FolderModel::Subst(params), outer)
            == Some(a),
    decreases a,
{
    match a {
        GenericArgModel::Ty(t) => {
            law_ty_shifted_ignores_substitution(t, params, outer);
        },
        GenericArgModel::Lifetime(l) => {
            law_lifetime_shifted_ignores_substitution(l, params, outer);
        },
    }
}

/// Substitution after a shift, for a list of generic arguments.
pub proof fn law_args_shifted_ignores_substitution(
    s: Seq<GenericArgModel>,
    params: Seq<GenericArgModel>,
    outer: u32,
)
    requires
        fold_args(s, FolderModel::ShiftIn(1), outer) is Some,
    ensures
        fold_args(
            fold_args(s, FolderModel::ShiftIn(1), outer)->0, FolderModel::Subst(params), outer,
        )
            == Some(s),
    decreases s,
{
    let moved = fold_args(s, FolderModel::ShiftIn(1), outer)->0;
    assert forall|i: int| 0 <= i < moved.len() implies fold_arg(
        #[trigger] moved[i],
        FolderModel::Subst(params),
        outer,
    ) == Some(s[i]) by {
        assert(fold_arg(s[i], FolderModel::ShiftIn(1), outer) is Some);
        law_arg_shifted_ignores_substitution(s[i], params, outer);
    }
    assert(fold_args(moved, FolderModel::Subst(params), outer)->0 =~= s);
}

/// Substitution after a shift, for an alias.
pub proof fn law_alias_shifted_ignores_substitution(
    a: AliasTyModel,
    params: Seq<GenericArgModel>,
    outer: u32,
)
    requires
        fold_alias(a, FolderModel::ShiftIn(1), outer) is Some,
    ensures
        fold_alias(
            fold_alias(a, FolderModel::ShiftIn(1), outer)->0,
            FolderModel::Subst(params),
            outer,
        ) == Some(a),
    decreases a,
{
    match a {
        AliasTyModel::Projection { associated_ty_id, substitution } => {
            law_args_shifted_ignores_substitution(substitution, params, outer);
        },
        AliasTyModel::Opaque { opaque_ty_id, substitution } => {
            law_args_shifted_ignores_substitution(substitution, params, outer);
        },
    }
}

/// Substitution after a shift, for a trait reference.
pub proof fn law_trait_ref_shifted_ignores_substitution(
    t: TraitRefModel,
    params: Seq<GenericArgModel>,
    outer: u32,
)
    requires
        fold_trait_ref(t, FolderModel::ShiftIn(1), outer) is Some,
    ensures
        fold_trait_ref(
            fold_trait_ref(t, FolderModel::ShiftIn(1), outer)->0,
            FolderModel::Subst(params),
            outer,
        ) == Some(t),
    decreases t,
{
    law_args_shifted_ignores_substitution(t.substitution, params, outer);
}

/// Substitution after a shift, for a where-clause.
pub proof fn law_where_clause_shifted_ignores_substitution(
    w: WhereClauseModel,
    params: Seq<GenericArgModel>,
    outer: u32,
)
    requires
        fold_where_clause(w, FolderModel::ShiftIn(1), outer) is Some,
    ensures
        fold_where_clause(
            fold_where_clause(w, FolderModel::ShiftIn(1), outer)->0,
            FolderModel::Subst(params),
            outer,
        ) == Some(w),
    decreases w,
{
    match w {
        WhereClauseModel::Implemented(trait_ref) => {
            law_trait_ref_shifted_ignores_substitution(trait_ref, params, outer);
        },
        WhereClauseModel::AliasEq { alias, ty } => {
            law_alias_shifted_ignores_substitution(alias, params, outer);
            law_ty_shifted_ignores_substitution(ty, params, outer);
        },
    }
}

/// Substitution after a shift, for a quantified where-clause.
pub proof fn law_qwc_shifted_ignores_substitution(
    q: QuantifiedWhereClauseModel,
    params: Seq<GenericArgModel>,
    outer: u32,
)
    requires
        fold_qwc(q, FolderModel::ShiftIn(1), outer) is Some,
    ensures
        fold_qwc(fold_qwc(q, FolderModel::ShiftIn(1), outer)->0, FolderModel::Subst(params), outer)
            == Some(q),
    decreases q,
{
    law_where_clause_shifted_ignores_substitution(q.value, params, (outer + 1) as u32);
}

/// Substitution after a shift, for a list of quantified where-clauses.
pub proof fn law_qwcs_shifted_ignores_substitution(
    s: Seq<QuantifiedWhereClauseModel>,
    params: Seq<GenericArgModel>,
    outer: u32,
)
    requires
        fold_qwcs(s, FolderModel::ShiftIn(1), outer) is Some,
    ensures
        fold_qwcs(
            fold_qwcs(s, FolderModel::ShiftIn(1), outer)->0, FolderModel::Subst(params), outer,
        )
            == Some(s),
    decreases s,
{
    let moved = fold_qwcs(s, FolderModel::ShiftIn(1), outer)->0;
    assert forall|i: int| 0 <= i < moved.len() implies fold_qwc(
        #[trigger] moved[i],
        FolderModel::Subst(params),
        outer,
    ) == Some(s[i]) by {
        assert(fold_qwc(s[i], FolderModel::ShiftIn(1), outer) is Some);
        law_qwc_shifted_ignores_substitution(s[i], params, outer);
    }
    assert(fold_qwcs(moved, FolderModel::Subst(params), outer)->0 =~= s);
}

} // verus!
