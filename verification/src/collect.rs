//! The traversal that finds the input types of a term: the types whose
//! well-formedness has to be shown separately.
//!
//! | shape | action |
//! |---|---|
//! | application, trait object, projection, opaque, placeholder | record, then visit the children |
//! | bound variable | skip: its binder answers for it |
//! | function | skip entirely: its bounds are enforced where it is called |
//! | inference variable | refuse: none may reach this stage |
//!
//! A recorded type is moved out of the binders entered since the root of the
//! traversal, so that it is stated in the caller's scope; the traversal
//! refuses a type that mentions one of those binders.
//!
//! What the traversal refuses is a defect of the input, not a verdict on
//! it. The visits of the collector leave such terms out by precondition;
//! the `accepts_*` functions decide beforehand whether a term is one.
use vstd::pervasive::unreached;
use vstd::prelude::*;
use crate::fold::{fold_ty, Folder, FolderModel};
use crate::index::checked_enter_binder;
use crate::ir::{
    args_model, qwcs_model, tys_model, AliasTy, AliasTyModel, GenericArg, GenericArgModel,
    QuantifiedWhereClause, QuantifiedWhereClauseModel, TraitRef, TraitRefModel, Ty, TyModel,
    WhereClause, WhereClauseModel,
};

verus! {

broadcast use vstd::std_specs::vec::group_vec_axioms;

/// One list after another, unless either is refused.
pub open spec fn followed_by(a: Option<Seq<TyModel>>, b: Option<Seq<TyModel>>) -> Option<
    Seq<TyModel>,
> {
    match (a, b) {
        (Some(x), Some(y)) => Some(x + y),
        _ => None,
    }
}

/// The type itself, stated `outer` binders further out.
pub open spec fn recorded(t: TyModel, outer: u32) -> Option<Seq<TyModel>> {
    match fold_ty(t, FolderModel::ShiftOut(outer), 0) {
        Some(s) => Some(seq![s]),
        None => None,
    }
}

/// The input types of a type met `outer` binders in, in traversal order;
/// `None` where the traversal refuses.
pub open spec fn collect_ty(t: TyModel, outer: u32) -> Option<Seq<TyModel>>
    decreases t,
{
    match t {
        TyModel::Apply { name, substitution } => followed_by(
            recorded(t, outer),
            collect_args(substitution, outer),
        ),
        TyModel::Dyn { binders, bounds } => if outer < u32::MAX {
            followed_by(recorded(t, outer), collect_qwcs(bounds, (outer + 1) as u32))
        } else {
            None
        },
        TyModel::Alias(alias) => collect_alias(alias, outer),
        TyModel::Placeholder(_) => recorded(t, outer),
        TyModel::BoundVar(_) => Some(Seq::empty()),
        TyModel::Function { .. } => Some(Seq::empty()),
        TyModel::InferenceVar(..) => None,
    }
}

/// The input types of a generic argument: those of a type, none of a
/// lifetime.
pub open spec fn collect_arg(a: GenericArgModel, outer: u32) -> Option<Seq<TyModel>>
    decreases a,
{
    match a {
        GenericArgModel::Ty(t) => collect_ty(t, outer),
        GenericArgModel::Lifetime(_) => Some(Seq::empty()),
    }
}

/// The input types of the arguments, in order.
pub open spec fn collect_args(s: Seq<GenericArgModel>, outer: u32) -> Option<Seq<TyModel>>
    decreases s,
{
    if s.len() == 0 {
        Some(Seq::empty())
    } else {
        followed_by(collect_args(s.drop_last(), outer), collect_arg(s.last(), outer))
    }
}

/// An alias is recorded as the type it is, then its arguments are visited.
pub open spec fn collect_alias(a: AliasTyModel, outer: u32) -> Option<Seq<TyModel>>
    decreases a,
{
    match a {
        AliasTyModel::Projection { associated_ty_id, substitution } => followed_by(
            recorded(TyModel::Alias(a), outer),
            collect_args(substitution, outer),
        ),
        AliasTyModel::Opaque { opaque_ty_id, substitution } => followed_by(
            recorded(TyModel::Alias(a), outer),
            collect_args(substitution, outer),
        ),
    }
}

/// The input types of a trait reference: those of its arguments.
pub open spec fn collect_trait_ref(t: TraitRefModel, outer: u32) -> Option<Seq<TyModel>>
    decreases t,
{
    collect_args(t.substitution, outer)
}

/// A trait clause is visited through its arguments, an alias equality
/// through its alias alone.
pub open spec fn collect_where_clause(w: WhereClauseModel, outer: u32) -> Option<Seq<TyModel>>
    decreases w,
{
    match w {
        WhereClauseModel::Implemented(trait_ref) => collect_trait_ref(trait_ref, outer),
        WhereClauseModel::AliasEq { alias, ty } => collect_alias(alias, outer),
    }
}

/// The input types of a quantified where-clause, whose body sits one
/// binder further in.
pub open spec fn collect_qwc(q: QuantifiedWhereClauseModel, outer: u32) -> Option<Seq<TyModel>>
    decreases q,
{
    if outer < u32::MAX {
        collect_where_clause(q.value, (outer + 1) as u32)
    } else {
        None
    }
}

/// The input types of the where-clauses, in order.
pub open spec fn collect_qwcs(s: Seq<QuantifiedWhereClauseModel>, outer: u32) -> Option<
    Seq<TyModel>,
>
    decreases s,
{
    if s.len() == 0 {
        Some(Seq::empty())
    } else {
        followed_by(collect_qwcs(s.drop_last(), outer), collect_qwc(s.last(), outer))
    }
}

/// The input types of the types, in order.
pub open spec fn collect_tys(s: Seq<TyModel>, outer: u32) -> Option<Seq<TyModel>>
    decreases s.len(),
{
    if s.len() == 0 {
        Some(Seq::empty())
    } else {
        followed_by(collect_tys(s.drop_last(), outer), collect_ty(s.last(), outer))
    }
}

/// The input types of a type that stands directly in the caller's scope.
pub open spec fn types_in_ty(ty: TyModel) -> Option<Seq<TyModel>> {
    collect_ty(ty, 0)
}

/// The input types of where-clauses in the caller's scope.
pub open spec fn types_in_where_clauses(wcs: Seq<QuantifiedWhereClauseModel>) -> Option<
    Seq<TyModel>,
> {
    collect_qwcs(wcs, 0)
}

/// The input types of a declaration's body: those of the fields first,
/// those of the where-clauses after.
pub open spec fn types_in_decl(
    fields: Seq<TyModel>,
    wcs: Seq<QuantifiedWhereClauseModel>,
) -> Option<Seq<TyModel>> {
    followed_by(collect_tys(fields, 0), collect_qwcs(wcs, 0))
}

/// Visiting one more element appends what it yields.
proof fn lemma_collect_args_step(s: Seq<GenericArgModel>, outer: u32, i: int)
    requires
        0 <= i < s.len(),
    ensures
        collect_args(s.take(i + 1), outer) == followed_by(
            collect_args(s.take(i), outer),
            collect_arg(s[i], outer),
        ),
{
    assert(s.take(i + 1).drop_last() =~= s.take(i));
}

/// A refused prefix refuses the whole.
proof fn lemma_collect_args_refused(s: Seq<GenericArgModel>, outer: u32, i: int)
    requires
        0 <= i <= s.len(),
        collect_args(s.take(i), outer) is None,
    ensures
        collect_args(s, outer) is None,
    decreases s.len() - i,
{
    if i < s.len() {
        lemma_collect_args_step(s, outer, i);
        lemma_collect_args_refused(s, outer, i + 1);
    } else {
        assert(s.take(i) =~= s);
    }
}

/// Visiting one more element appends what it yields.
proof fn lemma_collect_qwcs_step(s: Seq<QuantifiedWhereClauseModel>, outer: u32, i: int)
    requires
        0 <= i < s.len(),
    ensures
        collect_qwcs(s.take(i + 1), outer) == followed_by(
            collect_qwcs(s.take(i), outer),
            collect_qwc(s[i], outer),
        ),
{
    assert(s.take(i + 1).drop_last() =~= s.take(i));
}

/// A refused prefix refuses the whole.
proof fn lemma_collect_qwcs_refused(s: Seq<QuantifiedWhereClauseModel>, outer: u32, i: int)
    requires
        0 <= i <= s.len(),
        collect_qwcs(s.take(i), outer) is None,
    ensures
        collect_qwcs(s, outer) is None,
    decreases s.len() - i,
{
    if i < s.len() {
        lemma_collect_qwcs_step(s, outer, i);
        lemma_collect_qwcs_refused(s, outer, i + 1);
    } else {
        assert(s.take(i) =~= s);
    }
}

/// Visiting one more element appends what it yields.
proof fn lemma_collect_tys_step(s: Seq<TyModel>, outer: u32, i: int)
    requires
        0 <= i < s.len(),
    ensures
        collect_tys(s.take(i + 1), outer) == followed_by(
            collect_tys(s.take(i), outer),
            collect_ty(s[i], outer),
        ),
{
    assert(s.take(i + 1).drop_last() =~= s.take(i));
}

/// A refused prefix refuses the whole.
proof fn lemma_collect_tys_refused(s: Seq<TyModel>, outer: u32, i: int)
    requires
        0 <= i <= s.len(),
        collect_tys(s.take(i), outer) is None,
    ensures
        collect_tys(s, outer) is None,
    decreases s.len() - i,
{
    if i < s.len() {
        lemma_collect_tys_step(s, outer, i);
        lemma_collect_tys_refused(s, outer, i + 1);
    } else {
        assert(s.take(i) =~= s);
    }
}

/// Accumulates input types in traversal order; duplicates are kept.
///
/// A visit is for a term that the traversal does not refuse: one that
/// holds an inference variable, or a type that names a binder entered on
/// the way to it, is a defect of the input and is left out of every visit.
/// Whether a term is refused is decided by the `accepts_*` functions.
pub struct InputTypeCollector {
    pub types: Vec<Ty>,
}

impl InputTypeCollector {
    /// The types gathered so far.
    pub open spec fn gathered(self) -> Seq<TyModel> {
        tys_model(self.types@)
    }

    /// A collector that holds no type and so has gathered nothing.
    pub fn new() -> (c: Self)
        ensures
            c.types@ == Seq::<Ty>::empty(),
            c.gathered() == Seq::<TyModel>::empty(),
    {
        let c = InputTypeCollector { types: Vec::new() };
        proof {
            assert(c.gathered() =~= Seq::<TyModel>::empty());
        }
        c
    }

    /// Whether the type can be stated outside the `outer` binders entered.
    fn can_record(ty: &Ty, outer: u32) -> (r: bool)
        ensures
            r == recorded(ty@, outer) is Some,
    {
        match ty.fold_with(&Folder::ShiftOut(outer), 0) {
            Some(_) => true,
            None => false,
        }
    }

    /// Whether the traversal accepts a type met `outer` binders in.
    pub fn accepts_ty(ty: &Ty, outer: u32) -> (r: bool)
        ensures
            r == collect_ty(ty@, outer) is Some,
        decreases *ty,
    {
        match ty {
            Ty::Apply { name, substitution } => Self::can_record(ty, outer) && Self::accepts_args(
                substitution,
                outer,
            ),
            Ty::Dyn { binders, bounds } => match checked_enter_binder(outer) {
                Some(inner) => Self::can_record(ty, outer) && Self::accepts_qwcs(bounds, inner),
                None => false,
            },
            Ty::Alias(alias) => Self::accepts_alias(alias, outer),
            Ty::Placeholder(_) => Self::can_record(ty, outer),
            Ty::BoundVar(_) => true,
            Ty::Function { .. } => true,
            Ty::InferenceVar(..) => false,
        }
    }

    /// Whether the traversal accepts a generic argument.
    pub fn accepts_arg(arg: &GenericArg, outer: u32) -> (r: bool)
        ensures
            r == collect_arg(arg@, outer) is Some,
        decreases *arg,
    {
        match arg {
            GenericArg::Ty(t) => Self::accepts_ty(t, outer),
            GenericArg::Lifetime(_) => true,
        }
    }

    /// Whether the traversal accepts every argument.
    pub fn accepts_args(args: &Vec<GenericArg>, outer: u32) -> (r: bool)
        ensures
            r == collect_args(args_model(args@), outer) is Some,
        decreases *args,
    {
        let ghost s = args_model(args@);
        proof {
            assert(s.take(0) =~= Seq::empty());
        }
        let mut i: usize = 0;
        while i < args.len()
            invariant
                i <= args.len(),
                s == args_model(args@),
                collect_args(s.take(i as int), outer) is Some,
            decreases args.len() - i,
        {
            let ok = Self::accepts_arg(&args[i], outer);
            proof {
                lemma_collect_args_step(s, outer, i as int);
            }
            if !ok {
                proof {
                    lemma_collect_args_refused(s, outer, i + 1);
                }
                return false;
            }
            i += 1;
        }
        proof {
            assert(s.take(i as int) =~= s);
        }
        true
    }

    /// Whether the traversal accepts an alias, as the type it is.
    pub fn accepts_alias(alias: &AliasTy, outer: u32) -> (r: bool)
        ensures
            r == collect_alias(alias@, outer) is Some,
        decreases *alias,
    {
        let as_ty = Ty::Alias(alias.dup());
        if !Self::can_record(&as_ty, outer) {
            return false;
        }
        match alias {
            AliasTy::Projection { associated_ty_id, substitution } => Self::accepts_args(
                substitution,
                outer,
            ),
            AliasTy::Opaque { opaque_ty_id, substitution } => Self::accepts_args(
                substitution,
                outer,
            ),
        }
    }

    /// Whether the traversal accepts a trait reference.
    pub fn accepts_trait_ref(trait_ref: &TraitRef, outer: u32) -> (r: bool)
        ensures
            r == collect_trait_ref(trait_ref@, outer) is Some,
        decreases *trait_ref,
    {
        Self::accepts_args(&trait_ref.substitution, outer)
    }

    /// Whether the traversal accepts a where-clause.
    pub fn accepts_where_clause(where_clause: &WhereClause, outer: u32) -> (r: bool)
        ensures
            r == collect_where_clause(where_clause@, outer) is Some,
        decreases *where_clause,
    {
        match where_clause {
            WhereClause::AliasEq { alias, ty } => Self::accepts_alias(alias, outer),
            WhereClause::Implemented(trait_ref) => Self::accepts_trait_ref(trait_ref, outer),
        }
    }

    /// Whether the traversal accepts a quantified where-clause.
    pub fn accepts_qwc(clause: &QuantifiedWhereClause, outer: u32) -> (r: bool)
        ensures
            r == collect_qwc(clause@, outer) is Some,
        decreases *clause,
    {
        match checked_enter_binder(outer) {
            Some(inner) => Self::accepts_where_clause(&clause.value, inner),
            None => false,
        }
    }

    /// Whether the traversal accepts every clause.
    pub fn accepts_qwcs(clauses: &Vec<QuantifiedWhereClause>, outer: u32) -> (r: bool)
        ensures
            r == collect_qwcs(qwcs_model(clauses@), outer) is Some,
        decreases *clauses,
    {
        let ghost s = qwcs_model(clauses@);
        proof {
            assert(s.take(0) =~= Seq::empty());
        }
        let mut i: usize = 0;
        while i < clauses.len()
            invariant
                i <= clauses.len(),
                s == qwcs_model(clauses@),
                collect_qwcs(s.take(i as int), outer) is Some,
            decreases clauses.len() - i,
        {
            let ok = Self::accepts_qwc(&clauses[i], outer);
            proof {
                lemma_collect_qwcs_step(s, outer, i as int);
            }
            if !ok {
                proof {
                    lemma_collect_qwcs_refused(s, outer, i + 1);
                }
                return false;
            }
            i += 1;
        }
        proof {
            assert(s.take(i as int) =~= s);
        }
        true
    }

    /// Whether the traversal accepts every type.
    pub fn accepts_tys(tys: &Vec<Ty>, outer: u32) -> (r: bool)
        ensures
            r == collect_tys(tys_model(tys@), outer) is Some,
    {
        let ghost s = tys_model(tys@);
        proof {
            assert(s.take(0) =~= Seq::empty());
        }
        let mut i: usize = 0;
        while i < tys.len()
            invariant
                i <= tys.len(),
                s == tys_model(tys@),
                collect_tys(s.take(i as int), outer) is Some,
            decreases tys.len() - i,
        {
            let ok = Self::accepts_ty(&tys[i], outer);
            proof {
                lemma_collect_tys_step(s, outer, i as int);
            }
            if !ok {
                proof {
                    lemma_collect_tys_refused(s, outer, i + 1);
                }
                return false;
            }
            i += 1;
        }
        proof {
            assert(s.take(i as int) =~= s);
        }
        true
    }

    /// Appends the type as seen from outside the `outer` binders entered.
    fn record(&mut self, ty: &Ty, outer: u32)
        requires
            recorded(ty@, outer) is Some,
        ensures
            final(self).gathered() == old(self).gathered() + recorded(ty@, outer)->0,
    {
        let ghost before = self.gathered();
        match ty.fold_with(&Folder::ShiftOut(outer), 0) {
            Some(shifted) => {
                let ghost m = shifted@;
                self.types.push(shifted);
                proof {
                    assert(self.gathered() =~= before + seq![m]);
                }
            },
            None => unreached(),
        }
    }

    /// Visits a type met `outer` binders in: appends its input types in
    /// traversal order.
    pub fn visit_ty(&mut self, ty: &Ty, outer: u32)
        requires
            collect_ty(ty@, outer) is Some,
        ensures
            final(self).gathered() == old(self).gathered() + collect_ty(ty@, outer)->0,
        decreases *ty,
    {
        let ghost before = self.gathered();
        match ty {
            Ty::Apply { name, substitution } => {
                self.record(ty, outer);
                self.visit_args(substitution, outer);
                proof {
                    let r = recorded(ty@, outer)->0;
                    let a = collect_args(args_model(substitution@), outer)->0;
                    assert((before + r) + a =~= before + (r + a));
                }
            },
            Ty::Dyn { binders, bounds } => {
                match checked_enter_binder(outer) {
                    Some(inner) => {
                        self.record(ty, outer);
                        self.visit_qwcs(bounds, inner);
                        proof {
                            let r = recorded(ty@, outer)->0;
                            let a = collect_qwcs(qwcs_model(bounds@), inner)->0;
                            assert((before + r) + a =~= before + (r + a));
                        }
                    },
                    None => unreached(),
                }
            },
            Ty::Alias(alias) => self.visit_alias(alias, outer),
            Ty::Placeholder(_) => self.record(ty, outer),
            // A parameter carries no input type: its binder answers for it.
            Ty::BoundVar(_) => {
                proof {
                    assert(before + Seq::<TyModel>::empty() =~= before);
                }
            },
            // A function type brings its own implied bounds, which are
            // enforced where the function is called.
            Ty::Function { .. } => {
                proof {
                    assert(before + Seq::<TyModel>::empty() =~= before);
                }
            },
            // Left out by the precondition: none may reach this stage.
            Ty::InferenceVar(..) => unreached(),
        }
    }

    /// Visits a generic argument; a lifetime holds no input type.
    pub fn visit_arg(&mut self, arg: &GenericArg, outer: u32)
        requires
            collect_arg(arg@, outer) is Some,
        ensures
            final(self).gathered() == old(self).gathered() + collect_arg(arg@, outer)->0,
        decreases *arg,
    {
        match arg {
            GenericArg::Ty(t) => self.visit_ty(t, outer),
            GenericArg::Lifetime(_) => {
                proof {
                    assert(self.gathered() + Seq::<TyModel>::empty() =~= self.gathered());
                }
            },
        }
    }

    /// Visits every argument in order.
    pub fn visit_args(&mut self, args: &Vec<GenericArg>, outer: u32)
        requires
            collect_args(args_model(args@), outer) is Some,
        ensures
            final(self).gathered() == old(self).gathered() + collect_args(
                args_model(args@),
                outer,
            )->0,
        decreases *args,
    {
        let ghost before = self.gathered();
        let ghost s = args_model(args@);
        proof {
            assert(before + Seq::<TyModel>::empty() =~= before);
            assert(s.take(0) =~= Seq::empty());
        }
        let mut i: usize = 0;
        while i < args.len()
            invariant
                i <= args.len(),
                s == args_model(args@),
                collect_args(s, outer) is Some,
                collect_args(s.take(i as int), outer) is Some,
                self.gathered() == before + collect_args(s.take(i as int), outer)->0,
            decreases args.len() - i,
        {
            let ghost mid = collect_args(s.take(i as int), outer)->0;
            proof {
                lemma_collect_args_step(s, outer, i as int);
                if collect_args(s.take(i + 1), outer) is None {
                    lemma_collect_args_refused(s, outer, i + 1);
                }
            }
            self.visit_arg(&args[i], outer);
            proof {
                let found = collect_arg(s[i as int], outer)->0;
                assert((before + mid) + found =~= before + (mid + found));
            }
            i += 1;
        }
        proof {
            assert(s.take(i as int) =~= s);
        }
    }

    /// Visits a trait reference through its arguments.
    pub fn visit_trait_ref(&mut self, trait_ref: &TraitRef, outer: u32)
        requires
            collect_trait_ref(trait_ref@, outer) is Some,
        ensures
            final(self).gathered() == old(self).gathered() + collect_trait_ref(
                trait_ref@,
                outer,
            )->0,
        decreases *trait_ref,
    {
        self.visit_args(&trait_ref.substitution, outer)
    }

    /// Visits an alias as the type it is.
    fn visit_alias(&mut self, alias: &AliasTy, outer: u32)
        requires
            collect_alias(alias@, outer) is Some,
        ensures
            final(self).gathered() == old(self).gathered() + collect_alias(alias@, outer)->0,
        decreases *alias,
    {
        let ghost before = self.gathered();
        let as_ty = Ty::Alias(alias.dup());
        self.record(&as_ty, outer);
        match alias {
            AliasTy::Projection { associated_ty_id, substitution } => {
                self.visit_args(substitution, outer);
                proof {
                    let r = recorded(as_ty@, outer)->0;
                    let a = collect_args(args_model(substitution@), outer)->0;
                    assert((before + r) + a =~= before + (r + a));
                }
            },
            AliasTy::Opaque { opaque_ty_id, substitution } => {
                self.visit_args(substitution, outer);
                proof {
                    let r = recorded(as_ty@, outer)->0;
                    let a = collect_args(args_model(substitution@), outer)->0;
                    assert((before + r) + a =~= before + (r + a));
                }
            },
        }
    }

    /// Visits a where-clause: a trait clause through its arguments, an alias
    /// equality through its alias.
    pub fn visit_where_clause(&mut self, where_clause: &WhereClause, outer: u32)
        requires
            collect_where_clause(where_clause@, outer) is Some,
        ensures
            final(self).gathered() == old(self).gathered() + collect_where_clause(
                where_clause@,
                outer,
            )->0,
        decreases *where_clause,
    {
        match where_clause {
            WhereClause::AliasEq { alias, ty } => self.visit_alias(alias, outer),
            WhereClause::Implemented(trait_ref) => self.visit_trait_ref(trait_ref, outer),
        }
    }

    /// Visits the clause inside its binder.
    pub fn visit_qwc(&mut self, clause: &QuantifiedWhereClause, outer: u32)
        requires
            collect_qwc(clause@, outer) is Some,
        ensures
            final(self).gathered() == old(self).gathered() + collect_qwc(clause@, outer)->0,
        decreases *clause,
    {
        match checked_enter_binder(outer) {
            Some(inner) => self.visit_where_clause(&clause.value, inner),
            None => unreached(),
        }
    }

    /// Visits every clause in order.
    pub fn visit_qwcs(&mut self, clauses: &Vec<QuantifiedWhereClause>, outer: u32)
        requires
            collect_qwcs(qwcs_model(clauses@), outer) is Some,
        ensures
            final(self).gathered() == old(self).gathered() + collect_qwcs(
                qwcs_model(clauses@),
                outer,
            )->0,
        decreases *clauses,
    {
        let ghost before = self.gathered();
        let ghost s = qwcs_model(clauses@);
        proof {
            assert(before + Seq::<TyModel>::empty() =~= before);
            assert(s.take(0) =~= Seq::empty());
        }
        let mut i: usize = 0;
        while i < clauses.len()
            invariant
                i <= clauses.len(),
                s == qwcs_model(clauses@),
                collect_qwcs(s, outer) is Some,
                collect_qwcs(s.take(i as int), outer) is Some,
                self.gathered() == before + collect_qwcs(s.take(i as int), outer)->0,
            decreases clauses.len() - i,
        {
            let ghost mid = collect_qwcs(s.take(i as int), outer)->0;
            proof {
                lemma_collect_qwcs_step(s, outer, i as int);
                if collect_qwcs(s.take(i + 1), outer) is None {
                    lemma_collect_qwcs_refused(s, outer, i + 1);
                }
            }
            self.visit_qwc(&clauses[i], outer);
            proof {
                let found = collect_qwc(s[i as int], outer)->0;
                assert((before + mid) + found =~= before + (mid + found));
            }
            i += 1;
        }
        proof {
            assert(s.take(i as int) =~= s);
        }
    }

    /// Visits every type in order.
    pub fn visit_tys(&mut self, tys: &Vec<Ty>, outer: u32)
        requires
            collect_tys(tys_model(tys@), outer) is Some,
        ensures
            final(self).gathered() == old(self).gathered() + collect_tys(
                tys_model(tys@),
                outer,
            )->0,
    {
        let ghost before = self.gathered();
        let ghost s = tys_model(tys@);
        proof {
            assert(before + Seq::<TyModel>::empty() =~= before);
            assert(s.take(0) =~= Seq::empty());
        }
        let mut i: usize = 0;
        while i < tys.len()
            invariant
                i <= tys.len(),
                s == tys_model(tys@),
                collect_tys(s, outer) is Some,
                collect_tys(s.take(i as int), outer) is Some,
                self.gathered() == before + collect_tys(s.take(i as int), outer)->0,
            decreases tys.len() - i,
        {
            let ghost mid = collect_tys(s.take(i as int), outer)->0;
            proof {
                lemma_collect_tys_step(s, outer, i as int);
                if collect_tys(s.take(i + 1), outer) is None {
                    lemma_collect_tys_refused(s, outer, i + 1);
                }
            }
            self.visit_ty(&tys[i], outer);
            proof {
                let found = collect_ty(s[i as int], outer)->0;
                assert((before + mid) + found =~= before + (mid + found));
            }
            i += 1;
        }
        proof {
            assert(s.take(i as int) =~= s);
        }
    }

    /// The input types of a type, or `None` where the traversal refuses.
    pub fn types_in_ty(ty: &Ty) -> (r: Option<Vec<Ty>>)
        ensures
            match r {
                Some(v) => types_in_ty(ty@) == Some(tys_model(v@)),
                None => types_in_ty(ty@) is None,
            },
    {
        if !Self::accepts_ty(ty, 0) {
            return None;
        }
        let mut collector = InputTypeCollector::new();
        collector.visit_ty(ty, 0);
        proof {
            let found = collect_ty(ty@, 0)->0;
            assert(Seq::<TyModel>::empty() + found =~= found);
        }
        Some(collector.types)
    }

    /// The input types of a list of where-clauses.
    pub fn types_in_where_clauses(wcs: &Vec<QuantifiedWhereClause>) -> (r: Option<Vec<Ty>>)
        ensures
            match r {
                Some(v) => types_in_where_clauses(qwcs_model(wcs@)) == Some(tys_model(v@)),
                None => types_in_where_clauses(qwcs_model(wcs@)) is None,
            },
    {
        if !Self::accepts_qwcs(wcs, 0) {
            return None;
        }
        let mut collector = InputTypeCollector::new();
        collector.visit_qwcs(wcs, 0);
        proof {
            let found = collect_qwcs(qwcs_model(wcs@), 0)->0;
            assert(Seq::<TyModel>::empty() + found =~= found);
        }
        Some(collector.types)
    }

    /// The input types of a declaration's fields and where-clauses.
    pub fn types_in_decl(fields: &Vec<Ty>, wcs: &Vec<QuantifiedWhereClause>) -> (r: Option<
        Vec<Ty>,
    >)
        ensures
            match r {
                Some(v) => types_in_decl(tys_model(fields@), qwcs_model(wcs@)) == Some(
                    tys_model(v@),
                ),
                None => types_in_decl(tys_model(fields@), qwcs_model(wcs@)) is None,
            },
    {
        if !Self::accepts_tys(fields, 0) || !Self::accepts_qwcs(wcs, 0) {
            return None;
        }
        let mut collector = InputTypeCollector::new();
        collector.visit_tys(fields, 0);
        collector.visit_qwcs(wcs, 0);
        proof {
            let a = collect_tys(tys_model(fields@), 0)->0;
            let b = collect_qwcs(qwcs_model(wcs@), 0)->0;
            assert((Seq::<TyModel>::empty() + a) + b =~= a + b);
        }
        Some(collector.types)
    }
}

} // verus!
