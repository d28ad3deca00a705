//! Declarations and the store that holds them.
//!
//! An identifier is a position in the store's list for its kind of
//! declaration. Every declaration carries the kinds of its own generic
//! parameters; the rest of it sits one binder in.
use vstd::prelude::*;
use crate::bound::QuantifiedInlineBound;
use crate::ir::{
    args_model, AdtId, AssocTypeId, AssociatedTyValueId, GenericArg, GenericArgModel, ImplId,
    QuantifiedWhereClause, TraitId, TraitRef, Ty, TyModel, TypeName, VariableKind,
};

verus! {

broadcast use vstd::std_specs::vec::group_vec_axioms;

/// The built-in traits with legality rules of their own.
#[derive(Clone, Copy, Debug, PartialEq, Eq, Structural, Hash)]
pub enum WellKnownTrait {
    SizedTrait,
    CopyTrait,
    CloneTrait,
    DropTrait,
    FnOnceTrait,
    FnMutTrait,
    FnTrait,
}

/// Whether an impl implements its trait or declares that it never will.
#[derive(Clone, Copy, Debug, PartialEq, Eq, Structural, Hash)]
pub enum Polarity {
    Positive,
    Negative,
}

/// A nominal type declaration: `struct Name<binders> where where_clauses { fields }`.
#[derive(Debug, PartialEq, Eq)]
pub struct AdtDatum {
    pub binders: Vec<VariableKind>,
    pub fields: Vec<Ty>,
    pub where_clauses: Vec<QuantifiedWhereClause>,
}

/// A trait declaration, as far as this crate reads it.
#[derive(Clone, Copy, Debug, PartialEq, Eq, Structural, Hash)]
pub struct TraitDatum {
    pub well_known: Option<WellKnownTrait>,
}

/// An impl: `impl<binders> trait_ref where where_clauses { .. }`.
#[derive(Debug, PartialEq, Eq)]
pub struct ImplDatum {
    pub polarity: Polarity,
    pub binders: Vec<VariableKind>,
    pub trait_ref: TraitRef,
    pub where_clauses: Vec<QuantifiedWhereClause>,
    pub associated_ty_value_ids: Vec<AssociatedTyValueId>,
}

/// The value an impl gives to an associated type. Its binder lists the
/// value's own parameters first and the impl's parameters after them.
#[derive(Debug, PartialEq, Eq)]
pub struct AssociatedTyValue {
    pub impl_id: ImplId,
    pub associated_ty_id: AssocTypeId,
    pub binders: Vec<VariableKind>,
    pub ty: Ty,
}

/// An associated type as its trait declares it. Its binder lists the
/// associated type's own parameters first and the trait's after them; the
/// bounds leave the self type, which is the associated type, unstated.
#[derive(Debug, PartialEq, Eq)]
pub struct AssociatedTyDatum {
    pub trait_id: TraitId,
    pub binders: Vec<VariableKind>,
    pub bounds: Vec<QuantifiedInlineBound>,
    pub where_clauses: Vec<QuantifiedWhereClause>,
}

/// The declaration store.
#[derive(Debug, PartialEq, Eq)]
pub struct Database {
    pub adts: Vec<AdtDatum>,
    pub traits: Vec<TraitDatum>,
    pub impls: Vec<ImplDatum>,
    pub associated_ty_values: Vec<AssociatedTyValue>,
    pub associated_tys: Vec<AssociatedTyDatum>,
}

/// The first type among the arguments.
pub open spec fn first_type(s: Seq<GenericArgModel>) -> Option<TyModel>
    decreases s.len(),
{
    if s.len() == 0 {
        None
    } else {
        match s[0] {
            GenericArgModel::Ty(t) => Some(t),
            GenericArgModel::Lifetime(_) => first_type(s.subrange(1, s.len() as int)),
        }
    }
}

/// The declaration that a type applies, if it applies one.
pub open spec fn nominal_id(t: TyModel) -> Option<AdtId> {
    match t {
        TyModel::Apply { name: TypeName::Adt(id), substitution } => Some(id),
        _ => None,
    }
}

impl TraitRef {
    /// The self type: the first type among the arguments.
    pub fn self_type_parameter(&self) -> (r: Option<&Ty>)
        ensures
            match r {
                Some(t) => first_type(self@.substitution) == Some(t@),
                None => first_type(self@.substitution) is None,
            },
    {
        let ghost s = args_model(self.substitution@);
        let mut i: usize = 0;
        proof {
            assert(s.subrange(0, s.len() as int) =~= s);
        }
        while i < self.substitution.len()
            invariant
                i <= self.substitution.len(),
                s == args_model(self.substitution@),
                first_type(s) == first_type(s.subrange(i as int, s.len() as int)),
            decreases self.substitution.len() - i,
        {
            match &self.substitution[i] {
                GenericArg::Ty(t) => {
                    return Some(t);
                },
                GenericArg::Lifetime(_) => {
                    proof {
                        let rest = s.subrange(i as int, s.len() as int);
                        assert(rest.subrange(1, rest.len() as int) =~= s.subrange(
                            i + 1,
                            s.len() as int,
                        ));
                    }
                },
            }
            i += 1;
        }
        None
    }
}

impl Ty {
    /// Computes [`nominal_id`].
    pub fn adt_id(&self) -> (r: Option<AdtId>)
        ensures
            r == nominal_id(self@),
    {
        match self {
            Ty::Apply { name: TypeName::Adt(id), substitution } => Some(*id),
            _ => None,
        }
    }
}

impl ImplDatum {
    /// Whether the impl implements its trait.
    pub open spec fn is_positive_spec(self) -> bool {
        self.polarity == Polarity::Positive
    }

    /// Computes [`ImplDatum::is_positive_spec`].
    pub fn is_positive(&self) -> (r: bool)
        ensures
            r == self.is_positive_spec(),
    {
        match self.polarity {
            Polarity::Positive => true,
            Polarity::Negative => false,
        }
    }

    /// The trait that the impl is of.
    pub fn trait_id(&self) -> (r: TraitId)
        ensures
            r == self.trait_ref.trait_id,
    {
        self.trait_ref.trait_id
    }

    /// The declaration of the self type, if the self type is nominal.
    pub open spec fn self_type_adt_id_spec(self) -> Option<AdtId> {
        match first_type(self.trait_ref@.substitution) {
            Some(t) => nominal_id(t),
            None => None,
        }
    }

    /// Computes [`ImplDatum::self_type_adt_id_spec`].
    pub fn self_type_adt_id(&self) -> (r: Option<AdtId>)
        ensures
            r == self.self_type_adt_id_spec(),
    {
        match self.trait_ref.self_type_parameter() {
            Some(t) => t.adt_id(),
            None => None,
        }
    }
}

/// The first trait at or after position `from` that is the given built-in.
pub open spec fn well_known_from(
    traits: Seq<TraitDatum>,
    kind: WellKnownTrait,
    from: int,
) -> Option<TraitId>
    decreases traits.len() - from,
{
    if from < 0 || from >= traits.len() {
        None
    } else if traits[from].well_known == Some(kind) {
        Some(TraitId(from as usize))
    } else {
        well_known_from(traits, kind, from + 1)
    }
}

impl Database {
    /// Whether the store holds a type declaration under the identifier.
    pub open spec fn has_adt(self, id: AdtId) -> bool {
        id.0 < self.adts.len()
    }

    /// Whether the store holds a trait under the identifier.
    pub open spec fn has_trait(self, id: TraitId) -> bool {
        id.0 < self.traits.len()
    }

    /// Whether the store holds an impl under the identifier.
    pub open spec fn has_impl(self, id: ImplId) -> bool {
        id.0 < self.impls.len()
    }

    /// Whether the store holds an associated-type value under the identifier.
    pub open spec fn has_associated_ty_value(self, id: AssociatedTyValueId) -> bool {
        id.0 < self.associated_ty_values.len()
    }

    /// Whether the store holds an associated type under the identifier.
    pub open spec fn has_associated_ty(self, id: AssocTypeId) -> bool {
        id.0 < self.associated_tys.len()
    }

    /// A trait reference that the store can answer for: its trait is
    /// declared, and so is its self type where that is nominal.
    pub open spec fn admits(self, tr: TraitRef) -> bool {
        &&& self.has_trait(tr.trait_id)
        &&& first_type(tr@.substitution) matches Some(t) ==> (nominal_id(t) matches Some(id)
            ==> self.has_adt(id))
    }

    /// Every identifier that one declaration holds of another resolves.
    pub open spec fn wf(self) -> bool {
        &&& forall|i: int|
            0 <= i < self.impls.len() ==> self.admits((#[trigger] self.impls[i]).trait_ref)
        &&& forall|i: int|
            0 <= i < self.associated_ty_values.len() ==> {
                &&& self.has_impl((#[trigger] self.associated_ty_values[i]).impl_id)
                &&& self.has_associated_ty(self.associated_ty_values[i].associated_ty_id)
            }
    }

    /// The built-in's trait, if one is declared: the first such.
    pub open spec fn well_known_trait_id_spec(self, kind: WellKnownTrait) -> Option<TraitId> {
        well_known_from(self.traits@, kind, 0)
    }

    /// Decides [`Database::admits`].
    pub fn does_admit(&self, trait_ref: &TraitRef) -> (r: bool)
        ensures
            r == self.admits(*trait_ref),
    {
        if trait_ref.trait_id.0 >= self.traits.len() {
            return false;
        }
        match trait_ref.self_type_parameter() {
            Some(t) => match t.adt_id() {
                Some(id) => id.0 < self.adts.len(),
                None => true,
            },
            None => true,
        }
    }

    /// Decides [`Database::wf`].
    pub fn is_wf(&self) -> (r: bool)
        ensures
            r == self.wf(),
    {
        let mut i: usize = 0;
        while i < self.impls.len()
            invariant
                i <= self.impls.len(),
                forall|j: int| 0 <= j < i ==> self.admits((#[trigger] self.impls[j]).trait_ref),
            decreases self.impls.len() - i,
        {
            if !self.does_admit(&self.impls[i].trait_ref) {
                return false;
            }
            i += 1;
        }
        let mut k: usize = 0;
        while k < self.associated_ty_values.len()
            invariant
                k <= self.associated_ty_values.len(),
                forall|j: int|
                    0 <= j < self.impls.len() ==> self.admits(
                        (#[trigger] self.impls[j]).trait_ref,
                    ),
                forall|j: int|
                    0 <= j < k ==> {
                        &&& self.has_impl((#[trigger] self.associated_ty_values[j]).impl_id)
                        &&& self.has_associated_ty(self.associated_ty_values[j].associated_ty_id)
                    },
            decreases self.associated_ty_values.len() - k,
        {
            let value = &self.associated_ty_values[k];
            if value.impl_id.0 >= self.impls.len() || value.associated_ty_id.0
                >= self.associated_tys.len() {
                return false;
            }
            k += 1;
        }
        true
    }

    /// The type declaration under the identifier.
    pub fn adt_datum(&self, id: AdtId) -> (r: &AdtDatum)
        requires
            self.has_adt(id),
        ensures
            *r == self.adts[id.0 as int],
    {
        &self.adts[id.0]
    }

    /// The trait under the identifier.
    pub fn trait_datum(&self, id: TraitId) -> (r: &TraitDatum)
        requires
            self.has_trait(id),
        ensures
            *r == self.traits[id.0 as int],
    {
        &self.traits[id.0]
    }

    /// The impl under the identifier.
    pub fn impl_datum(&self, id: ImplId) -> (r: &ImplDatum)
        requires
            self.has_impl(id),
        ensures
            *r == self.impls[id.0 as int],
    {
        &self.impls[id.0]
    }

    /// The value, or `None` where the store holds none under the identifier.
    pub fn associated_ty_value(&self, id: AssociatedTyValueId) -> (r: Option<&AssociatedTyValue>)
        ensures
            match r {
                Some(v) => self.has_associated_ty_value(id) && *v
                    == self.associated_ty_values[id.0 as int],
                None => !self.has_associated_ty_value(id),
            },
    {
        if id.0 < self.associated_ty_values.len() {
            Some(&self.associated_ty_values[id.0])
        } else {
            None
        }
    }

    /// The associated type under the identifier.
    pub fn associated_ty_data(&self, id: AssocTypeId) -> (r: &AssociatedTyDatum)
        requires
            self.has_associated_ty(id),
        ensures
            *r == self.associated_tys[id.0 as int],
    {
        &self.associated_tys[id.0]
    }

    /// Computes [`Database::well_known_trait_id_spec`].
    pub fn well_known_trait_id(&self, kind: WellKnownTrait) -> (r: Option<TraitId>)
        ensures
            r == self.well_known_trait_id_spec(kind),
    {
        let mut i: usize = 0;
        while i < self.traits.len()
            invariant
                i <= self.traits.len(),
                self.well_known_trait_id_spec(kind) == well_known_from(
                    self.traits@,
                    kind,
                    i as int,
                ),
            decreases self.traits.len() - i,
        {
            match self.traits[i].well_known {
                Some(k) => {
                    if k == kind {
                        return Some(TraitId(i));
                    }
                },
                None => {},
            }
            i += 1;
        }
        None
    }
}

} // verus!
