//! The verdict on a declaration or an impl: its obligation is assembled,
//! closed, and put to a solver; it is legal exactly when the solver finds
//! a unique solution.
use vstd::pervasive::unreached;
use vstd::prelude::*;
use crate::assoc::{assoc_ty_goal_of, compute_assoc_ty_goal};
use crate::closed_laws::law_trait_impl_goal_is_closed;
use crate::decl::Database;
use crate::goal::{
    all_of, clauses_model, goals_model, Goal, GoalModel, ProgramClause, ProgramClauseModel,
};
use crate::ir::{AdtId, AssociatedTyValueId, ImplId, TraitId};
use crate::obligation::{
    adt_decl_wf_goal, adt_wf_goal, impl_header_goal, impl_header_wf_goal, optional, push_optional,
};
use crate::scope::is_closed;
use crate::text::{push_tagged, string_push_str, tagged};
use crate::violation::InvariantViolation;

verus! {

broadcast use vstd::std_specs::vec::group_vec_axioms;

/// Why a declaration is rejected. Only the offender is named.
#[derive(Clone, Copy, Debug, PartialEq, Eq, Structural, Hash)]
pub enum WfError {
    IllFormedTypeDecl(AdtId),
    IllFormedTraitImpl(TraitId),
}

impl WfError {
    /// What the error says: which kind of declaration fails, and which one.
    pub open spec fn message_text(self) -> Seq<char> {
        match self {
            WfError::IllFormedTypeDecl(id) => "type declaration `"@ + tagged("AdtId"@, id.0 as nat)
                + "` does not meet well-formedness requirements"@,
            WfError::IllFormedTraitImpl(id) => "trait impl for `"@ + tagged(
                "TraitId"@,
                id.0 as nat,
            ) + "` does not meet well-formedness requirements"@,
        }
    }

    /// Builds [`WfError::message_text`].
    pub fn message(&self) -> (r: String)
        ensures
            r@ == self.message_text(),
    {
        let mut out = String::new();
        match self {
            WfError::IllFormedTypeDecl(id) => {
                string_push_str(&mut out, "type declaration `");
                push_tagged(&mut out, "AdtId", id.0);
            },
            WfError::IllFormedTraitImpl(id) => {
                string_push_str(&mut out, "trait impl for `");
                push_tagged(&mut out, "TraitId", id.0);
            },
        }
        string_push_str(&mut out, "` does not meet well-formedness requirements");
        proof {
            assert(out@ =~= self.message_text());
        }
        out
    }
}

/// What a solver found.
#[derive(Clone, Copy, Debug, PartialEq, Eq, Structural, Hash)]
pub enum Solution {
    Unique,
    Ambiguous,
}

impl Solution {
    /// Whether the solution is the only one.
    pub open spec fn is_unique_spec(self) -> bool {
        self == Solution::Unique
    }

    /// Computes [`Solution::is_unique_spec`].
    pub fn is_unique(&self) -> (r: bool)
        ensures
            r == self.is_unique_spec(),
    {
        match self {
            Solution::Unique => true,
            Solution::Ambiguous => false,
        }
    }
}

/// A goal without free variables, in an environment of hypotheses.
#[derive(Debug, PartialEq, Eq)]
pub struct ClosedGoal {
    pub environment: Vec<ProgramClause>,
    pub goal: Goal,
}

/// Model of [`ClosedGoal`].
pub ghost struct ClosedGoalModel {
    pub environment: Seq<ProgramClauseModel>,
    pub goal: GoalModel,
}

impl View for ClosedGoal {
    type V = ClosedGoalModel;

    open spec fn view(&self) -> ClosedGoalModel {
        ClosedGoalModel { environment: clauses_model(self.environment@), goal: self.goal@ }
    }
}

/// The goal in the empty environment.
pub open spec fn closed(goal: GoalModel) -> ClosedGoalModel {
    ClosedGoalModel { environment: Seq::empty(), goal }
}

impl Goal {
    /// Builds [`closed`].
    pub fn into_closed_goal(self) -> (r: ClosedGoal)
        ensures
            r@ == closed(self@),
    {
        let r = ClosedGoal { environment: Vec::new(), goal: self };
        proof {
            assert(clauses_model(r.environment@) =~= Seq::<ProgramClauseModel>::empty());
        }
        r
    }
}

/// The verdict that an answer stands for: legal for a unique solution,
/// `error` for an ambiguous one and for none.
pub open spec fn verdict(answer: Option<Solution>, error: WfError) -> Result<(), WfError> {
    match answer {
        Some(solution) => if solution.is_unique_spec() {
            Ok(())
        } else {
            Err(error)
        },
        None => Err(error),
    }
}

/// Computes [`verdict`] for a type declaration.
pub fn adt_verdict(adt_id: AdtId, answer: Option<Solution>) -> (r: Result<(), WfError>)
    ensures
        r == verdict(answer, WfError::IllFormedTypeDecl(adt_id)),
{
    let is_legal = match answer {
        Some(sol) => sol.is_unique(),
        None => false,
    };
    if !is_legal {
        Err(WfError::IllFormedTypeDecl(adt_id))
    } else {
        Ok(())
    }
}

/// Computes [`verdict`] for an impl of the trait.
pub fn impl_verdict(trait_id: TraitId, answer: Option<Solution>) -> (r: Result<(), WfError>)
    ensures
        r == verdict(answer, WfError::IllFormedTraitImpl(trait_id)),
{
    let is_legal = match answer {
        Some(sol) => sol.is_unique(),
        None => false,
    };
    if is_legal {
        Ok(())
    } else {
        Err(WfError::IllFormedTraitImpl(trait_id))
    }
}

/// The obligations of the values under the identifiers, in order; an
/// identifier that the store does not resolve contributes none.
pub open spec fn assoc_ty_goals(db: Database, ids: Seq<AssociatedTyValueId>) -> Option<
    Seq<GoalModel>,
>
    decreases ids.len(),
{
    if ids.len() == 0 {
        Some(Seq::empty())
    } else {
        match (assoc_ty_goals(db, ids.drop_last()), assoc_ty_goal_of(db, ids.last())) {
            (Some(a), Some(g)) => Some(a + optional(g)),
            _ => None,
        }
    }
}

/// The obligation of an impl: its header's, if it has one, and that of
/// each associated-type value it resolves.
pub open spec fn trait_impl_goal(db: Database, impl_id: ImplId) -> Option<GoalModel> {
    let impl_datum = db.impls[impl_id.0 as int];
    match (
        impl_header_goal(db, impl_datum),
        assoc_ty_goals(db, impl_datum.associated_ty_value_ids@),
    ) {
        (Some(header), Some(values)) => Some(all_of(optional(header) + values)),
        _ => None,
    }
}

/// A refused prefix of values refuses the whole.
proof fn lemma_assoc_ty_goals_refused(db: Database, ids: Seq<AssociatedTyValueId>, i: int)
    requires
        0 <= i <= ids.len(),
        assoc_ty_goals(db, ids.take(i)) is None,
    ensures
        assoc_ty_goals(db, ids) is None,
    decreases ids.len() - i,
{
    if i < ids.len() {
        assert(ids.take(i + 1).drop_last() =~= ids.take(i));
        lemma_assoc_ty_goals_refused(db, ids, i + 1);
    } else {
        assert(ids.take(i) =~= ids);
    }
}

/// Builds [`trait_impl_goal`].
pub fn trait_impl_wf_goal(db: &Database, impl_id: ImplId) -> (r: Result<Goal, InvariantViolation>)
    requires
        db.wf(),
        db.has_impl(impl_id),
    ensures
        match r {
            Ok(g) => trait_impl_goal(*db, impl_id) == Some(g@),
            Err(_) => trait_impl_goal(*db, impl_id) is None,
        },
        db.well_scoped() ==> (r matches Ok(g) ==> is_closed(g@)),
{
    let impl_datum = db.impl_datum(impl_id);
    let header = match impl_header_wf_goal(db, impl_id) {
        Ok(h) => h,
        Err(e) => {
            return Err(e);
        },
    };
    let mut goals: Vec<Goal> = Vec::new();
    proof {
        assert(goals_model(goals@) =~= Seq::<GoalModel>::empty());
    }
    push_optional(&mut goals, header);
    let ghost head = goals_model(goals@);
    let ghost ids = impl_datum.associated_ty_value_ids@;
    proof {
        assert(head =~= optional(impl_header_goal(*db, *impl_datum)->0));
        assert(ids.take(0) =~= Seq::empty());
        assert(head + Seq::<GoalModel>::empty() =~= head);
    }
    let mut i: usize = 0;
    while i < impl_datum.associated_ty_value_ids.len()
        invariant
            db.wf(),
            db.has_impl(impl_id),
            *impl_datum == db.impls[impl_id.0 as int],
            i <= impl_datum.associated_ty_value_ids.len(),
            ids == impl_datum.associated_ty_value_ids@,
            assoc_ty_goals(*db, ids.take(i as int)) is Some,
            goals_model(goals@) == head + assoc_ty_goals(*db, ids.take(i as int))->0,
        decreases impl_datum.associated_ty_value_ids.len() - i,
    {
        let ghost mid = assoc_ty_goals(*db, ids.take(i as int))->0;
        proof {
            assert(ids.take(i + 1).drop_last() =~= ids.take(i as int));
        }
        match compute_assoc_ty_goal(db, impl_datum.associated_ty_value_ids[i]) {
            Ok(g) => {
                push_optional(&mut goals, g);
                proof {
                    let found = optional(assoc_ty_goal_of(*db, ids[i as int])->0);
                    assert((head + mid) + found =~= head + (mid + found));
                }
            },
            Err(e) => {
                proof {
                    lemma_assoc_ty_goals_refused(*db, ids, i + 1);
                }
                return Err(e);
            },
        }
        i += 1;
    }
    proof {
        assert(ids.take(i as int) =~= ids);
        if db.well_scoped() {
            law_trait_impl_goal_is_closed(*db, impl_id);
        }
    }
    Ok(Goal::all(goals))
}

/// Checks declarations against a store with a solver of the caller's
/// choice. The solver is given the store and a closed goal and answers
/// with a solution or none.
pub struct WfSolver<'db, S> {
    db: &'db Database,
    solver: S,
}

impl<'db, S: Fn(&Database, &ClosedGoal) -> Option<Solution>> WfSolver<'db, S> {
    /// The store that declarations are looked up in.
    pub closed spec fn db(self) -> Database {
        *self.db
    }

    /// The configured solver.
    pub closed spec fn solver(self) -> S {
        self.solver
    }

    /// The solver may be asked about any closed goal.
    pub open spec fn solver_is_total(self) -> bool {
        forall|goal: ClosedGoal| #[trigger] call_requires(self.solver(), (&self.db(), &goal))
    }

    /// `outcome` is the verdict on `goal`: the solver was asked about the
    /// goal, closed, and `outcome` is what its answer stands for.
    pub open spec fn judged(
        self,
        goal: GoalModel,
        error: WfError,
        outcome: Result<(), WfError>,
    ) -> bool {
        exists|asked: ClosedGoal, answer: Option<Solution>|
            asked@ == closed(goal) && #[trigger] call_ensures(
                self.solver(),
                (&self.db(), &asked),
                answer,
            ) && outcome == verdict(answer, error)
    }

    /// Constructs a new `WfSolver`.
    pub fn new(db: &'db Database, solver: S) -> (r: Self)
        ensures
            r.db() == *db,
            r.solver() == solver,
    {
        Self { db, solver }
    }

    /// Decides whether a type declaration is well-formed.
    pub fn verify_adt_decl(&self, adt_id: AdtId) -> (r: Result<(), WfError>)
        requires
            self.db().has_adt(adt_id),
            adt_wf_goal(self.db(), self.db().adts[adt_id.0 as int]) is Some,
            self.solver_is_total(),
        ensures
            self.judged(
                adt_wf_goal(self.db(), self.db().adts[adt_id.0 as int])->0,
                WfError::IllFormedTypeDecl(adt_id),
                r,
            ),
    {
        let wg_goal = match adt_decl_wf_goal(self.db, adt_id) {
            Ok(g) => g,
            Err(_) => unreached(),
        };
        let wg_goal = wg_goal.into_closed_goal();
        assert(call_requires(self.solver(), (&self.db(), &wg_goal)));
        let answer = (self.solver)(self.db, &wg_goal);
        proof {
            assert(call_ensures(self.solver(), (&self.db(), &wg_goal), answer));
        }
        adt_verdict(adt_id, answer)
    }

    /// Decides whether an impl is well-formed.
    pub fn verify_trait_impl(&self, impl_id: ImplId) -> (r: Result<(), WfError>)
        requires
            self.db().wf(),
            self.db().has_impl(impl_id),
            trait_impl_goal(self.db(), impl_id) is Some,
            self.solver_is_total(),
        ensures
            self.judged(
                trait_impl_goal(self.db(), impl_id)->0,
                WfError::IllFormedTraitImpl(self.db().impls[impl_id.0 as int].trait_ref.trait_id),
                r,
            ),
    {
        let impl_datum = self.db.impl_datum(impl_id);
        let trait_id = impl_datum.trait_id();
        let impl_goal = match trait_impl_wf_goal(self.db, impl_id) {
            Ok(g) => g,
            Err(_) => unreached(),
        };
        let impl_goal = impl_goal.into_closed_goal();
        assert(call_requires(self.solver(), (&self.db(), &impl_goal)));
        let answer = (self.solver)(self.db, &impl_goal);
        proof {
            assert(call_ensures(self.solver(), (&self.db(), &impl_goal), answer));
        }
        impl_verdict(trait_id, answer)
    }
}

} // verus!
