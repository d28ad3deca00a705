//! Defects of the input, as opposed to verdicts on it.
use vstd::prelude::*;
use crate::goal::{Goal, GoalModel};

verus! {

/// A defect in the input rather than a verdict on it: a term that names a
/// binder it has been taken out of, an inference variable, a substitution
/// that does not fit its binder, or a depth that leaves `u32`.
#[derive(Clone, Copy, Debug, PartialEq, Eq, Structural, Hash)]
pub struct InvariantViolation;

/// An executable outcome stands for a model outcome: a defect for `None`,
/// no obligation for `Some(None)`, and a goal for the goal it models.
pub open spec fn yields(
    r: Result<Option<Goal>, InvariantViolation>,
    m: Option<Option<GoalModel>>,
) -> bool {
    match r {
        Ok(Some(g)) => m == Some(Some(g@)),
        Ok(None) => m == Some(None::<GoalModel>),
        Err(_) => m is None,
    }
}

} // verus!
