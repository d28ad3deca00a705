//! De Bruijn index arithmetic, carried out by `chalk_ir` on plain values.
use vstd::prelude::*;
use crate::ir::BoundVar;

verus! {

/// The variable as seen from `outer` binders further out, if it is not
/// bound by one of them.
pub open spec fn shifted_out_to(bv: BoundVar, outer: u32) -> Option<BoundVar> {
    if bv.debruijn < outer {
        None
    } else {
        Some(BoundVar { debruijn: (bv.debruijn - outer) as u32, index: bv.index })
    }
}

/// The variable as seen from `outer` binders further in.
pub open spec fn shifted_in_from(bv: BoundVar, outer: u32) -> BoundVar
    recommends
        bv.debruijn + outer <= u32::MAX,
{
    BoundVar { debruijn: (bv.debruijn + outer) as u32, index: bv.index }
}

/// The parameter position, if the variable belongs to the innermost binder.
pub open spec fn index_if_innermost(bv: BoundVar) -> Option<usize> {
    if bv.debruijn == 0 {
        Some(bv.index)
    } else {
        None
    }
}

/// `chalk_ir::BoundVar::shifted_out_to`: `None` when the variable's binder
/// lies within the `outer` innermost binders, otherwise the same parameter
/// with `outer` subtracted from its depth.
#[verifier::external_body]
pub(crate) fn bound_var_shifted_out_to(bv: BoundVar, outer: u32) -> (r: Option<BoundVar>)
    ensures
        r == shifted_out_to(bv, outer),
{
    let var = chalk_ir::BoundVar::new(chalk_ir::DebruijnIndex::new(bv.debruijn), bv.index);
    match var.shifted_out_to(chalk_ir::DebruijnIndex::new(outer)) {
        Some(v) => Some(BoundVar { debruijn: v.debruijn.depth(), index: v.index }),
        None => None,
    }
}

/// `chalk_ir::BoundVar::shifted_out`: one binder out; `None` for a variable
/// of the innermost binder.
#[verifier::external_body]
pub(crate) fn bound_var_shifted_out(bv: BoundVar) -> (r: Option<BoundVar>)
    ensures
        r == shifted_out_to(bv, 1),
{
    let var = chalk_ir::BoundVar::new(chalk_ir::DebruijnIndex::new(bv.debruijn), bv.index);
    match var.shifted_out() {
        Some(v) => Some(BoundVar { debruijn: v.debruijn.depth(), index: v.index }),
        None => None,
    }
}

/// `chalk_ir::BoundVar::shifted_in_from`: the same parameter with `outer`
/// added to its depth. The sum is formed in `u32`, so it must fit.
#[verifier::external_body]
pub(crate) fn bound_var_shifted_in_from(bv: BoundVar, outer: u32) -> (r: BoundVar)
    requires
        bv.debruijn + outer <= u32::MAX,
    ensures
        r == shifted_in_from(bv, outer),
{
    let var = chalk_ir::BoundVar::new(chalk_ir::DebruijnIndex::new(bv.debruijn), bv.index);
    let v = var.shifted_in_from(chalk_ir::DebruijnIndex::new(outer));
    BoundVar { debruijn: v.debruijn.depth(), index: v.index }
}

/// `chalk_ir::BoundVar::index_if_innermost`: the parameter position of a
/// variable at depth zero, `None` at any other depth.
#[verifier::external_body]
pub(crate) fn bound_var_index_if_innermost(bv: BoundVar) -> (r: Option<usize>)
    ensures
        r == index_if_innermost(bv),
{
    let var = chalk_ir::BoundVar::new(chalk_ir::DebruijnIndex::new(bv.debruijn), bv.index);
    var.index_if_innermost()
}

/// `chalk_ir::DebruijnIndex::shifted_in`: the depth one binder further in.
/// The increment is formed in `u32`, so it must fit.
#[verifier::external_body]
pub(crate) fn debruijn_shifted_in(depth: u32) -> (r: u32)
    requires
        depth < u32::MAX,
    ensures
        r == depth + 1,
{
    chalk_ir::DebruijnIndex::new(depth).shifted_in().depth()
}

/// Moves a variable `outer` binders in, unless its depth would overflow.
pub fn checked_shifted_in_from(bv: BoundVar, outer: u32) -> (r: Option<BoundVar>)
    ensures
        r == (if bv.debruijn + outer <= u32::MAX {
            Some(shifted_in_from(bv, outer))
        } else {
            None
        }),
{
    if bv.debruijn <= u32::MAX - outer {
        Some(bound_var_shifted_in_from(bv, outer))
    } else {
        None
    }
}

/// The depth one binder further in, unless it would overflow.
pub fn checked_enter_binder(depth: u32) -> (r: Option<u32>)
    ensures
        r == (if depth < u32::MAX {
            Some((depth + 1) as u32)
        } else {
            None
        }),
{
    if depth < u32::MAX {
        Some(debruijn_shifted_in(depth))
    } else {
        None
    }
}

} // verus!
