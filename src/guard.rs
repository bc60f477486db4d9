//! Guarding a protected operation behind an access decision.
use vstd::prelude::*;
use crate::error::Error;

verus! {

/// Runs `operation` on what an allowing decision recovered (the claims or
/// the roles), and never where the decision denies: the denial comes back
/// instead.
pub fn run_guarded<T, R, F: FnOnce(T) -> R>(decision: Result<T, Error>, operation: F) -> (r: Result<R, Error>)
    requires
        decision matches Ok(allowed) ==> operation.requires((allowed,)),
    ensures
        decision matches Err(denied) ==> r == Err::<R, Error>(denied),
        decision matches Ok(allowed) ==> r is Ok && operation.ensures((allowed,), r->Ok_0),
{
    match decision {
        Ok(allowed) => Ok(operation(allowed)),
        Err(denied) => Err(denied),
    }
}

} // verus!
