use vstd::prelude::*;

use crate::handle::Handle;

verus! {

/// Decides whether two paths name the same file, given the outcome of
/// opening each of them as a handle.
///
/// The first failure wins: if the first open failed its error is returned,
/// else if the second failed its error is returned. Otherwise the result
/// says whether the two handles carry equal identities. Every handle passed
/// in is dropped, and so released, before this returns.
pub fn is_same_file<F1, F2, E>(first: Result<Handle<F1>, E>, second: Result<Handle<F2>, E>) -> (r:
    Result<bool, E>)
    ensures
        first is Err ==> r == Err::<bool, E>(first->Err_0),
        first is Ok && second is Err ==> r == Err::<bool, E>(second->Err_0),
        first is Ok && second is Ok ==> r == Ok::<bool, E>(
            first->Ok_0.identity() == second->Ok_0.identity(),
        ),
{
    match first {
        Err(e) => Err(e),
        Ok(a) => match second {
            Err(e) => Err(e),
            Ok(b) => Ok(a == b),
        },
    }
}

} // verus!
