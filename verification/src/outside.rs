//! Calls whose outcome rests on the world outside.
use vstd::prelude::*;

verus! {

/// The outcome of a call of `f`. Nothing has to be promised of `f` for this:
/// what came back is an outcome that a call of `f` can have.
pub(crate) fn outcome_of<R, F: Fn() -> R>(f: F) -> (outcome: R)
    requires
        call_requires(f, ()),
    ensures
        call_ensures(f, (), outcome),
{
    f()
}

} // verus!
