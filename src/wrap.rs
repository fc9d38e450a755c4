use vstd::prelude::*;

use crate::reason::UnsafeReason;

verus! {

/// Does nothing. It exists so that every justification handed to
/// [`unsafe_because`] or [`unsafe_because_all`] must be a well-typed
/// [`UnsafeReason`].
#[inline(always)]
pub fn unsafe_reason(_reason: UnsafeReason) {
}

/// Runs `body`, justified by `reason`, and returns exactly what `body`
/// returns. The reason is checked for its type and otherwise ignored: the
/// region behaves as it would without it.
pub fn unsafe_because<T, F: FnOnce() -> T>(reason: UnsafeReason, body: F) -> (r: T)
    requires
        body.requires(()),
    ensures
        body.ensures((), r),
{
    unsafe_reason(reason);
    body()
}

/// Runs `body`, justified by every reason of `reasons` in turn, and returns
/// exactly what `body` returns. At least one reason must be given: a call with
/// none does not verify.
pub fn unsafe_because_all<T, F: FnOnce() -> T>(reasons: Vec<UnsafeReason>, body: F) -> (r: T)
    requires
        reasons@.len() > 0,
        body.requires(()),
    ensures
        body.ensures((), r),
{
    let mut pending = reasons;
    while pending.len() > 0
        decreases pending@.len(),
    {
        let reason = pending.remove(0);
        unsafe_reason(reason);
    }
    body()
}

} // verus!
