//! Decisions behind a listener's infinite iterator of accepted peers.
//!
//! The iterator itself lives with the kernel-facing shell, because each
//! of its turns blocks in accept; what is decided per turn stands here.
//! Every accept outcome — success or failure — is yielded in-band as the
//! next item, so the iterator never reports end-of-stream, and its size
//! hint never advertises an upper bound.

use vstd::prelude::*;

verus! {

/// What one turn of the incoming iterator yields for one accept
/// outcome: the outcome itself, and never end-of-stream.
pub open spec fn spec_incoming_item<T, E>(accepted: Result<T, E>) -> Option<Result<T, E>> {
    Option::Some(accepted)
}

/// Wraps one accept outcome as the next item of the incoming iterator.
/// A failed accept is yielded in-band, not turned into termination.
pub fn incoming_item<T, E>(accepted: Result<T, E>) -> (r: Option<Result<T, E>>)
    ensures
        r == spec_incoming_item(accepted),
        r is Some,
{
    Some(accepted)
}

/// The size hint of the incoming iterator: as many items as a length
/// can count, and no known upper bound.
pub fn incoming_size_hint() -> (r: (usize, Option<usize>))
    ensures
        r.0 == usize::MAX,
        r.1 is None,
{
    (usize::MAX, None)
}

/// Iterator liveness: no accept outcome whatsoever maps to
/// end-of-stream, so a listener's incoming iterator yields forever.
pub proof fn lemma_incoming_never_ends<T, E>(accepted: Result<T, E>)
    ensures
        spec_incoming_item(accepted) is Some,
{
}

} // verus!
