//! Ownership discipline for a kernel file descriptor.
//!
//! A [`Descriptor`] records one non-negative descriptor integer together
//! with whether ownership has been surrendered.  The kernel-facing shell
//! that actually closes descriptors consults [`Descriptor::needs_close`]
//! exactly once, when the owning handle is dropped; everything that can be
//! said about the close-exactly-once discipline without running the kernel
//! call is stated and proved here:
//!
//! * a freshly created or adopted handle is one that will be closed,
//! * [`Descriptor::release`] is the only operation that suppresses the
//!   close, and it yields the raw integer to the caller,
//! * at most one close is ever due for a handle, whatever sequence of
//!   operations it went through.

use vstd::prelude::*;

verus! {

/// One exclusively owned kernel descriptor.
///
/// Duplication (`dup`) and adoption of an external descriptor both produce
/// fresh `Descriptor` values: each one answers for exactly one close, and
/// no bookkeeping is shared between handles that refer to the same kernel
/// socket.
#[derive(Debug)]
pub struct Descriptor {
    fd: i32,
    released: bool,
}

/// How many closes are due for a handle when it is dropped: one while the
/// handle still owns its descriptor, none once ownership was surrendered.
pub open spec fn closes_on_drop(d: Descriptor) -> nat {
    if d.spec_released() {
        0
    } else {
        1
    }
}

impl Descriptor {
    /// The recorded descriptor integer.
    pub closed spec fn spec_fd(self) -> int {
        self.fd as int
    }

    /// Whether ownership of the descriptor was surrendered.
    pub closed spec fn spec_released(self) -> bool {
        self.released
    }

    #[verifier::type_invariant]
    spec fn wf(self) -> bool {
        self.fd >= 0
    }

    /// Takes ownership of a descriptor the kernel just produced, or that
    /// an external caller hands over.  The new handle owes one close.
    pub fn adopt(fd: i32) -> (d: Descriptor)
        requires
            fd >= 0,
        ensures
            d.spec_fd() == fd,
            !d.spec_released(),
            closes_on_drop(d) == 1,
    {
        Descriptor { fd, released: false }
    }

    /// The raw descriptor integer, without any transfer of ownership.
    pub fn raw(&self) -> (fd: i32)
        ensures
            fd == self.spec_fd(),
            fd >= 0,
    {
        proof {
            use_type_invariant(self);
        }
        self.fd
    }

    /// Surrenders ownership: yields the raw descriptor and suppresses the
    /// close that was otherwise due.  The caller answers for the
    /// descriptor from here on.
    pub fn release(&mut self) -> (fd: i32)
        ensures
            fd == old(self).spec_fd(),
            final(self).spec_fd() == old(self).spec_fd(),
            final(self).spec_released(),
            closes_on_drop(*final(self)) == 0,
    {
        proof {
            use_type_invariant(&*self);
        }
        self.released = true;
        self.fd
    }

    /// Whether a close is still due for this handle.  The drop path of the
    /// kernel-facing shell closes the descriptor exactly when this answers
    /// true.
    pub fn needs_close(&self) -> (r: bool)
        ensures
            r == !self.spec_released(),
            r == (closes_on_drop(*self) == 1),
    {
        !self.released
    }
}

/// At most one close is ever due for a handle, and none at all once
/// ownership was surrendered.  Together with the shell's rule of
/// consulting the close decision only at drop — which runs at most once
/// per handle — no descriptor is closed more than once across any
/// sequence of duplications, releases and drops: every duplication makes
/// a fresh handle with its own single close, and a release zeroes the
/// count for its handle for good, since no operation clears the released
/// mark.
pub proof fn lemma_close_at_most_once(d: Descriptor)
    ensures
        closes_on_drop(d) <= 1,
        d.spec_released() ==> closes_on_drop(d) == 0,
{
}

/// One observable event in the life of a single handle.  A duplication
/// is no event of the handle itself: it starts a second handle with a
/// history of its own.
#[derive(Clone, Copy, Debug, PartialEq, Eq, Structural)]
pub enum HandleEvent {
    /// Ownership of the descriptor was surrendered to the caller.
    Surrender,
    /// The handle was dropped.
    Discard,
}

/// Whether a history is one that ownership allows for a single handle:
/// it can be dropped at most once, and only as its last event.
pub open spec fn spec_valid_history(h: Seq<HandleEvent>) -> bool {
    forall|i: int|
        0 <= i < h.len() && h[i] == HandleEvent::Discard ==> i == h.len() - 1
}

/// How many closes a history performs, starting from a handle whose
/// released mark is `released`: surrendering sets the mark for good, and
/// a drop closes exactly when the mark is still clear.
pub open spec fn spec_closes(h: Seq<HandleEvent>, released: bool) -> nat
    decreases h.len(),
{
    if h.len() == 0 {
        0
    } else if h[0] == HandleEvent::Surrender {
        spec_closes(h.drop_first(), true)
    } else {
        (if released {
            0nat
        } else {
            1nat
        }) + spec_closes(h.drop_first(), released)
    }
}

/// Across any sequence of surrenders and drops that ownership allows, a
/// handle performs at most one close, and none at all if its ownership
/// was ever surrendered first.
pub proof fn lemma_history_close_at_most_once(h: Seq<HandleEvent>, released: bool)
    requires
        spec_valid_history(h),
    ensures
        spec_closes(h, released) <= 1,
        released ==> spec_closes(h, released) == 0,
    decreases h.len(),
{
    if h.len() > 0 {
        let t = h.drop_first();
        assert forall|i: int|
            0 <= i < t.len() && t[i] == HandleEvent::Discard implies i == t.len() - 1 by {
            assert(h[i + 1] == HandleEvent::Discard);
        }
        lemma_history_close_at_most_once(t, h[0] == HandleEvent::Surrender || released);
        if h[0] == HandleEvent::Discard {
            assert(t.len() == 0);
        }
    }
}

/// A handle closes its descriptor exactly when it is dropped while it
/// still owns it: one close for a history that ends in an owned drop,
/// none for every other history.
pub proof fn lemma_close_iff_owned_drop(h: Seq<HandleEvent>)
    requires
        spec_valid_history(h),
    ensures
        spec_closes(h, false) == 1 <==> (h.len() > 0 && h[h.len() - 1] == HandleEvent::Discard
            && (forall|i: int| 0 <= i < h.len() - 1 ==> h[i] != HandleEvent::Surrender)),
        spec_closes(h, false) <= 1,
    decreases h.len(),
{
    lemma_history_close_at_most_once(h, false);
    if h.len() > 0 {
        let t = h.drop_first();
        assert forall|i: int|
            0 <= i < t.len() && t[i] == HandleEvent::Discard implies i == t.len() - 1 by {
            assert(h[i + 1] == HandleEvent::Discard);
        }
        if h[0] == HandleEvent::Surrender {
            lemma_history_close_at_most_once(t, true);
        } else {
            assert(t.len() == 0);
            assert(h[h.len() - 1] == HandleEvent::Discard);
        }
    }
}

} // verus!
