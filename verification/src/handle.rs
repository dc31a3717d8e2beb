//! Ownership discipline for opaque native handles.
//!
//! Every wrapper type owns exactly one [`NativeHandle`].  A handle is born
//! `Uninitialized` (null), becomes `Live` when a creation or retain call
//! succeeds, and moves to `Released` when it is finalized.  Finalization is
//! the only path that performs a native release call, it does so exactly
//! once, and only for a live handle — so a wrapper whose creation failed
//! never releases anything, and no handle is ever released twice.

use vstd::prelude::*;

use crate::engine::{slots_after_create, slots_after_release, slots_after_retain, Engine, Slot};
use crate::error::IplError;

verus! {

/// The lifecycle states of a wrapped native handle.
#[derive(Debug, Clone, Copy, PartialEq, Eq, Structural)]
pub enum HandleState {
    /// No native object is attached (the null handle).
    Uninitialized,
    /// A native object is attached and has not been released.
    Live,
    /// The release call has been made; the handle must not be used again.
    Released,
}

/// One owned, opaque native handle together with its lifecycle state.
#[derive(Debug)]
pub struct NativeHandle {
    state: HandleState,
    raw: usize,
}

/// The engine's handle table after finalizing `h`: exactly one release call
/// if `h` is live, no call at all otherwise.
pub open spec fn finalize_slots_spec(h: NativeHandle, s: Seq<Slot>) -> Seq<Slot> {
    if h.is_live_spec() {
        slots_after_release(s, h.raw_spec())
    } else {
        s
    }
}

impl NativeHandle {
    /// The lifecycle state.
    pub closed spec fn state_spec(self) -> HandleState {
        self.state
    }

    /// The wrapped raw handle value (`0` when none is attached).
    pub closed spec fn raw_spec(self) -> usize {
        self.raw
    }

    /// Whether the handle is attached to a native object.
    pub open spec fn is_live_spec(self) -> bool {
        self.state_spec() == HandleState::Live
    }

    /// The handle a creation call with outcome `status`/`raw` leaves behind:
    /// live on success, untouched (null, releasable by no one) on failure.
    pub closed spec fn from_create_spec(status: IplError, raw: usize) -> NativeHandle {
        if status == IplError::Success {
            NativeHandle { state: HandleState::Live, raw }
        } else {
            NativeHandle { state: HandleState::Uninitialized, raw: 0 }
        }
    }

    /// A handle that has not been attached to anything.
    pub fn uninitialized() -> (r: NativeHandle)
        ensures
            r.state_spec() == HandleState::Uninitialized,
            r.raw_spec() == 0,
            !r.is_live_spec(),
    {
        NativeHandle { state: HandleState::Uninitialized, raw: 0 }
    }

    /// Adopts the outcome of a native creation call.  On a non-success
    /// status the result is indistinguishable from a handle that was never
    /// initialized, so its finalizer is a no-op.
    pub fn from_create(status: IplError, raw: usize) -> (r: NativeHandle)
        ensures
            r == NativeHandle::from_create_spec(status, raw),
            r.is_live_spec() == (status == IplError::Success),
            status == IplError::Success ==> r.raw_spec() == raw,
            status != IplError::Success ==> r.raw_spec() == 0 && r.state_spec()
                == HandleState::Uninitialized,
    {
        if status == IplError::Success {
            NativeHandle { state: HandleState::Live, raw }
        } else {
            NativeHandle { state: HandleState::Uninitialized, raw: 0 }
        }
    }

    /// Adopts a raw handle that is already live (the outcome of a retain
    /// call, which returns the same raw handle with its count bumped).
    pub fn from_retain(raw: usize) -> (r: NativeHandle)
        ensures
            r.is_live_spec(),
            r.raw_spec() == raw,
            r.state_spec() == HandleState::Live,
    {
        NativeHandle { state: HandleState::Live, raw }
    }

    /// The raw-handle accessor: callable only while the handle is live, so a
    /// dead or null handle can never leak to the native boundary.
    pub fn raw(&self) -> (r: usize)
        requires
            self.is_live_spec(),
        ensures
            r == self.raw_spec(),
    {
        self.raw
    }

    /// Whether the handle is attached to a native object.
    pub fn is_live(&self) -> (r: bool)
        ensures
            r == self.is_live_spec(),
    {
        self.state == HandleState::Live
    }

    /// The destructor protocol: performs the native release call exactly
    /// once, and only if the handle is live.  Finalizing an uninitialized or
    /// already-released handle touches nothing.  Returns whether a release
    /// call was made.
    pub fn finalize(&mut self, engine: &mut Engine) -> (released: bool)
        requires
            old(engine).wf(),
            old(self).is_live_spec() ==> old(engine).live(old(self).raw_spec()),
        ensures
            final(engine).wf(),
            released == old(self).is_live_spec(),
            final(self).raw_spec() == old(self).raw_spec(),
            final(self).state_spec() == if old(self).is_live_spec() {
                HandleState::Released
            } else {
                old(self).state_spec()
            },
            !final(self).is_live_spec(),
            final(engine).slots_seq() == finalize_slots_spec(*old(self), old(engine).slots_seq()),
            final(engine).create_status_spec() == old(engine).create_status_spec(),
            old(self).is_live_spec() ==> final(engine).releases_of(old(self).raw_spec()) == old(
                engine,
            ).releases_of(old(self).raw_spec()) + 1,
            !old(self).is_live_spec() ==> final(engine).slots_seq() == old(engine).slots_seq(),
    {
        if self.state == HandleState::Live {
            engine.release(self.raw);
            self.state = HandleState::Released;
            true
        } else {
            false
        }
    }
}

/// A wrapper whose creation call failed never performs a release call: the
/// handle it is left with is not live, and finalizing it leaves the engine's
/// handle table exactly as it was.
pub proof fn lemma_failed_create_never_releases(status: IplError, raw: usize, s: Seq<Slot>)
    requires
        status != IplError::Success,
    ensures
        !NativeHandle::from_create_spec(status, raw).is_live_spec(),
        finalize_slots_spec(NativeHandle::from_create_spec(status, raw), s) == s,
{
}

/// Retaining a freshly created handle and then finalizing both the original
/// wrapper and the retained copy performs exactly two release calls on the
/// shared raw handle — never zero, never more — after which the handle is
/// dead.
pub proof fn lemma_retain_then_drop_releases_exactly_twice(s0: Seq<Slot>, raw: usize)
    requires
        raw == s0.len() + 1,
    ensures
        ({
            let s1 = slots_after_create(s0);
            let s2 = slots_after_retain(s1, raw);
            let s3 = slots_after_release(s2, raw);
            let s4 = slots_after_release(s3, raw);
            s4[raw - 1] == Slot { refs: 0, releases: 2 }
        }),
{
    let s1 = slots_after_create(s0);
    let s2 = slots_after_retain(s1, raw);
    let s3 = slots_after_release(s2, raw);
    let s4 = slots_after_release(s3, raw);
    assert(s1[raw - 1] == Slot { refs: 1, releases: 0 });
    assert(s2[raw - 1] == Slot { refs: 2, releases: 0 });
    assert(s3[raw - 1] == Slot { refs: 1, releases: 1 });
    assert(s4[raw - 1] == Slot { refs: 0, releases: 2 });
}

} // verus!
