//! Observable state of the native engine's handle table.
//!
//! The engine behind the C ABI hands out opaque, reference-counted handles:
//! each `Create` call allocates one with a single reference, `Retain` bumps
//! the count, and `Release` drops it, destroying the object when the count
//! reaches zero.  [`Engine`] models exactly that observable bookkeeping (and
//! nothing of the engine's acoustic internals), so the ownership discipline
//! of the wrapper types can be stated, proved and tested against it.

use vstd::prelude::*;

use crate::error::IplError;

verus! {

/// Bookkeeping for one allocated handle.
#[derive(Debug, Clone, Copy, PartialEq, Eq, Structural)]
pub struct Slot {
    /// Outstanding references (creation plus retains, minus releases).
    pub refs: u64,
    /// How many release calls have been made for this handle.
    pub releases: u64,
}

/// The handle table: slot `i` describes raw handle `i + 1`; the raw handle
/// `0` is the null handle and never allocated.  Creation can be directed to
/// fail with a chosen status, which is how callers exercise the failure
/// paths of the wrapper types.
pub struct Engine {
    slots: Vec<Slot>,
    create_status: IplError,
}

/// The handle table after a successful creation call.
pub open spec fn slots_after_create(s: Seq<Slot>) -> Seq<Slot> {
    s.push(Slot { refs: 1, releases: 0 })
}

/// The handle table after a retain call on `raw`.
pub open spec fn slots_after_retain(s: Seq<Slot>, raw: usize) -> Seq<Slot> {
    s.update(
        raw - 1,
        Slot { refs: (s[raw - 1].refs + 1) as u64, releases: s[raw - 1].releases },
    )
}

/// The handle table after a release call on `raw`.
pub open spec fn slots_after_release(s: Seq<Slot>, raw: usize) -> Seq<Slot> {
    s.update(
        raw - 1,
        Slot { refs: (s[raw - 1].refs - 1) as u64, releases: (s[raw - 1].releases + 1) as u64 },
    )
}

impl Engine {
    /// The handle table.
    pub closed spec fn slots_seq(self) -> Seq<Slot> {
        self.slots@
    }

    /// The status the next creation call will report.
    pub closed spec fn create_status_spec(self) -> IplError {
        self.create_status
    }

    /// Every slot has headroom for one more bookkeeping step.
    pub open spec fn wf(self) -> bool {
        forall|i: int|
            0 <= i < self.slots_seq().len() ==> (#[trigger] self.slots_seq()[i]).refs
                + self.slots_seq()[i].releases <= u64::MAX
    }

    /// Whether `raw` names an allocated slot.
    pub open spec fn in_table(self, raw: usize) -> bool {
        1 <= raw <= self.slots_seq().len()
    }

    /// The slot of handle `raw`.
    pub open spec fn slot_of(self, raw: usize) -> Slot
        recommends
            self.in_table(raw),
    {
        self.slots_seq()[raw - 1]
    }

    /// Whether `raw` is a live (allocated, not yet fully released) handle.
    pub open spec fn live(self, raw: usize) -> bool {
        self.in_table(raw) && self.slot_of(raw).refs > 0
    }

    /// Outstanding references of handle `raw`.
    pub open spec fn refs_of(self, raw: usize) -> u64
        recommends
            self.in_table(raw),
    {
        self.slot_of(raw).refs
    }

    /// Release calls made so far for handle `raw`.
    pub open spec fn releases_of(self, raw: usize) -> u64
        recommends
            self.in_table(raw),
    {
        self.slot_of(raw).releases
    }

    /// Whether the native reference count of `raw` can be bumped once more.
    pub open spec fn can_retain(self, raw: usize) -> bool {
        self.live(raw) && self.refs_of(raw) + self.releases_of(raw) < u64::MAX
    }

    /// A fresh engine with no handles, set to let creations succeed.
    pub fn new() -> (r: Engine)
        ensures
            r.wf(),
            r.slots_seq() =~= Seq::<Slot>::empty(),
            r.create_status_spec() == IplError::Success,
    {
        Engine { slots: Vec::new(), create_status: IplError::Success }
    }

    /// Directs every following creation call to report `status`.
    pub fn set_create_status(&mut self, status: IplError)
        ensures
            final(self).slots_seq() == old(self).slots_seq(),
            final(self).create_status_spec() == status,
            final(self).wf() == old(self).wf(),
    {
        self.create_status = status;
    }

    /// Models a native `Create` call: on success a fresh handle with one
    /// reference is returned; on failure the table is untouched and the null
    /// handle comes back with the failing status.
    pub fn create(&mut self) -> (r: (IplError, usize))
        requires
            old(self).wf(),
        ensures
            final(self).wf(),
            final(self).create_status_spec() == old(self).create_status_spec(),
            r.0 == old(self).create_status_spec(),
            r.0 == IplError::Success ==> {
                &&& final(self).slots_seq() =~= slots_after_create(old(self).slots_seq())
                &&& r.1 == final(self).slots_seq().len()
                &&& !old(self).in_table(r.1)
                &&& final(self).live(r.1)
                &&& final(self).refs_of(r.1) == 1
                &&& final(self).releases_of(r.1) == 0
            },
            r.0 != IplError::Success ==> final(self).slots_seq() == old(self).slots_seq() && r.1
                == 0,
            forall|h: usize|
                old(self).in_table(h) ==> final(self).in_table(h)
                    && #[trigger] final(self).slot_of(h) == old(self).slot_of(h),
    {
        if self.create_status == IplError::Success {
            self.slots.push(Slot { refs: 1, releases: 0 });
            let raw = self.slots.len();
            proof {
                assert(self.slots@ =~= old(self).slots@.push(Slot { refs: 1, releases: 0 }));
                assert forall|i: int| 0 <= i < self.slots@.len() implies (#[trigger] self.slots@[i]).refs
                    + self.slots@[i].releases <= u64::MAX by {
                    if i < old(self).slots@.len() {
                        assert(old(self).slots_seq()[i].refs + old(self).slots_seq()[i].releases
                            <= u64::MAX);
                        assert(self.slots@[i] == old(self).slots@[i]);
                    } else {
                        assert(self.slots@[i] == Slot { refs: 1, releases: 0 });
                    }
                }
            }
            (IplError::Success, raw)
        } else {
            (self.create_status, 0)
        }
    }

    /// Models a native `Retain` call: bumps the reference count and returns
    /// the same raw handle.
    pub fn retain(&mut self, raw: usize) -> (r: usize)
        requires
            old(self).wf(),
            old(self).can_retain(raw),
        ensures
            final(self).wf(),
            r == raw,
            final(self).slots_seq() =~= slots_after_retain(old(self).slots_seq(), raw),
            final(self).live(raw),
            final(self).refs_of(raw) == old(self).refs_of(raw) + 1,
            final(self).releases_of(raw) == old(self).releases_of(raw),
            final(self).create_status_spec() == old(self).create_status_spec(),
            forall|h: usize| final(self).in_table(h) == old(self).in_table(h),
            forall|h: usize|
                h != raw && old(self).in_table(h)
                    ==> #[trigger] final(self).slot_of(h) == old(self).slot_of(h),
    {
        let idx = raw - 1;
        let slot = self.slots[idx];
        self.slots.set(idx, Slot { refs: slot.refs + 1, releases: slot.releases });
        raw
    }

    /// Models a native `Release` call: exactly one release is recorded and
    /// one reference dropped; the handle dies when none remain.
    pub fn release(&mut self, raw: usize)
        requires
            old(self).wf(),
            old(self).live(raw),
        ensures
            final(self).wf(),
            final(self).slots_seq() =~= slots_after_release(old(self).slots_seq(), raw),
            final(self).refs_of(raw) == old(self).refs_of(raw) - 1,
            final(self).releases_of(raw) == old(self).releases_of(raw) + 1,
            final(self).live(raw) == (old(self).refs_of(raw) > 1),
            final(self).create_status_spec() == old(self).create_status_spec(),
            forall|h: usize| final(self).in_table(h) == old(self).in_table(h),
            forall|h: usize|
                h != raw && old(self).in_table(h)
                    ==> #[trigger] final(self).slot_of(h) == old(self).slot_of(h),
    {
        let idx = raw - 1;
        let slot = self.slots[idx];
        self.slots.set(idx, Slot { refs: slot.refs - 1, releases: slot.releases + 1 });
    }

    /// Whether `raw` is currently live.
    pub fn is_live(&self, raw: usize) -> (r: bool)
        ensures
            r == self.live(raw),
    {
        if raw == 0 || raw > self.slots.len() {
            false
        } else {
            self.slots[raw - 1].refs > 0
        }
    }

    /// Outstanding references of an allocated handle.
    pub fn refs_count(&self, raw: usize) -> (r: u64)
        requires
            self.in_table(raw),
        ensures
            r == self.refs_of(raw),
    {
        self.slots[raw - 1].refs
    }

    /// Release calls made so far for an allocated handle.
    pub fn release_count(&self, raw: usize) -> (r: u64)
        requires
            self.in_table(raw),
        ensures
            r == self.releases_of(raw),
    {
        self.slots[raw - 1].releases
    }

    /// How many handles have ever been allocated.
    pub fn handle_count(&self) -> (r: usize)
        ensures
            r == self.slots_seq().len(),
    {
        self.slots.len()
    }
}

} // verus!
