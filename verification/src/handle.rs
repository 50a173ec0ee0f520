//! Owned kernel descriptors.
//!
//! A [`Handle`] names one outstanding descriptor reference inside a kernel
//! universe.  The descriptor word `0` denotes null; a small range of negative
//! sentinels denotes the pseudo handles the kernel understands everywhere
//! (the calling universe, the calling thread, the all-zero memory object).
//! A handle owns its descriptor exclusively: sharing is done by transferring
//! a fresh reference into a universe, never by aliasing.  Closing is
//! idempotent.  The kernel calls that closing and transferring imply are
//! returned as request values for the driver to issue.

use vstd::prelude::*;

verus! {

/// The null descriptor word.
pub const NULL_DESCRIPTOR: i64 = 0;

/// Pseudo descriptor for the calling universe.
pub const THIS_UNIVERSE_DESCRIPTOR: i64 = -1;

/// Pseudo descriptor for the calling thread.
pub const THIS_THREAD_DESCRIPTOR: i64 = -2;

/// Pseudo descriptor for the kernel's all-zero memory object.
pub const ZERO_MEMORY_DESCRIPTOR: i64 = -3;

/// An owned reference to a kernel object inside a universe.
#[derive(Debug, Clone, Copy, PartialEq, Eq, Structural)]
pub struct Handle {
    /// The kernel descriptor word; `0` when the handle is null.
    pub descriptor: i64,
    /// The descriptor word of the universe that owns this handle.
    pub universe: i64,
}

/// The kernel close that releasing a handle requires.
#[derive(Debug, Clone, Copy, PartialEq, Eq, Structural)]
pub struct CloseRequest {
    /// Universe whose descriptor table holds the reference.
    pub universe: i64,
    /// Descriptor to drop from that table.
    pub descriptor: i64,
}

/// The kernel descriptor transfer that cloning a handle requires.
#[derive(Debug, Clone, Copy, PartialEq, Eq, Structural)]
pub struct TransferRequest {
    /// Descriptor to mint a new reference of.
    pub descriptor: i64,
    /// Descriptor of the universe that is to receive the new reference.
    pub target_universe: i64,
}

/// The handle left behind by a close, and the kernel call it requires.
pub open spec fn spec_close(h: Handle) -> (Handle, Option<CloseRequest>) {
    if h.descriptor == NULL_DESCRIPTOR {
        (h, None)
    } else {
        (
            Handle { descriptor: NULL_DESCRIPTOR, universe: h.universe },
            Some(CloseRequest { universe: h.universe, descriptor: h.descriptor }),
        )
    }
}

impl Handle {
    /// The null handle: no object at all.
    pub fn null() -> (r: Handle)
        ensures
            r.descriptor == NULL_DESCRIPTOR,
            r.universe == NULL_DESCRIPTOR,
    {
        Handle { descriptor: NULL_DESCRIPTOR, universe: NULL_DESCRIPTOR }
    }

    /// The immortal pseudo handle for the calling universe.
    pub fn this_universe() -> (r: Handle)
        ensures
            r.descriptor == THIS_UNIVERSE_DESCRIPTOR,
            r.universe == NULL_DESCRIPTOR,
    {
        Handle { descriptor: THIS_UNIVERSE_DESCRIPTOR, universe: NULL_DESCRIPTOR }
    }

    /// The immortal pseudo handle for the calling thread.
    pub fn this_thread() -> (r: Handle)
        ensures
            r.descriptor == THIS_THREAD_DESCRIPTOR,
            r.universe == NULL_DESCRIPTOR,
    {
        Handle { descriptor: THIS_THREAD_DESCRIPTOR, universe: NULL_DESCRIPTOR }
    }

    /// The immortal pseudo handle for the kernel's zero memory object.
    pub fn zero_memory() -> (r: Handle)
        ensures
            r.descriptor == ZERO_MEMORY_DESCRIPTOR,
            r.universe == NULL_DESCRIPTOR,
    {
        Handle { descriptor: ZERO_MEMORY_DESCRIPTOR, universe: NULL_DESCRIPTOR }
    }

    /// Adopts a raw descriptor that the kernel handed back; the reference is
    /// owned by the calling universe.
    pub fn from_raw(descriptor: i64) -> (r: Handle)
        ensures
            r.descriptor == descriptor,
            r.universe == THIS_UNIVERSE_DESCRIPTOR,
    {
        Handle { descriptor, universe: THIS_UNIVERSE_DESCRIPTOR }
    }

    /// Adopts a raw descriptor owned by the given universe.
    pub fn from_raw_in_universe(descriptor: i64, universe: i64) -> (r: Handle)
        ensures
            r.descriptor == descriptor,
            r.universe == universe,
    {
        Handle { descriptor, universe }
    }

    /// Returns the raw descriptor word.
    pub fn handle(&self) -> (r: i64)
        ensures
            r == self.descriptor,
    {
        self.descriptor
    }

    /// Returns the descriptor word of the owning universe.
    pub fn universe(&self) -> (r: i64)
        ensures
            r == self.universe,
    {
        self.universe
    }

    /// Whether the handle is null.
    pub fn is_null(&self) -> (r: bool)
        ensures
            r <==> self.descriptor == NULL_DESCRIPTOR,
    {
        self.descriptor == NULL_DESCRIPTOR
    }

    /// Closes the handle.  A non-null handle becomes null and the kernel
    /// close it owes is returned for the driver to issue; a null handle is
    /// left as it is.  Closing twice is a no-op the second time.
    pub fn close(&mut self) -> (r: Option<CloseRequest>)
        ensures
            (*final(self), r) == spec_close(*old(self)),
            final(self).descriptor == NULL_DESCRIPTOR || old(self).descriptor == NULL_DESCRIPTOR,
            final(self).universe == old(self).universe,
    {
        if self.descriptor != NULL_DESCRIPTOR {
            let request = CloseRequest { universe: self.universe, descriptor: self.descriptor };
            self.descriptor = NULL_DESCRIPTOR;
            Some(request)
        } else {
            None
        }
    }

    /// The kernel transfer that mints a new reference of this handle inside
    /// the given universe.  The driver issues it and adopts the returned
    /// descriptor with [`Handle::from_transfer`].
    pub fn transfer_request(&self, universe: &Handle) -> (r: TransferRequest)
        ensures
            r.descriptor == self.descriptor,
            r.target_universe == universe.descriptor,
    {
        TransferRequest { descriptor: self.descriptor, target_universe: universe.descriptor }
    }

    /// The kernel transfer that clones this handle into the calling
    /// universe: a new owned reference of the same object.
    pub fn clone_handle(&self) -> (r: TransferRequest)
        ensures
            r.descriptor == self.descriptor,
            r.target_universe == THIS_UNIVERSE_DESCRIPTOR,
    {
        let universe = Handle::this_universe();
        self.transfer_request(&universe)
    }

    /// Adopts the descriptor a transfer produced: the new handle is owned by
    /// the universe the transfer targeted.
    pub fn from_transfer(new_descriptor: i64, universe: &Handle) -> (r: Handle)
        ensures
            r.descriptor == new_descriptor,
            r.universe == universe.descriptor,
    {
        Handle { descriptor: new_descriptor, universe: universe.descriptor }
    }
}

/// Law: closing is idempotent.  The first close leaves a null handle; a
/// second close changes nothing and owes the kernel nothing.
pub proof fn lemma_close_idempotent(h: Handle)
    ensures
        spec_close(spec_close(h).0).0 == spec_close(h).0,
        spec_close(spec_close(h).0).1 is None,
{
}

} // verus!
