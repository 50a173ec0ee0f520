//! Typed views over kernel memory objects.
//!
//! A [`Mapping`] models a contiguous user-virtual region backed by a kernel
//! memory object: the address space it lives in, its length, and whether it
//! is currently mapped.  Establishing the region is a kernel call; this
//! module assembles the call's parameters as a [`MapRequest`] and adopts the
//! outcome, and it owns the unmap bookkeeping, which is idempotent.

use vstd::prelude::*;

use crate::handle::{Handle, NULL_DESCRIPTOR};

verus! {

/// Mapping protection and placement flags, one bit each, as the kernel ABI
/// defines them.
pub const MAP_PROT_READ: u32 = 0x100;

/// The mapped pages may be written.
pub const MAP_PROT_WRITE: u32 = 0x200;

/// The mapped pages may be executed.
pub const MAP_PROT_EXECUTE: u32 = 0x400;

/// Accessing an unmapped page in a managed mapping faults instead of asking
/// the user-space backend for the page.
pub const MAP_DONT_REQUIRE_BACKING: u32 = 0x800;

/// The mapping address is fixed; an overlapped older mapping is replaced.
pub const MAP_FIXED: u32 = 0x1000;

/// The mapping address is fixed; an overlapped older mapping makes the call
/// fail instead of being replaced.
pub const MAP_FIXED_NO_REPLACE: u32 = 0x2000;

/// A set of mapping flags.
#[derive(Debug, Clone, Copy, PartialEq, Eq, Structural)]
pub struct MappingFlags {
    /// The union of the flag bits in the set.
    pub bits: u32,
}

impl MappingFlags {
    /// The empty flag set.
    pub fn empty() -> (r: MappingFlags)
        ensures
            r.bits == 0,
    {
        MappingFlags { bits: 0 }
    }

    /// The set holding the pages-may-be-read flag.
    pub fn read() -> (r: MappingFlags)
        ensures
            r.bits == MAP_PROT_READ,
    {
        MappingFlags { bits: MAP_PROT_READ }
    }

    /// The set holding the pages-may-be-written flag.
    pub fn write() -> (r: MappingFlags)
        ensures
            r.bits == MAP_PROT_WRITE,
    {
        MappingFlags { bits: MAP_PROT_WRITE }
    }

    /// The set holding the pages-may-be-executed flag.
    pub fn execute() -> (r: MappingFlags)
        ensures
            r.bits == MAP_PROT_EXECUTE,
    {
        MappingFlags { bits: MAP_PROT_EXECUTE }
    }

    /// The set holding the fault-instead-of-backing flag.
    pub fn dont_require_backing() -> (r: MappingFlags)
        ensures
            r.bits == MAP_DONT_REQUIRE_BACKING,
    {
        MappingFlags { bits: MAP_DONT_REQUIRE_BACKING }
    }

    /// The set holding the fixed-address flag.
    pub fn fixed() -> (r: MappingFlags)
        ensures
            r.bits == MAP_FIXED,
    {
        MappingFlags { bits: MAP_FIXED }
    }

    /// The set holding the fixed-address, no-replace flag.
    pub fn fixed_no_replace() -> (r: MappingFlags)
        ensures
            r.bits == MAP_FIXED_NO_REPLACE,
    {
        MappingFlags { bits: MAP_FIXED_NO_REPLACE }
    }

    /// The union of two flag sets.
    pub fn union(self, other: MappingFlags) -> (r: MappingFlags)
        ensures
            r.bits == self.bits | other.bits,
    {
        MappingFlags { bits: self.bits | other.bits }
    }

    /// Whether every flag of `other` is in `self`.
    pub fn contains(self, other: MappingFlags) -> (r: bool)
        ensures
            r <==> self.bits & other.bits == other.bits,
    {
        self.bits & other.bits == other.bits
    }

    /// The raw flag word handed to the kernel.
    pub fn bits(self) -> (r: u32)
        ensures
            r == self.bits,
    {
        self.bits
    }
}

/// The kernel call that establishes a mapping: which memory object, into
/// which address space, at which optional fixed address, from which offset,
/// how long, and with which flags.
#[derive(Debug, Clone, Copy, PartialEq, Eq, Structural)]
pub struct MapRequest {
    /// Descriptor of the memory object to map.
    pub memory_descriptor: i64,
    /// Descriptor of the address space to map into; null means the calling
    /// thread's own space.
    pub space_descriptor: i64,
    /// Fixed address to place the mapping at, or `0` to let the kernel pick.
    pub fixed_address: usize,
    /// Byte offset into the memory object.
    pub offset: usize,
    /// Length of the region in bytes.
    pub length: usize,
    /// Flag word for the call.
    pub flags: u32,
}

/// The kernel call that removes a mapping.
#[derive(Debug, Clone, Copy, PartialEq, Eq, Structural)]
pub struct UnmapRequest {
    /// Descriptor of the address space the region lives in.
    pub space_descriptor: i64,
    /// Length of the region in bytes.
    pub length: usize,
}

/// A typed view over a kernel memory object.
#[derive(Debug, Clone, Copy, PartialEq, Eq, Structural)]
pub struct Mapping {
    /// Descriptor of the address space the region lives in.
    pub space_descriptor: i64,
    /// Whether the region is currently mapped; the kernel base pointer is
    /// valid exactly while this holds.
    pub mapped: bool,
    /// Length of the region in bytes.
    pub length: usize,
}

/// The mapping left behind by an unmap, and the kernel call it requires.
pub open spec fn spec_unmap(m: Mapping) -> (Mapping, Option<UnmapRequest>) {
    if m.mapped {
        (
            Mapping { mapped: false, ..m },
            Some(UnmapRequest { space_descriptor: m.space_descriptor, length: m.length }),
        )
    } else {
        (m, None)
    }
}

impl Mapping {
    /// Assembles the kernel call that maps `length` bytes of the object
    /// behind `memory` into the address space behind `space` (null for the
    /// calling thread's own), at the given fixed address if it is nonzero.
    pub fn map_request(
        memory: &Handle,
        space: &Handle,
        fixed_address: usize,
        offset: usize,
        length: usize,
        flags: MappingFlags,
    ) -> (r: MapRequest)
        ensures
            r.memory_descriptor == memory.descriptor,
            r.space_descriptor == space.descriptor,
            r.fixed_address == fixed_address,
            r.offset == offset,
            r.length == length,
            r.flags == flags.bits,
    {
        MapRequest {
            memory_descriptor: memory.descriptor,
            space_descriptor: space.descriptor,
            fixed_address,
            offset,
            length,
            flags: flags.bits(),
        }
    }

    /// Like [`Mapping::map_request`], for the calling thread's own address
    /// space.
    pub fn map_request_this_space(
        memory: &Handle,
        fixed_address: usize,
        offset: usize,
        length: usize,
        flags: MappingFlags,
    ) -> (r: MapRequest)
        ensures
            r.memory_descriptor == memory.descriptor,
            r.space_descriptor == NULL_DESCRIPTOR,
            r.fixed_address == fixed_address,
            r.offset == offset,
            r.length == length,
            r.flags == flags.bits,
    {
        let null_space = Handle::null();
        Self::map_request(memory, &null_space, fixed_address, offset, length, flags)
    }

    /// Adopts a region the kernel mapped in answer to `request`.
    pub fn from_map_reply(request: &MapRequest) -> (r: Mapping)
        ensures
            r.space_descriptor == request.space_descriptor,
            r.mapped,
            r.length == request.length,
    {
        Mapping { space_descriptor: request.space_descriptor, mapped: true, length: request.length }
    }

    /// Returns the length of the mapping in bytes.
    pub fn len(&self) -> (r: usize)
        ensures
            r == self.length,
    {
        self.length
    }

    /// Whether the region is currently mapped.
    pub fn is_mapped(&self) -> (r: bool)
        ensures
            r == self.mapped,
    {
        self.mapped
    }

    /// Unmaps the region.  A mapped region becomes unmapped and the kernel
    /// call it owes is returned for the driver to issue; an unmapped region
    /// is left as it is.  Unmapping twice is a no-op the second time.
    pub fn unmap(&mut self) -> (r: Option<UnmapRequest>)
        ensures
            (*final(self), r) == spec_unmap(*old(self)),
            !final(self).mapped || !old(self).mapped,
    {
        if self.mapped {
            self.mapped = false;
            Some(UnmapRequest { space_descriptor: self.space_descriptor, length: self.length })
        } else {
            None
        }
    }
}

/// Law: unmapping is idempotent.  The first unmap leaves an unmapped region;
/// a second unmap changes nothing and owes the kernel nothing.
pub proof fn lemma_unmap_idempotent(m: Mapping)
    ensures
        spec_unmap(spec_unmap(m).0).0 == spec_unmap(m).0,
        spec_unmap(spec_unmap(m).0).1 is None,
{
}

} // verus!
