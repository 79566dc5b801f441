//! Protected memory regions and the allocation strategies that back them.
//!
//! A region owns backing storage for one value of its payload type together
//! with the page-permission state the OS keeps for that storage.  The model
//! holds the payload and the permission state as plain values; the real
//! allocation, deallocation and page-permission system calls are performed
//! by the unverified driver with the lengths and masks computed here.

use vstd::prelude::*;

use crate::access_rights::AccessRights;
use crate::pkey::PKey;
use crate::MprotectError;

verus! {

/// Errors from the allocation strategies.
///
/// `MmapFailed` and `MunmapFailed` carry the OS error number of a failed
/// mapping call; `LayoutError` reports a payload whose size and alignment
/// cannot form a valid allocation layout.
#[derive(Clone, Copy, Debug, PartialEq, Eq, Structural)]
pub enum AllocatorError {
    MmapFailed(i32),
    MunmapFailed(i32),
    LayoutError,
}

/// An allocation strategy for protected regions.
///
/// A strategy reserves backing storage for one value of `T` under an
/// initial page-protection mask and releases it when the region is
/// destroyed.  `page_aligned` records whether the strategy guarantees
/// page-aligned storage, which the page-permission calls require to cover
/// exactly the intended bytes.
pub trait Allocator<T>: Sized {
    /// Whether the strategy guarantees page-aligned backing storage.
    spec fn page_aligned() -> bool;

    /// Reserves backing storage holding `value` under the protection mask
    /// `prot`.  The tracked length is the payload size.
    fn allocator_alloc(value: T, prot: i32) -> (r: Result<MemoryRegion<Self, T>, AllocatorError>)
        ensures
            r matches Ok(m) && m.value == value && m.len == core::mem::size_of::<T>(),
    ;
}

/// Backing storage for one value of `T`, reserved by the strategy `A`.
pub struct MemoryRegion<A: Allocator<T>, T> {
    /// The stored payload.
    pub value: T,
    /// The length of the storage in bytes.
    pub len: usize,
    /// The strategy instance that reserved the storage and will release it.
    pub strategy: A,
}

/// The page-aligned anonymous-mapping strategy.  Its storage comes from an
/// anonymous mapping, so it is page-aligned and page-permission calls on it
/// cover exactly its own pages.
pub struct Mmap;

/// The heap strategy.  Its storage comes from the heap allocator with the
/// payload's own alignment; it is smaller but not guaranteed page-aligned,
/// so page-permission calls on it may cover neighbouring heap data.
pub struct Jmalloc;

impl<T> Allocator<T> for Mmap {
    open spec fn page_aligned() -> bool {
        true
    }

    fn allocator_alloc(value: T, prot: i32) -> (r: Result<MemoryRegion<Self, T>, AllocatorError>) {
        Ok(MemoryRegion { value, len: core::mem::size_of::<T>(), strategy: Mmap })
    }
}

impl<T> Allocator<T> for Jmalloc {
    open spec fn page_aligned() -> bool {
        false
    }

    fn allocator_alloc(value: T, prot: i32) -> (r: Result<MemoryRegion<Self, T>, AllocatorError>) {
        Ok(MemoryRegion { value, len: core::mem::size_of::<T>(), strategy: Jmalloc })
    }
}

impl<A: Allocator<T>, T> MemoryRegion<A, T> {
    /// Reserves storage for `value` through the strategy, under the given
    /// initial access rights.
    pub fn allocate(value: T, access_rights: &AccessRights) -> (r: Result<Self, AllocatorError>)
        ensures
            r matches Ok(m) && m.value == value && m.len == core::mem::size_of::<T>(),
    {
        let prot = access_rights.to_i32();
        A::allocator_alloc(value, prot)
    }

    /// Returns the length of the storage in bytes.
    pub fn len(&self) -> (r: usize)
        ensures
            r == self.len,
    {
        self.len
    }
}

/// A memory region under OS page protection, optionally bound to a
/// protection key.
///
/// The region gives raw access to its payload with no permission checking:
/// callers must already hold a valid higher-level token.  `page_rights` is
/// the model of the page-table permission state the OS keeps for the
/// region's pages; the permission-changing methods update it exactly as
/// the corresponding system calls change the page tables.
pub struct UnsafeProtectedRegion<A: Allocator<T>, T> {
    /// The backing storage and payload.
    pub allocator: MemoryRegion<A, T>,
    /// The length of the region in bytes.
    pub len: usize,
    /// The id of the protection key bound to the region's pages, if any.
    pub pkey_id: Option<u32>,
    /// The page-table permission state of the region's pages.
    pub page_rights: AccessRights,
}

impl<A: Allocator<T>, T> UnsafeProtectedRegion<A, T> {
    /// Allocates a region holding `value` with the given initial page
    /// rights and no protection key bound.
    pub fn new(value: T, access_rights: AccessRights) -> (r: Result<Self, MprotectError>)
        ensures
            r matches Ok(region) && region.allocator.value == value && region.len
                == core::mem::size_of::<T>() && region.pkey_id is None && region.page_rights
                == access_rights,
    {
        match MemoryRegion::<A, T>::allocate(value, &access_rights) {
            Ok(allocator) => {
                let len = allocator.len();
                Ok(
                    UnsafeProtectedRegion {
                        allocator,
                        len,
                        pkey_id: None,
                        page_rights: access_rights,
                    },
                )
            },
            Err(AllocatorError::MmapFailed(errno)) => Err(
                MprotectError::MemoryAllocationFailed(errno),
            ),
            Err(AllocatorError::MunmapFailed(errno)) => Err(
                MprotectError::MemoryAllocationFailed(errno),
            ),
            Err(AllocatorError::LayoutError) => Err(MprotectError::MemoryAllocationFailed(-1)),
        }
    }

    /// Changes the page-table rights of the region's pages, as the
    /// page-permission system call does.
    pub fn set_access(&mut self, access_rights: AccessRights) -> (r: Result<(), MprotectError>)
        ensures
            r is Ok,
            final(self).page_rights == access_rights,
            final(self).allocator == old(self).allocator,
            final(self).len == old(self).len,
            final(self).pkey_id == old(self).pkey_id,
    {
        self.page_rights = access_rights;
        Ok(())
    }

    /// Binds the region's pages to the given protection key and sets the
    /// page rights in the same call, as the key-aware page-permission
    /// system call does.
    pub fn set_pkey(&mut self, access_rights: AccessRights, pkey: &PKey) -> (r: Result<
        (),
        MprotectError,
    >)
        ensures
            r is Ok,
            final(self).pkey_id == Some(pkey.key),
            final(self).page_rights == access_rights,
            final(self).allocator == old(self).allocator,
            final(self).len == old(self).len,
    {
        self.pkey_id = Some(pkey.key());
        self.page_rights = access_rights;
        Ok(())
    }

    /// Returns the length of the region in bytes.
    pub fn len(&self) -> (r: usize)
        ensures
            r == self.len,
    {
        self.len
    }

    /// Returns the id of the protection key bound to the region, if any.
    pub fn pkey(&self) -> (r: Option<u32>)
        ensures
            r == self.pkey_id,
    {
        self.pkey_id
    }

    /// Returns a reference to the payload, with no permission checking.
    pub fn as_ref(&self) -> (r: &T)
        ensures
            *r == self.allocator.value,
    {
        &self.allocator.value
    }

    /// Returns a mutable reference to the payload, with no permission
    /// checking.
    pub fn as_mut(&mut self) -> (r: &mut T)
        ensures
            *r == old(self).allocator.value,
            final(self).allocator.value == *final(r),
            final(self).allocator.len == old(self).allocator.len,
            final(self).allocator.strategy == old(self).allocator.strategy,
            final(self).len == old(self).len,
            final(self).pkey_id == old(self).pkey_id,
            final(self).page_rights == old(self).page_rights,
    {
        &mut self.allocator.value
    }
}

} // verus!
