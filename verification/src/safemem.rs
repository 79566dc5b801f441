//! Checked access to a protected region: reads and writes are permitted
//! only when both the page-level rights and the bound protection key (if
//! any) allow them, and every refusal is a loud, typed error.

use vstd::prelude::*;

use crate::access_rights::AccessRights;
use crate::pkey::PKey;
use crate::pkey::Pkru;
use crate::pkey::PkeyAccessRights;
use crate::region::Allocator;
use crate::region::UnsafeProtectedRegion;
use crate::MprotectError;

verus! {

/// Access violations reported by checked reads and writes.
#[derive(Clone, Copy, Debug, PartialEq, Eq, Structural)]
pub enum ProtectedMemoryError {
    ReadAccessViolation,
    WriteAccessViolation,
}

/// A memory region with checked access.
///
/// The region carries its current page-level access rights and, optionally,
/// the protection key it is bound to.  `read` and `write` succeed exactly
/// when the rights in force permit them; the key's per-thread rights are
/// read out of the register value the caller passes in.
pub struct ProtectedMemory<A: Allocator<T>, T> {
    /// The underlying protected region.
    pub memory: UnsafeProtectedRegion<A, T>,
    /// The protection key bound to the region, if any.
    pub pkey: Option<PKey>,
    /// The page-level access rights currently in force.
    pub access_rights: AccessRights,
}

impl<A: Allocator<T>, T> ProtectedMemory<A, T> {
    /// The invariant: the tracked rights match the page-table state, and
    /// the bound key (if any) is the one recorded in the region and has a
    /// register field.
    pub open spec fn wf(self) -> bool {
        &&& self.access_rights == self.memory.page_rights
        &&& match self.pkey {
            Some(k) => k.wf() && self.memory.pkey_id == Some(k.key),
            None => self.memory.pkey_id is None,
        }
    }

    /// Whether a read is permitted: the page rights grant read and the
    /// bound key, if any, does not disable access.
    pub open spec fn spec_can_read(self, pkru: Pkru) -> bool {
        &&& self.access_rights.read
        &&& match self.pkey {
            Some(k) => pkru.spec_get(k.key) != PkeyAccessRights::DisableAccess,
            None => true,
        }
    }

    /// Whether a write is permitted: the page rights grant write and the
    /// bound key, if any, enables both access and write.
    pub open spec fn spec_can_write(self, pkru: Pkru) -> bool {
        &&& self.access_rights.write
        &&& match self.pkey {
            Some(k) => pkru.spec_get(k.key) == PkeyAccessRights::EnableAccessWrite,
            None => true,
        }
    }

    /// Creates a checked region holding `value` under the given access
    /// rights, bound to no protection key.
    pub fn new(value: T, access_rights: AccessRights) -> (r: Result<Self, MprotectError>)
        ensures
            r matches Ok(m) && m.wf() && m.access_rights == access_rights && m.pkey is None
                && m.memory.allocator.value == value,
    {
        match UnsafeProtectedRegion::<A, T>::new(value, access_rights) {
            Ok(memory) => Ok(ProtectedMemory { memory, pkey: None, access_rights }),
            Err(e) => Err(e),
        }
    }

    /// Creates a checked region holding `value` under the given access
    /// rights and binds it to the given protection key.
    pub fn new_with_pkey(value: T, access_rights: AccessRights, pkey: &PKey) -> (r: Result<
        Self,
        MprotectError,
    >)
        requires
            pkey.wf(),
        ensures
            r matches Ok(m) && m.wf() && m.access_rights == access_rights && m.pkey == Some(*pkey)
                && m.memory.allocator.value == value,
    {
        match UnsafeProtectedRegion::<A, T>::new(value, access_rights) {
            Ok(mut memory) => {
                match memory.set_pkey(access_rights, pkey) {
                    Ok(u) => u,
                    Err(e) => {
                        return Err(e);
                    },
                }
                Ok(ProtectedMemory { memory, pkey: Some(*pkey), access_rights })
            },
            Err(e) => Err(e),
        }
    }

    /// Changes the region's page-level access rights, refreshing the
    /// tracked rights with them.
    pub fn mprotect(&mut self, access_rights: AccessRights) -> (r: Result<(), MprotectError>)
        requires
            old(self).wf(),
        ensures
            r is Ok,
            final(self).wf(),
            final(self).access_rights == access_rights,
            final(self).pkey == old(self).pkey,
            final(self).memory.allocator == old(self).memory.allocator,
            final(self).memory.len == old(self).memory.len,
            final(self).memory.pkey_id == old(self).memory.pkey_id,
    {
        match self.memory.set_access(access_rights) {
            Ok(u) => u,
            Err(e) => {
                return Err(e);
            },
        }
        self.access_rights = access_rights;
        Ok(())
    }

    /// Rebinds the region to another protection key, setting the
    /// page-level rights in the same call, as the key-aware
    /// page-permission system call does.
    pub fn pkey_mprotect(&mut self, access_rights: AccessRights, pkey: &PKey) -> (r: Result<
        (),
        MprotectError,
    >)
        requires
            old(self).wf(),
            pkey.wf(),
        ensures
            r is Ok,
            final(self).wf(),
            final(self).pkey == Some(*pkey),
            final(self).access_rights == access_rights,
            final(self).memory.pkey_id == Some(pkey.key),
            final(self).memory.allocator == old(self).memory.allocator,
            final(self).memory.len == old(self).memory.len,
    {
        match self.memory.set_pkey(access_rights, pkey) {
            Ok(u) => u,
            Err(e) => {
                return Err(e);
            },
        }
        self.pkey = Some(*pkey);
        self.access_rights = access_rights;
        Ok(())
    }

    /// Returns a mutable reference to the payload, bypassing the checks.
    pub fn as_mut(&mut self) -> (r: &mut T)
        ensures
            *r == old(self).memory.allocator.value,
            final(self).memory.allocator.value == *final(r),
            final(self).memory.allocator.len == old(self).memory.allocator.len,
            final(self).memory.allocator.strategy == old(self).memory.allocator.strategy,
            final(self).memory.len == old(self).memory.len,
            final(self).memory.pkey_id == old(self).memory.pkey_id,
            final(self).memory.page_rights == old(self).memory.page_rights,
            final(self).pkey == old(self).pkey,
            final(self).access_rights == old(self).access_rights,
    {
        self.memory.as_mut()
    }

    /// Returns the bound protection key, if any.
    pub fn pkey(&self) -> (r: Option<&PKey>)
        ensures
            match r {
                Some(k) => self.pkey == Some(*k),
                None => self.pkey is None,
            },
    {
        self.pkey.as_ref()
    }

    /// Returns the access rights currently in force.
    pub fn region_access_rights(&self) -> (r: AccessRights)
        ensures
            r == self.access_rights,
    {
        self.access_rights
    }

    /// Checks whether the region can be read under the given register
    /// value.
    pub fn can_read(&self, pkru: &Pkru) -> (r: bool)
        requires
            self.wf(),
        ensures
            r == self.spec_can_read(*pkru),
    {
        let page_ok = self.access_rights.read;
        let key_ok = match &self.pkey {
            Some(k) => {
                let rights = k.get_access_rights(pkru);
                !(rights == PkeyAccessRights::DisableAccess)
            },
            None => true,
        };
        page_ok && key_ok
    }

    /// Checks whether the region can be written under the given register
    /// value.
    pub fn can_write(&self, pkru: &Pkru) -> (r: bool)
        requires
            self.wf(),
        ensures
            r == self.spec_can_write(*pkru),
    {
        let page_ok = self.access_rights.write;
        let key_ok = match &self.pkey {
            Some(k) => {
                let rights = k.get_access_rights(pkru);
                rights == PkeyAccessRights::EnableAccessWrite
            },
            None => true,
        };
        page_ok && key_ok
    }

    /// Attempts a checked read: succeeds with a read guard exactly when
    /// the rights in force permit reading, and fails with
    /// `ReadAccessViolation` otherwise.
    pub fn read(&self, pkru: &Pkru) -> (r: Result<ReadGuard<A, T>, ProtectedMemoryError>)
        requires
            self.wf(),
        ensures
            self.spec_can_read(*pkru) ==> (r matches Ok(g) && g.memory == self),
            !self.spec_can_read(*pkru) ==> r == Err::<
                ReadGuard<A, T>,
                ProtectedMemoryError,
            >(ProtectedMemoryError::ReadAccessViolation),
    {
        if !self.can_read(pkru) {
            return Err(ProtectedMemoryError::ReadAccessViolation);
        }
        Ok(ReadGuard { memory: self })
    }

    /// Attempts a checked write: succeeds with a write guard exactly when
    /// the rights in force permit writing, and fails with
    /// `WriteAccessViolation` before any guard is produced otherwise.
    pub fn write(&mut self, pkru: &Pkru) -> (r: Result<WriteGuard, ProtectedMemoryError>)
        requires
            old(self).wf(),
        ensures
            *final(self) == *old(self),
            old(self).spec_can_write(*pkru) ==> r is Ok,
            !old(self).spec_can_write(*pkru) ==> r == Err::<
                WriteGuard,
                ProtectedMemoryError,
            >(ProtectedMemoryError::WriteAccessViolation),
    {
        if !self.can_write(pkru) {
            return Err(ProtectedMemoryError::WriteAccessViolation);
        }
        Ok(WriteGuard {  })
    }
}

/// A guard witnessing a permitted read; it borrows the region and hands
/// the payload out.
pub struct ReadGuard<'a, A: Allocator<T>, T> {
    /// The region the guard reads from.
    pub memory: &'a ProtectedMemory<A, T>,
}

impl<'a, A: Allocator<T>, T> ReadGuard<'a, A, T> {
    /// Returns a reference to the payload.
    pub fn value(&self) -> (r: &T)
        ensures
            *r == self.memory.memory.allocator.value,
    {
        self.memory.memory.as_ref()
    }
}

/// A guard witnessing a permitted write.
///
/// The guard cannot keep the region borrowed while the caller still holds
/// the region itself, so each store revalidates the write permission
/// against the rights then in force and fails loudly if they have been
/// narrowed since the guard was issued.
pub struct WriteGuard {

}

impl WriteGuard {
    /// Stores `value` into the region if writing is still permitted;
    /// otherwise fails with `WriteAccessViolation` and leaves the region
    /// untouched.
    pub fn store<A: Allocator<T>, T>(
        &self,
        memory: &mut ProtectedMemory<A, T>,
        pkru: &Pkru,
        value: T,
    ) -> (r: Result<(), ProtectedMemoryError>)
        requires
            old(memory).wf(),
        ensures
            final(memory).wf(),
            old(memory).spec_can_write(*pkru) ==> r is Ok && final(memory).memory.allocator.value
                == value && final(memory).access_rights == old(memory).access_rights
                && final(memory).pkey == old(memory).pkey && final(memory).memory.pkey_id == old(
                memory).memory.pkey_id && final(memory).memory.page_rights == old(
                memory).memory.page_rights,
            !old(memory).spec_can_write(*pkru) ==> r == Err::<
                (),
                ProtectedMemoryError,
            >(ProtectedMemoryError::WriteAccessViolation) && *final(memory) == *old(memory),
    {
        if !memory.can_write(pkru) {
            return Err(ProtectedMemoryError::WriteAccessViolation);
        }
        let slot = memory.as_mut();
        *slot = value;
        Ok(())
    }
}

/// Initial access: on a region fresh from `new` — rights equal to the
/// chosen capability, no protection key bound — a read is permitted
/// exactly when the capability grants read, and a write exactly when it
/// grants write, whatever the register holds.
pub proof fn law_fresh_region_access<A: Allocator<T>, T>(
    c: AccessRights,
    m: ProtectedMemory<A, T>,
    pkru: Pkru,
)
    requires
        m.wf(),
        m.pkey is None,
        m.access_rights == c,
    ensures
        m.spec_can_read(pkru) == c.read,
        m.spec_can_write(pkru) == c.write,
{
}

} // verus!
