//! Scoped save-and-restore wrappers: a protection key, or a checked
//! region, temporarily switched to new access rights and restored to the
//! original rights when the scope is released.

use vstd::prelude::*;

use crate::access_rights::AccessRights;
use crate::pkey::PKey;
use crate::pkey::Pkru;
use crate::pkey::PkeyAccessRights;
use crate::pkey::PKEY_COUNT;
use crate::region::Allocator;
use crate::safemem::ProtectedMemory;
use crate::MprotectError;

verus! {

/// A protection key temporarily switched to new rights.
///
/// Creation records the key's rights as found in the register and writes
/// the new rights; [`GuardedProtectionKey::restore`] writes the recorded
/// rights back.  Scopes nest: an inner guard created after an outer one
/// records the outer guard's rights and restores them on release.
pub struct GuardedProtectionKey {
    /// The guarded key.
    pub pkey: PKey,
    /// The rights the key had when the guard was created.
    pub original_access_rights: PkeyAccessRights,
}

impl GuardedProtectionKey {
    /// Switches the key to `new_access_rights`, recording the rights it
    /// had so they can be restored.
    pub fn new(pkey: &PKey, new_access_rights: PkeyAccessRights, pkru: &mut Pkru) -> (r: Result<
        GuardedProtectionKey,
        MprotectError,
    >)
        requires
            pkey.wf(),
        ensures
            r matches Ok(g) && g.pkey == *pkey && g.original_access_rights == old(pkru).spec_get(
                pkey.key,
            ),
            *final(pkru) == old(pkru).spec_set(pkey.key, new_access_rights),
            final(pkru).spec_get(pkey.key) == new_access_rights,
            forall|k: u32|
                k < PKEY_COUNT && k != pkey.key ==> final(pkru).spec_get(k) == old(pkru).spec_get(
                    k,
                ),
    {
        let original_access_rights = pkey.get_access_rights(pkru);
        match pkey.set_access_rights(pkru, new_access_rights) {
            Ok(u) => u,
            Err(e) => {
                return Err(e);
            },
        }
        Ok(GuardedProtectionKey { pkey: *pkey, original_access_rights })
    }

    /// Ends the scope: writes the recorded rights back into the key's
    /// register field, leaving every other key untouched.
    pub fn restore(self, pkru: &mut Pkru)
        requires
            self.pkey.wf(),
        ensures
            *final(pkru) == old(pkru).spec_set(self.pkey.key, self.original_access_rights),
            final(pkru).spec_get(self.pkey.key) == self.original_access_rights,
            forall|k: u32|
                k < PKEY_COUNT && k != self.pkey.key ==> final(pkru).spec_get(k) == old(
                    pkru,
                ).spec_get(k),
    {
        let _ = self.pkey.set_access_rights(pkru, self.original_access_rights);
    }
}

/// Round trip: creating a guard over a key and releasing it restores the
/// key's register field to the rights it held before, and never touches
/// the fields of other keys.
pub proof fn law_guarded_key_round_trip(pkey: PKey, pkru: Pkru, rights: PkeyAccessRights)
    requires
        pkey.wf(),
    ensures
        ({
            let switched = pkru.spec_set(pkey.key, rights);
            let restored = switched.spec_set(pkey.key, pkru.spec_get(pkey.key));
            &&& restored.spec_get(pkey.key) == pkru.spec_get(pkey.key)
            &&& forall|k: u32|
                k < PKEY_COUNT && k != pkey.key ==> restored.spec_get(k) == pkru.spec_get(k)
        }),
{
    let switched = pkru.spec_set(pkey.key, rights);
    let restored = switched.spec_set(pkey.key, pkru.spec_get(pkey.key));
    lemma_pkru_set_get(pkru, pkey.key, rights);
    lemma_pkru_set_get(switched, pkey.key, pkru.spec_get(pkey.key));
}

/// Writing one key's field of the register yields that field on read-back
/// and leaves every other key's field unchanged.
pub proof fn lemma_pkru_set_get(pkru: Pkru, key: u32, rights: PkeyAccessRights)
    requires
        key < PKEY_COUNT,
    ensures
        pkru.spec_set(key, rights).spec_get(key) == rights,
        forall|k: u32|
            k < PKEY_COUNT && k != key ==> pkru.spec_set(key, rights).spec_get(k) == pkru.spec_get(
                k,
            ),
{
    let before = pkru.bits;
    let code = rights.spec_bits();
    let after = pkru.spec_set(key, rights).bits;
    assert(code <= 2) by {
        match rights {
            PkeyAccessRights::EnableAccessWrite => {},
            PkeyAccessRights::DisableAccess => {},
            PkeyAccessRights::DisableWrite => {},
        }
    }
    assert(((((before & !(3u32 << (2 * key))) | (code << (2 * key)))) >> (2 * key)) & 3 == code)
        by (bit_vector)
        requires
            key < 16u32,
            code <= 2u32,
    ;
    assert forall|k: u32| k < PKEY_COUNT && k != key implies #[trigger] ((after >> (2 * k)) & 3)
        == ((before >> (2 * k)) & 3) by {
        assert(((((before & !(3u32 << (2 * key))) | (code << (2 * key)))) >> (2 * k)) & 3 == ((
        before >> (2 * k)) & 3)) by (bit_vector)
            requires
                key < 16u32,
                k < 16u32,
                k != key,
                code <= 2u32,
        ;
    }
}

/// A checked region temporarily switched to new page-level rights.
///
/// Creation takes the region over, records its rights and applies the new
/// ones; [`GuardedProtectedMemory::release`] restores the recorded rights
/// and hands the region back.
pub struct GuardedProtectedMemory<A: Allocator<T>, T> {
    /// The guarded region.
    pub memory: ProtectedMemory<A, T>,
    /// The rights the region had when the guard was created.
    pub original_access_rights: AccessRights,
}

impl<A: Allocator<T>, T> GuardedProtectedMemory<A, T> {
    /// The guard's invariant: the held region keeps its own invariant.
    pub open spec fn wf(self) -> bool {
        self.memory.wf()
    }

    /// Switches the region to `new_access_rights`, recording the rights it
    /// had so they can be restored.
    pub fn new(memory: ProtectedMemory<A, T>, new_access_rights: AccessRights) -> (r: Result<
        GuardedProtectedMemory<A, T>,
        MprotectError,
    >)
        requires
            memory.wf(),
        ensures
            r matches Ok(g) && g.wf() && g.original_access_rights == memory.access_rights
                && g.memory.access_rights == new_access_rights && g.memory.pkey == memory.pkey
                && g.memory.memory.allocator == memory.memory.allocator
                && g.memory.memory.len == memory.memory.len && g.memory.memory.pkey_id
                == memory.memory.pkey_id,
    {
        let mut memory = memory;
        let original_access_rights = memory.region_access_rights();
        match memory.mprotect(new_access_rights) {
            Ok(u) => u,
            Err(e) => {
                return Err(e);
            },
        }
        Ok(GuardedProtectedMemory { memory, original_access_rights })
    }

    /// Returns a mutable reference to the payload, bypassing the checks.
    pub fn as_mut(&mut self) -> (r: &mut T)
        ensures
            *r == old(self).memory.memory.allocator.value,
            final(self).memory.memory.allocator.value == *final(r),
            final(self).memory.memory.allocator.len == old(self).memory.memory.allocator.len,
            final(self).memory.memory.allocator.strategy == old(
                self,
            ).memory.memory.allocator.strategy,
            final(self).memory.memory.len == old(self).memory.memory.len,
            final(self).memory.memory.pkey_id == old(self).memory.memory.pkey_id,
            final(self).memory.memory.page_rights == old(self).memory.memory.page_rights,
            final(self).memory.pkey == old(self).memory.pkey,
            final(self).memory.access_rights == old(self).memory.access_rights,
            final(self).original_access_rights == old(self).original_access_rights,
    {
        self.memory.as_mut()
    }

    /// Returns the rights currently in force on the held region.
    pub fn region_access_rights(&self) -> (r: AccessRights)
        ensures
            r == self.memory.access_rights,
    {
        self.memory.region_access_rights()
    }

    /// Ends the scope: restores the recorded rights and hands the region
    /// back, its payload and key binding untouched.
    pub fn release(self) -> (r: ProtectedMemory<A, T>)
        requires
            self.wf(),
        ensures
            r.wf(),
            r.access_rights == self.original_access_rights,
            r.pkey == self.memory.pkey,
            r.memory.allocator == self.memory.memory.allocator,
            r.memory.len == self.memory.memory.len,
            r.memory.pkey_id == self.memory.memory.pkey_id,
    {
        let mut memory = self.memory;
        let _ = memory.mprotect(self.original_access_rights);
        memory
    }
}

} // verus!
