//! Protection keys and the per-thread protection-key rights register.
//!
//! A protection key is a small kernel-assigned id; each key occupies one
//! fixed two-bit field of a 32-bit per-thread register that narrows the
//! permissions of every page bound to the key without a system call.  The
//! register itself is thread state owned by the caller: every operation
//! that reads or writes it takes the [`Pkru`] value explicitly, and the
//! unverified driver keeps the hardware register equal to that value.

use vstd::prelude::*;

use crate::access_rights::AccessRights;
use crate::region::Allocator;
use crate::region::UnsafeProtectedRegion;
use crate::MprotectError;

verus! {

/// The number of two-bit rights fields in the 32-bit register, and so the
/// largest number of protection keys a thread can hold at once.
pub const PKEY_COUNT: u32 = 16;

/// Access rights for one protection key: the two-bit code kept in the
/// key's field of the rights register.
///
/// - `EnableAccessWrite`: read and write access are enabled (code 0).
/// - `DisableAccess`: all access is disabled (code 1).
/// - `DisableWrite`: write access is disabled, read stays enabled (code 2).
#[derive(Clone, Copy, Debug, PartialEq, Eq, Structural)]
pub enum PkeyAccessRights {
    EnableAccessWrite,
    DisableAccess,
    DisableWrite,
}

impl PkeyAccessRights {
    /// The two-bit code of these rights.
    pub open spec fn spec_bits(self) -> u32 {
        match self {
            PkeyAccessRights::EnableAccessWrite => 0,
            PkeyAccessRights::DisableAccess => 1,
            PkeyAccessRights::DisableWrite => 2,
        }
    }

    /// The rights a two-bit code denotes.  Code 3 disables both read and
    /// write access, so it is read as `DisableAccess`.
    pub open spec fn spec_from_bits(bits: u32) -> PkeyAccessRights {
        if bits == 0 {
            PkeyAccessRights::EnableAccessWrite
        } else if bits == 2 {
            PkeyAccessRights::DisableWrite
        } else {
            PkeyAccessRights::DisableAccess
        }
    }

    /// Returns the two-bit code of these rights.
    pub fn bits(&self) -> (r: u32)
        ensures
            r == self.spec_bits(),
    {
        match self {
            PkeyAccessRights::EnableAccessWrite => 0,
            PkeyAccessRights::DisableAccess => 1,
            PkeyAccessRights::DisableWrite => 2,
        }
    }

    /// Decodes a two-bit code into the rights it denotes.
    pub fn from_bits(bits: u32) -> (r: PkeyAccessRights)
        ensures
            r == PkeyAccessRights::spec_from_bits(bits),
    {
        if bits == 0 {
            PkeyAccessRights::EnableAccessWrite
        } else if bits == 2 {
            PkeyAccessRights::DisableWrite
        } else {
            PkeyAccessRights::DisableAccess
        }
    }
}

/// The value of the 32-bit per-thread protection-key rights register.
///
/// Field `k` of the register (bits `2k` and `2k + 1`) holds the two-bit
/// rights code of protection key `k`.  Updating one field is a
/// read-modify-write of the whole value that leaves every other field
/// unchanged, exactly as the hardware register is updated.
#[derive(Clone, Copy, Debug, PartialEq, Eq, Structural)]
pub struct Pkru {
    pub bits: u32,
}

impl Pkru {
    /// The rights code kept in the field of key `key`.
    pub open spec fn spec_get(self, key: u32) -> PkeyAccessRights
        recommends
            key < PKEY_COUNT,
    {
        PkeyAccessRights::spec_from_bits((self.bits >> (2 * key)) & 3)
    }

    /// The register value after writing `rights` into the field of `key`.
    pub open spec fn spec_set(self, key: u32, rights: PkeyAccessRights) -> Pkru
        recommends
            key < PKEY_COUNT,
    {
        Pkru { bits: (self.bits & !(3u32 << (2 * key))) | (rights.spec_bits() << (2 * key)) }
    }

    /// A fresh register value with every key's access fully enabled.
    pub fn new() -> (r: Pkru)
        ensures
            r.bits == 0,
            forall|k: u32| k < PKEY_COUNT ==> r.spec_get(k) == PkeyAccessRights::EnableAccessWrite,
    {
        let r = Pkru { bits: 0 };
        proof {
            assert forall|k: u32| k < PKEY_COUNT implies r.spec_get(k)
                == PkeyAccessRights::EnableAccessWrite by {
                assert((0u32 >> (2 * k)) & 3 == 0) by (bit_vector);
            }
        }
        r
    }

    /// Reads the rights of one key out of the register value.
    pub fn get(&self, key: u32) -> (r: PkeyAccessRights)
        requires
            key < PKEY_COUNT,
        ensures
            r == self.spec_get(key),
    {
        let field = (self.bits >> (2 * key)) & 3;
        PkeyAccessRights::from_bits(field)
    }

    /// Writes the rights of one key into the register value, leaving the
    /// fields of all other keys unchanged.
    pub fn set(&mut self, key: u32, rights: PkeyAccessRights)
        requires
            key < PKEY_COUNT,
        ensures
            *final(self) == old(self).spec_set(key, rights),
            final(self).spec_get(key) == rights,
            forall|k: u32|
                k < PKEY_COUNT && k != key ==> final(self).spec_get(k) == old(self).spec_get(k),
    {
        let code = rights.bits();
        let ghost before = self.bits;
        self.bits = (self.bits & !(3u32 << (2 * key))) | (code << (2 * key));
        proof {
            let after = self.bits;
            assert(((((before & !(3u32 << (2 * key))) | (code << (2 * key)))) >> (2 * key)) & 3
                == code) by (bit_vector)
                requires
                    key < 16u32,
                    code <= 2u32,
            ;
            assert(rights.spec_bits() == code && code <= 2);
            assert(PkeyAccessRights::spec_from_bits(code) == rights);
            assert forall|k: u32| k < PKEY_COUNT && k != key implies #[trigger] ((after >> (2 * k))
                & 3) == ((before >> (2 * k)) & 3) by {
                assert(((((before & !(3u32 << (2 * key))) | (code << (2 * key)))) >> (2 * k)) & 3
                    == ((before >> (2 * k)) & 3)) by (bit_vector)
                    requires
                        key < 16u32,
                        k < 16u32,
                        k != key,
                        code <= 2u32,
                ;
            }
        }
    }
}

/// A protection key: the kernel-assigned id of one two-bit field of the
/// rights register.
///
/// The real key id comes from the key-allocation system call; the model
/// takes the id as an argument and tracks everything the id controls.  A
/// key id is always below [`PKEY_COUNT`].
#[derive(Clone, Copy, Debug, PartialEq, Eq, Structural)]
pub struct PKey {
    pub key: u32,
}

impl PKey {
    /// A key id the register has a field for.
    pub open spec fn wf(self) -> bool {
        self.key < PKEY_COUNT
    }

    /// Claims key id `key` and gives it the initial access rights, as the
    /// key-allocation call does.
    pub fn new(key: u32, access: PkeyAccessRights, pkru: &mut Pkru) -> (r: Result<
        PKey,
        MprotectError,
    >)
        requires
            key < PKEY_COUNT,
        ensures
            r matches Ok(k) && k.key == key && k.wf(),
            *final(pkru) == old(pkru).spec_set(key, access),
            final(pkru).spec_get(key) == access,
            forall|k: u32|
                k < PKEY_COUNT && k != key ==> final(pkru).spec_get(k) == old(pkru).spec_get(k),
    {
        pkru.set(key, access);
        Ok(PKey { key })
    }

    /// Returns the key id.
    pub fn key(&self) -> (r: u32)
        ensures
            r == self.key,
    {
        self.key
    }

    /// Reads this key's current rights out of the register.
    pub fn get_access_rights(&self, pkru: &Pkru) -> (r: PkeyAccessRights)
        requires
            self.wf(),
        ensures
            r == pkru.spec_get(self.key),
    {
        pkru.get(self.key)
    }

    /// Sets this key's rights by a read-modify-write of the register that
    /// never touches the fields of other keys.
    pub fn set_access_rights(&self, pkru: &mut Pkru, access: PkeyAccessRights) -> (r: Result<
        (),
        MprotectError,
    >)
        requires
            self.wf(),
        ensures
            r is Ok,
            *final(pkru) == old(pkru).spec_set(self.key, access),
            final(pkru).spec_get(self.key) == access,
            forall|k: u32|
                k < PKEY_COUNT && k != self.key ==> final(pkru).spec_get(k) == old(pkru).spec_get(
                    k,
                ),
    {
        pkru.set(self.key, access);
        Ok(())
    }

    /// Binds this key to a region's pages and sets the region's page
    /// rights, as the key-aware page-permission call does.
    pub fn associate<A: Allocator<T>, T>(
        &self,
        region: &mut UnsafeProtectedRegion<A, T>,
        access_rights: AccessRights,
    ) -> (r: Result<(), MprotectError>)
        ensures
            r is Ok,
            final(region).pkey_id == Some(self.key),
            final(region).page_rights == access_rights,
            final(region).allocator == old(region).allocator,
            final(region).len == old(region).len,
    {
        region.pkey_id = Some(self.key);
        region.page_rights = access_rights;
        Ok(())
    }

    /// Rebinds a region's pages to the default, always-enabled key id 0,
    /// removing this key's control over them, and sets the page rights.
    pub fn disassociate<A: Allocator<T>, T>(
        &self,
        region: &mut UnsafeProtectedRegion<A, T>,
        access_rights: AccessRights,
    ) -> (r: Result<(), MprotectError>)
        ensures
            r is Ok,
            final(region).pkey_id is None,
            final(region).page_rights == access_rights,
            final(region).allocator == old(region).allocator,
            final(region).len == old(region).len,
    {
        region.pkey_id = None;
        region.page_rights = access_rights;
        Ok(())
    }
}

} // verus!
