//! The key guard: a protection key with a LIFO stack of access levels.
//!
//! A key guard owns one protection key and a non-empty stack of key
//! rights whose bottom entry is the default set at construction and never
//! popped.  Associating a region, or switching a live association to new
//! rights, pushes one level and writes it into the register; releasing an
//! association pops its level and writes the enclosing level back.
//! Scopes must end in the reverse of the order they began — the contracts
//! demand it — and a balanced sequence of scopes always returns the
//! register to the level it started from.
//!
//! The capability a scope was opened under is a type parameter of its
//! handle, so a handle can hand out read or write tokens only when its
//! capability grants them — there is no runtime branch for "may I read".

use vstd::prelude::*;

use crate::pkey::PKey;
use crate::pkey::Pkru;
use crate::pkey::PkeyAccessRights;
use crate::pkey::PKEY_COUNT;
use crate::region::Allocator;
use crate::regionguard::spec_read_rights;
use crate::regionguard::spec_write_rights;
use crate::regionguard::GuardError;
use crate::regionguard::GuardRef;
use crate::regionguard::GuardRefMut;
use crate::regionguard::RegionGuard;
use crate::MprotectError;

verus! {

/// Errors raised while working with a key guard and its regions.
#[derive(Debug)]
pub enum PkeyGuardError {
    MprotectError(MprotectError),
    RegionGuardError(GuardError),
    InvalidRegionError,
}

/// A key-level capability marker: a zero-sized type standing for one
/// fixed value of the key rights.
pub trait Access: Sized {
    /// The key rights this capability stands for.
    spec fn spec_value() -> PkeyAccessRights;

    /// Creates the capability value.
    fn new() -> (r: Self);

    /// Returns the key rights this capability stands for.
    fn value(&self) -> (r: PkeyAccessRights)
        ensures
            r == Self::spec_value(),
    ;
}

/// Capabilities that permit reading: their key rights do not disable
/// access.
pub trait CanRead: Access {
    /// Every capability carrying this marker leaves read access enabled.
    proof fn read_allowed()
        ensures
            Self::spec_value() != PkeyAccessRights::DisableAccess,
    ;
}

/// Capabilities that permit writing: their key rights enable both access
/// and write.
pub trait CanWrite: Access {
    /// Every capability carrying this marker leaves write access enabled.
    proof fn write_allowed()
        ensures
            Self::spec_value() == PkeyAccessRights::EnableAccessWrite,
    ;
}

/// Grants read-only access: the key disables writes.
pub struct ReadOnly;

/// Grants read and write access: the key enables both.
pub struct ReadWrite;

/// Denies all access through the key.
pub struct NoAccess;

impl Access for ReadOnly {
    open spec fn spec_value() -> PkeyAccessRights {
        PkeyAccessRights::DisableWrite
    }

    fn new() -> Self {
        ReadOnly
    }

    fn value(&self) -> PkeyAccessRights {
        PkeyAccessRights::DisableWrite
    }
}

impl Access for ReadWrite {
    open spec fn spec_value() -> PkeyAccessRights {
        PkeyAccessRights::EnableAccessWrite
    }

    fn new() -> Self {
        ReadWrite
    }

    fn value(&self) -> PkeyAccessRights {
        PkeyAccessRights::EnableAccessWrite
    }
}

impl Access for NoAccess {
    open spec fn spec_value() -> PkeyAccessRights {
        PkeyAccessRights::DisableAccess
    }

    fn new() -> Self {
        NoAccess
    }

    fn value(&self) -> PkeyAccessRights {
        PkeyAccessRights::DisableAccess
    }
}

impl CanRead for ReadOnly {
    proof fn read_allowed() {
    }
}

impl CanRead for ReadWrite {
    proof fn read_allowed() {
    }
}

impl CanWrite for ReadWrite {
    proof fn write_allowed() {
    }
}

/// The abstract state of a key guard: its key id, the rights last written
/// into the register for that key, and the stack of access levels.
pub struct PkeyGuardView {
    /// The guarded key's id.
    pub key: u32,
    /// The rights last written into the key's register field.
    pub current: PkeyAccessRights,
    /// The stack of access levels; the bottom entry is the default.
    pub stack: Seq<PkeyAccessRights>,
}

impl PkeyGuardView {
    /// The view's invariant: the key has a register field and the stack
    /// keeps its bottom default entry.
    pub open spec fn wf(self) -> bool {
        self.key < PKEY_COUNT && self.stack.len() >= 1
    }

    /// Whether the register tracks the top of the stack; true whenever no
    /// out-of-order guard use forced a defensive re-synchronisation.
    pub open spec fn aligned(self) -> bool {
        self.current == self.stack.last()
    }

    /// The state after opening one scope at level `rights`.
    pub open spec fn spec_pushed(self, rights: PkeyAccessRights) -> PkeyGuardView {
        PkeyGuardView { key: self.key, current: rights, stack: self.stack.push(rights) }
    }

    /// The state after closing the innermost scope: its level leaves the
    /// stack and the enclosing level is written back.
    pub open spec fn spec_popped(self) -> PkeyGuardView
        recommends
            self.stack.len() >= 2,
    {
        PkeyGuardView {
            key: self.key,
            current: self.stack[self.stack.len() - 2],
            stack: self.stack.drop_last(),
        }
    }
}

/// A guard owning one protection key and the LIFO stack of access levels
/// opened on it.
pub struct PkeyGuard {
    /// The owned protection key.
    pub pkey: PKey,
    /// The rights last written into the key's register field.
    pub current_access_rights: PkeyAccessRights,
    /// The stack of access levels; the bottom entry is the default set at
    /// construction and is never popped.
    pub permissions_stack: Vec<PkeyAccessRights>,
}

impl View for PkeyGuard {
    type V = PkeyGuardView;

    open spec fn view(&self) -> PkeyGuardView {
        PkeyGuardView {
            key: self.pkey.key,
            current: self.current_access_rights,
            stack: self.permissions_stack@,
        }
    }
}

impl PkeyGuard {
    /// The guard's invariant.
    pub open spec fn wf(self) -> bool {
        self@.wf()
    }

    /// The default access level: the bottom of the stack.
    pub open spec fn default_rights(self) -> PkeyAccessRights {
        self@.stack[0]
    }

    /// Whether the given register value carries for this key exactly the
    /// rights the guard believes it wrote last.
    pub open spec fn synced(self, pkru: Pkru) -> bool {
        pkru.spec_get(self.pkey.key) == self.current_access_rights
    }

    /// Creates a guard owning key id `key` with the capability's rights
    /// as the default: the bottom stack entry, written into the register.
    pub fn new<Acc: Access>(default_access_rights: Acc, key: u32, pkru: &mut Pkru) -> (r: Result<
        PkeyGuard,
        MprotectError,
    >)
        requires
            key < PKEY_COUNT,
        ensures
            r matches Ok(g) && g.wf() && g@.aligned() && g.pkey.key == key && g@.stack.len() == 1
                && g@.stack[0] == Acc::spec_value() && g.current_access_rights
                == Acc::spec_value(),
            *final(pkru) == old(pkru).spec_set(key, Acc::spec_value()),
            final(pkru).spec_get(key) == Acc::spec_value(),
            forall|k: u32|
                k < PKEY_COUNT && k != key ==> final(pkru).spec_get(k) == old(pkru).spec_get(k),
    {
        let rights = default_access_rights.value();
        let pkey = match PKey::new(key, rights, pkru) {
            Ok(k) => k,
            Err(e) => {
                return Err(e);
            },
        };
        let mut permissions_stack: Vec<PkeyAccessRights> = Vec::new();
        permissions_stack.push(rights);
        Ok(PkeyGuard { pkey, current_access_rights: rights, permissions_stack })
    }

    /// Returns the owned protection key.
    pub fn pkey(&self) -> (r: &PKey)
        ensures
            *r == self.pkey,
    {
        &self.pkey
    }

    /// Opens one scope: pushes `rights` onto the stack and writes them
    /// into the key's register field.
    fn push_permissions(&mut self, rights: PkeyAccessRights, pkru: &mut Pkru)
        requires
            old(self).wf(),
        ensures
            final(self).wf(),
            final(self)@ == old(self)@.spec_pushed(rights),
            final(self).pkey == old(self).pkey,
            *final(pkru) == old(pkru).spec_set(old(self).pkey.key, rights),
            final(pkru).spec_get(old(self).pkey.key) == rights,
            forall|k: u32|
                k < PKEY_COUNT && k != old(self).pkey.key ==> final(pkru).spec_get(k) == old(
                    pkru,
                ).spec_get(k),
    {
        self.permissions_stack.push(rights);
        let _ = self.pkey.set_access_rights(pkru, rights);
        self.current_access_rights = rights;
    }

    /// Closes the innermost scope: pops the top of the stack and writes
    /// the level below it back into the key's register field.  The bottom
    /// default entry is never popped: callers keep at least two entries.
    fn pop_permissions(&mut self, pkru: &mut Pkru) -> (r: Option<PkeyAccessRights>)
        requires
            old(self).wf(),
            old(self)@.stack.len() >= 2,
        ensures
            final(self).wf(),
            final(self)@ == old(self)@.spec_popped(),
            final(self).pkey == old(self).pkey,
            r == Some(old(self)@.stack.last()),
            final(self).current_access_rights == old(self)@.stack[old(self)@.stack.len() - 2],
            *final(pkru) == old(pkru).spec_set(
                old(self).pkey.key,
                old(self)@.stack[old(self)@.stack.len() - 2],
            ),
            final(pkru).spec_get(old(self).pkey.key) == old(self)@.stack[old(self)@.stack.len()
                - 2],
            forall|k: u32|
                k < PKEY_COUNT && k != old(self).pkey.key ==> final(pkru).spec_get(k) == old(
                    pkru,
                ).spec_get(k),
    {
        let popped = self.permissions_stack.pop();
        let top = self.permissions_stack[self.permissions_stack.len() - 1];
        let _ = self.pkey.set_access_rights(pkru, top);
        self.current_access_rights = top;
        popped
    }

    /// Associates a region with the key and opens a scope at the
    /// capability's level: the key is bound to the region's pages, the
    /// level is pushed and written into the register, and the returned
    /// handler owns the new scope.
    pub fn associate<A: Allocator<T>, T, Rights: Access>(
        &mut self,
        region: &mut RegionGuard<A, T>,
        pkru: &mut Pkru,
    ) -> (r: Result<AssociatedRegionHandler<Rights>, MprotectError>)
        requires
            old(self).wf(),
            old(region).wf(),
        ensures
            final(self).wf(),
            final(self)@ == old(self)@.spec_pushed(Rights::spec_value()),
            final(self).pkey == old(self).pkey,
            *final(pkru) == old(pkru).spec_set(old(self).pkey.key, Rights::spec_value()),
            final(pkru).spec_get(old(self).pkey.key) == Rights::spec_value(),
            forall|k: u32|
                k < PKEY_COUNT && k != old(self).pkey.key ==> final(pkru).spec_get(k) == old(
                    pkru,
                ).spec_get(k),
            final(region).wf(),
            final(region).memory.pkey_id == Some(old(self).pkey.key),
            final(region).access_rights == old(region).access_rights,
            final(region).default_access_rights == old(region).default_access_rights,
            final(region).generation == old(region).generation,
            final(region).value() == old(region).value(),
            r matches Ok(h) && h.region.index == old(self)@.stack.len() && !h.region.retired,
    {
        let page_rights = region.access_rights();
        match self.pkey.associate(&mut region.memory, page_rights) {
            Ok(u) => u,
            Err(e) => {
                return Err(e);
            },
        }
        Ok(AssociatedRegionHandler::new(self, pkru))
    }
}

/// One scope of key-level access at the capability `Rights`, opened by
/// [`PkeyGuard::associate`] or by a rights switch on a live scope.
///
/// The handle records the stack index of its level.  Scopes close in
/// strict LIFO order: [`AssociatedRegion::release`] demands that its own
/// level be the top of the stack.  A handle superseded by a rights switch
/// is `retired` and can no longer hand out access tokens.
pub struct AssociatedRegion<Rights: Access> {
    /// The stack index of the scope's level.
    pub index: usize,
    /// Whether a rights switch superseded this handle.
    pub retired: bool,
    /// The capability the scope was opened under.
    pub access_rights: Rights,
}

impl<Rights: Access> AssociatedRegion<Rights> {
    /// Opens a scope at the capability's level on the given key guard.
    pub fn new(pkey_guard: &mut PkeyGuard, pkru: &mut Pkru) -> (r: AssociatedRegion<Rights>)
        requires
            old(pkey_guard).wf(),
        ensures
            final(pkey_guard).wf(),
            final(pkey_guard)@ == old(pkey_guard)@.spec_pushed(Rights::spec_value()),
            final(pkey_guard).pkey == old(pkey_guard).pkey,
            *final(pkru) == old(pkru).spec_set(old(pkey_guard).pkey.key, Rights::spec_value()),
            final(pkru).spec_get(old(pkey_guard).pkey.key) == Rights::spec_value(),
            forall|k: u32|
                k < PKEY_COUNT && k != old(pkey_guard).pkey.key ==> final(pkru).spec_get(k) == old(
                    pkru,
                ).spec_get(k),
            r.index == old(pkey_guard)@.stack.len(),
            !r.retired,
    {
        let access_rights = Rights::new();
        let index = pkey_guard.permissions_stack.len();
        pkey_guard.push_permissions(access_rights.value(), pkru);
        AssociatedRegion { index, retired: false, access_rights }
    }

    /// Re-asserts this scope's level in the register if the guard
    /// believes something else was written since — a defensive
    /// resynchronisation, not expected to fire under correct nesting.
    fn sync_pkey_permissions(&self, pkey_guard: &mut PkeyGuard, pkru: &mut Pkru) -> (r: Result<
        (),
        MprotectError,
    >)
        requires
            old(pkey_guard).wf(),
        ensures
            r is Ok,
            final(pkey_guard).wf(),
            final(pkey_guard)@.stack == old(pkey_guard)@.stack,
            final(pkey_guard).pkey == old(pkey_guard).pkey,
            final(pkey_guard).current_access_rights == Rights::spec_value(),
            old(pkey_guard).current_access_rights == Rights::spec_value() ==> *final(pkru) == *old(
                pkru,
            ),
            old(pkey_guard).current_access_rights != Rights::spec_value() ==> *final(pkru) == old(
                pkru,
            ).spec_set(old(pkey_guard).pkey.key, Rights::spec_value()),
    {
        let value = self.access_rights.value();
        if pkey_guard.current_access_rights == value {
            return Ok(());
        }
        match pkey_guard.pkey.set_access_rights(pkru, value) {
            Ok(u) => u,
            Err(e) => {
                return Err(e);
            },
        }
        pkey_guard.current_access_rights = value;
        Ok(())
    }

    /// Hands out a read token for the associated region, available only
    /// under a capability that permits reading.  The register is
    /// re-synchronised to this scope's level first, then the region issues
    /// the token, escalating its page rights if read was missing.
    pub fn ref_guard<A: Allocator<T>, T>(
        &self,
        pkey_guard: &mut PkeyGuard,
        region: &mut RegionGuard<A, T>,
        pkru: &mut Pkru,
    ) -> (r: Result<GuardRef, PkeyGuardError>) where Rights: CanRead
        requires
            old(pkey_guard).wf(),
            old(region).wf(),
            !self.retired,
        ensures
            final(pkey_guard).wf(),
            final(pkey_guard)@.stack == old(pkey_guard)@.stack,
            final(pkey_guard).pkey == old(pkey_guard).pkey,
            final(pkey_guard).current_access_rights == Rights::spec_value(),
            final(region).wf(),
            *final(region) == old(region).spec_elevated(spec_read_rights()),
            r matches Ok(g) && g.gen == final(region).generation && g.added == old(
                region,
            ).spec_added(spec_read_rights()),
    {
        match self.sync_pkey_permissions(pkey_guard, pkru) {
            Ok(u) => u,
            Err(e) => {
                return Err(PkeyGuardError::MprotectError(e));
            },
        }
        match region.read() {
            Ok(g) => Ok(g),
            Err(e) => Err(PkeyGuardError::RegionGuardError(e)),
        }
    }

    /// Hands out a write token for the associated region, available only
    /// under a capability that permits writing.  The register is
    /// re-synchronised to this scope's level first, then the region issues
    /// the token, escalating its page rights if write was missing.
    pub fn mut_ref_guard<A: Allocator<T>, T>(
        &self,
        pkey_guard: &mut PkeyGuard,
        region: &mut RegionGuard<A, T>,
        pkru: &mut Pkru,
    ) -> (r: Result<GuardRefMut, PkeyGuardError>) where Rights: CanWrite
        requires
            old(pkey_guard).wf(),
            old(region).wf(),
            !self.retired,
        ensures
            final(pkey_guard).wf(),
            final(pkey_guard)@.stack == old(pkey_guard)@.stack,
            final(pkey_guard).pkey == old(pkey_guard).pkey,
            final(pkey_guard).current_access_rights == Rights::spec_value(),
            final(region).wf(),
            *final(region) == old(region).spec_elevated(spec_write_rights()),
            r matches Ok(g) && g.gen == final(region).generation && g.added == old(
                region,
            ).spec_added(spec_write_rights()),
    {
        match self.sync_pkey_permissions(pkey_guard, pkru) {
            Ok(u) => u,
            Err(e) => {
                return Err(PkeyGuardError::MprotectError(e));
            },
        }
        match region.write() {
            Ok(g) => Ok(g),
            Err(e) => Err(PkeyGuardError::RegionGuardError(e)),
        }
    }

    /// Closes the scope.  The contract demands LIFO order — this level
    /// must be the innermost one — and the bottom default entry is out of
    /// reach: its owner is the guard itself, not any scope.  The level
    /// leaves the stack and the enclosing level is written back into the
    /// register, whether or not the handle was retired by a rights switch.
    pub fn release(self, pkey_guard: &mut PkeyGuard, pkru: &mut Pkru)
        requires
            old(pkey_guard).wf(),
            self.index + 1 == old(pkey_guard)@.stack.len(),
            self.index >= 1,
        ensures
            final(pkey_guard).wf(),
            final(pkey_guard)@ == old(pkey_guard)@.spec_popped(),
            final(pkey_guard).pkey == old(pkey_guard).pkey,
            final(pkey_guard).current_access_rights == old(pkey_guard)@.stack[self.index - 1],
            *final(pkru) == old(pkru).spec_set(
                old(pkey_guard).pkey.key,
                old(pkey_guard)@.stack[self.index - 1],
            ),
            final(pkru).spec_get(old(pkey_guard).pkey.key) == old(pkey_guard)@.stack[self.index
                - 1],
            forall|k: u32|
                k < PKEY_COUNT && k != old(pkey_guard).pkey.key ==> final(pkru).spec_get(k) == old(
                    pkru,
                ).spec_get(k),
    {
        let _ = pkey_guard.pop_permissions(pkru);
    }
}

/// A handler owning the scope opened when a region was associated with a
/// key guard; rights switches on the live scope go through it.
pub struct AssociatedRegionHandler<Rights: Access> {
    /// The scope the handler owns.
    pub region: AssociatedRegion<Rights>,
}

impl<Rights: Access> AssociatedRegionHandler<Rights> {
    /// Opens a scope at the capability's level and takes ownership of it.
    pub fn new(pkey_guard: &mut PkeyGuard, pkru: &mut Pkru) -> (r: AssociatedRegionHandler<Rights>)
        requires
            old(pkey_guard).wf(),
        ensures
            final(pkey_guard).wf(),
            final(pkey_guard)@ == old(pkey_guard)@.spec_pushed(Rights::spec_value()),
            final(pkey_guard).pkey == old(pkey_guard).pkey,
            *final(pkru) == old(pkru).spec_set(old(pkey_guard).pkey.key, Rights::spec_value()),
            final(pkru).spec_get(old(pkey_guard).pkey.key) == Rights::spec_value(),
            forall|k: u32|
                k < PKEY_COUNT && k != old(pkey_guard).pkey.key ==> final(pkru).spec_get(k) == old(
                    pkru,
                ).spec_get(k),
            r.region.index == old(pkey_guard)@.stack.len(),
            !r.region.retired,
    {
        AssociatedRegionHandler { region: AssociatedRegion::new(pkey_guard, pkru) }
    }

    /// Switches the live scope to a new capability: retires this
    /// handler's own handle — it may hand out no further tokens — pushes
    /// the new level, writes it into the register, and returns a fresh
    /// handle scoped to the new capability.  The new handle closes before
    /// this handler's own scope does.
    pub fn set_access_rights<NewRights: Access>(
        &mut self,
        pkey_guard: &mut PkeyGuard,
        pkru: &mut Pkru,
    ) -> (r: Result<AssociatedRegion<NewRights>, MprotectError>)
        requires
            old(pkey_guard).wf(),
        ensures
            final(self).region.index == old(self).region.index,
            final(self).region.retired,
            final(pkey_guard).wf(),
            final(pkey_guard)@ == old(pkey_guard)@.spec_pushed(NewRights::spec_value()),
            final(pkey_guard).pkey == old(pkey_guard).pkey,
            *final(pkru) == old(pkru).spec_set(old(pkey_guard).pkey.key, NewRights::spec_value()),
            final(pkru).spec_get(old(pkey_guard).pkey.key) == NewRights::spec_value(),
            forall|k: u32|
                k < PKEY_COUNT && k != old(pkey_guard).pkey.key ==> final(pkru).spec_get(k) == old(
                    pkru,
                ).spec_get(k),
            r matches Ok(t) && t.index == old(pkey_guard)@.stack.len() && !t.retired,
    {
        self.region.retired = true;
        Ok(AssociatedRegion::<NewRights>::new(pkey_guard, pkru))
    }

    /// Closes the handler's own scope, under the same LIFO obligation as
    /// [`AssociatedRegion::release`].
    pub fn release(self, pkey_guard: &mut PkeyGuard, pkru: &mut Pkru)
        requires
            old(pkey_guard).wf(),
            self.region.index + 1 == old(pkey_guard)@.stack.len(),
            self.region.index >= 1,
        ensures
            final(pkey_guard).wf(),
            final(pkey_guard)@ == old(pkey_guard)@.spec_popped(),
            final(pkey_guard).pkey == old(pkey_guard).pkey,
            final(pkey_guard).current_access_rights == old(pkey_guard)@.stack[self.region.index
                - 1],
            *final(pkru) == old(pkru).spec_set(
                old(pkey_guard).pkey.key,
                old(pkey_guard)@.stack[self.region.index - 1],
            ),
            final(pkru).spec_get(old(pkey_guard).pkey.key) == old(
                pkey_guard,
            )@.stack[self.region.index - 1],
            forall|k: u32|
                k < PKEY_COUNT && k != old(pkey_guard).pkey.key ==> final(pkru).spec_get(k) == old(
                    pkru,
                ).spec_get(k),
    {
        self.region.release(pkey_guard, pkru)
    }
}

/// The state after opening scopes at each level of `rs`, left to right.
pub open spec fn spec_push_all(g: PkeyGuardView, rs: Seq<PkeyAccessRights>) -> PkeyGuardView
    decreases rs.len(),
{
    if rs.len() == 0 {
        g
    } else {
        spec_push_all(g.spec_pushed(rs[0]), rs.skip(1))
    }
}

/// The state after closing `n` scopes, innermost first.
pub open spec fn spec_pop_n(g: PkeyGuardView, n: nat) -> PkeyGuardView
    decreases n,
{
    if n == 0 {
        g
    } else {
        spec_pop_n(g, (n - 1) as nat).spec_popped()
    }
}

/// The stack property: for any sequence of nested scopes — however many,
/// whichever levels — closing them all in reverse order returns the guard,
/// and with it the rights written into the register, to exactly the state
/// before the first scope opened.  In particular, a guard fresh from
/// construction is returned to its default level.
pub proof fn law_nested_scopes_restore(g: PkeyGuardView, rs: Seq<PkeyAccessRights>)
    requires
        g.wf(),
        g.aligned(),
    ensures
        spec_pop_n(spec_push_all(g, rs), rs.len()) == g,
    decreases rs.len(),
{
    if rs.len() == 0 {
    } else {
        let g1 = g.spec_pushed(rs[0]);
        assert(g1.wf() && g1.aligned());
        law_nested_scopes_restore(g1, rs.skip(1));
        assert(spec_push_all(g, rs) == spec_push_all(g1, rs.skip(1)));
        lemma_pop_n_peel(g1, rs.skip(1));
        assert(spec_pop_n(spec_push_all(g1, rs.skip(1)), rs.skip(1).len() + 1) == spec_pop_n(
            spec_push_all(g1, rs.skip(1)),
            rs.skip(1).len(),
        ).spec_popped());
        assert(g1.spec_popped().stack =~= g.stack);
        assert(g1.spec_popped() == g);
    }
}

/// On a guard fresh from construction — one stack entry, the default —
/// any number of nested scopes, closed in reverse order, leave the rights
/// written for the key equal to the default set at construction.
pub proof fn law_fresh_guard_returns_to_default(g: PkeyGuardView, rs: Seq<PkeyAccessRights>)
    requires
        g.wf(),
        g.aligned(),
        g.stack.len() == 1,
    ensures
        spec_pop_n(spec_push_all(g, rs), rs.len()).current == g.stack[0],
{
    law_nested_scopes_restore(g, rs);
}

/// Closing `n + 1` scopes is closing `n` scopes and then one more.
proof fn lemma_pop_n_peel(g: PkeyGuardView, rs: Seq<PkeyAccessRights>)
    ensures
        spec_pop_n(spec_push_all(g, rs), rs.len() + 1) == spec_pop_n(
            spec_push_all(g, rs),
            rs.len(),
        ).spec_popped(),
{
}

} // verus!
