//! The region guard: scoped permission management for a protected region.
//!
//! A guard wraps a protected region, remembers the region's default access
//! rights, tracks the rights currently in force, and counts permission
//! changes in a generation counter.  Access goes through short-lived
//! tokens: requesting access lazily escalates the page rights when they
//! are missing, and releasing a token narrows exactly the rights it added
//! beyond the default.  Every permission change advances the generation,
//! so every token issued earlier stops being usable — a stale token fails
//! loudly instead of reading through silently changed permissions.

use vstd::prelude::*;

use crate::access_rights::AccessPermission;
use crate::access_rights::AccessRights;
use crate::access_rights::AllAccessesTrait;
use crate::access_rights::ReadAllowedTrait;
use crate::access_rights::ReadOnly;
use crate::access_rights::WriteAllowedTrait;
use crate::access_rights::WriteOnly;
use crate::region::Allocator;
use crate::region::UnsafeProtectedRegion;
use crate::MprotectError;

verus! {

/// Errors raised while using guarded memory access.
///
/// `InvalidGeneration` reports a token used after the region's permissions
/// changed; `InvalidAccessRights` reports a request the rights in force do
/// not permit; `CannotSetAccessRights` carries a failed page-permission
/// change.
#[derive(Debug)]
pub enum GuardError {
    InvalidGeneration,
    InvalidAccessRights,
    CannotSetAccessRights(MprotectError),
}

/// No rights at all; the addition recorded by a token that found every
/// right it needed already in force.
pub open spec fn spec_no_rights() -> AccessRights {
    AccessRights { read: false, write: false, execute: false }
}

/// Read access alone, as requested by [`RegionGuard::read`].
pub open spec fn spec_read_rights() -> AccessRights {
    AccessRights { read: true, write: false, execute: false }
}

/// Write access alone, as requested by [`RegionGuard::write`].
pub open spec fn spec_write_rights() -> AccessRights {
    AccessRights { read: false, write: true, execute: false }
}

/// The generation value after one permission change: the counter advances
/// by one and wraps at the top, so it never equals its predecessor.
pub open spec fn spec_next_gen(g: u64) -> u64 {
    if g == u64::MAX {
        0
    } else {
        (g + 1) as u64
    }
}

/// A read token: a short-lived, non-owning capability to read the region,
/// recording the generation it was issued under and the rights its
/// creation added beyond the rights then in force.
#[derive(Debug)]
pub struct GuardRef {
    /// The region generation observed when the token was issued.
    pub gen: u64,
    /// The rights the token's creation added to the region.
    pub added: AccessRights,
}

/// A write token; the mutable counterpart of [`GuardRef`].
#[derive(Debug)]
pub struct GuardRefMut {
    /// The region generation observed when the token was issued.
    pub gen: u64,
    /// The rights the token's creation added to the region.
    pub added: AccessRights,
}

/// A guard managing one protected memory region and its access rights.
///
/// The guard's invariant ([`RegionGuard::wf`]): the tracked current rights
/// equal the region's page-table rights, and they always cover the default
/// rights the guard was created with — rights only escalate above the
/// default on demand and are only narrowed back toward it, never below it.
pub struct RegionGuard<A: Allocator<T>, T> {
    /// The protected region the guard owns.
    pub memory: UnsafeProtectedRegion<A, T>,
    /// Counts permission changes; tokens are valid while it stands still.
    pub generation: u64,
    /// The rights the region was created with.
    pub default_access_rights: AccessRights,
    /// The rights currently in force on the region's pages.
    pub access_rights: AccessRights,
}

impl<A: Allocator<T>, T> RegionGuard<A, T> {
    /// The guard's invariant: tracked rights match the page-table state
    /// and never fall below the default rights.
    pub open spec fn wf(self) -> bool {
        self.access_rights == self.memory.page_rights && self.access_rights.covers(
            self.default_access_rights,
        )
    }

    /// The payload stored in the region.
    pub open spec fn value(self) -> T {
        self.memory.allocator.value
    }

    /// The guard state after a request for the rights `req`: unchanged if
    /// `req` is already in force, otherwise the union is put in force and
    /// the generation advances.
    pub open spec fn spec_elevated(self, req: AccessRights) -> RegionGuard<A, T> {
        if self.access_rights.covers(req) {
            self
        } else {
            RegionGuard {
                memory: UnsafeProtectedRegion {
                    page_rights: self.access_rights.union(req),
                    ..self.memory
                },
                generation: spec_next_gen(self.generation),
                default_access_rights: self.default_access_rights,
                access_rights: self.access_rights.union(req),
            }
        }
    }

    /// The rights a token issued for the request `req` records as its own
    /// addition: whatever part of `req` was not yet in force.
    pub open spec fn spec_added(self, req: AccessRights) -> AccessRights {
        req.difference(self.access_rights)
    }

    /// The guard state after releasing a token that recorded generation
    /// `gen` and addition `added`: if the token is still valid and added
    /// rights beyond the default, exactly those rights are narrowed away
    /// and the generation advances; otherwise nothing changes.
    pub open spec fn spec_released(self, gen: u64, added: AccessRights) -> RegionGuard<A, T> {
        let effective = added.difference(self.default_access_rights);
        if gen == self.generation && effective != spec_no_rights() {
            RegionGuard {
                memory: UnsafeProtectedRegion {
                    page_rights: self.access_rights.difference(effective),
                    ..self.memory
                },
                generation: spec_next_gen(self.generation),
                default_access_rights: self.default_access_rights,
                access_rights: self.access_rights.difference(effective),
            }
        } else {
            self
        }
    }

    /// The guard state after an explicit invalidation: only the generation
    /// advances.
    pub open spec fn spec_invalidated(self) -> RegionGuard<A, T> {
        RegionGuard { generation: spec_next_gen(self.generation), ..self }
    }

    /// Creates a guard over a fresh protected region holding `value`, with
    /// the capability's rights as both the default and the current rights
    /// and the generation at zero.
    pub fn new<R: AllAccessesTrait>(access_rights: R, value: T) -> (r: Result<Self, MprotectError>)
        ensures
            r matches Ok(g) && g.wf() && g.generation == 0 && g.default_access_rights
                == R::spec_value() && g.access_rights == R::spec_value() && g.value() == value
                && g.memory.pkey_id is None && g.memory.len == core::mem::size_of::<T>(),
    {
        let rights = access_rights.value();
        match UnsafeProtectedRegion::<A, T>::new(value, rights) {
            Ok(memory) => Ok(
                RegionGuard {
                    memory,
                    generation: 0,
                    default_access_rights: rights,
                    access_rights: rights,
                },
            ),
            Err(e) => Err(e),
        }
    }

    /// Marks every outstanding token as outdated by advancing the
    /// generation.
    pub fn invalidate(&mut self)
        ensures
            *final(self) == old(self).spec_invalidated(),
    {
        self.generation = if self.generation == u64::MAX {
            0
        } else {
            self.generation + 1
        };
    }

    /// Issues a read token under the rights of an arbitrary read-allowing
    /// capability, escalating the page rights first if any part of the
    /// capability is not yet in force.  Never narrows rights.
    pub fn deref<R: ReadAllowedTrait>(&mut self, access_rights: R) -> (r: Result<
        GuardRef,
        GuardError,
    >)
        requires
            old(self).wf(),
        ensures
            final(self).wf(),
            *final(self) == old(self).spec_elevated(R::spec_value()),
            r matches Ok(g) && g.gen == final(self).generation && g.added == old(self).spec_added(
                R::spec_value(),
            ),
    {
        let req = access_rights.value();
        let added = req.minus(self.access_rights);
        if !self.access_rights.contains(req) {
            let new_rights = self.access_rights.add(req);
            match self.memory.set_access(new_rights) {
                Ok(u) => u,
                Err(e) => {
                    return Err(GuardError::CannotSetAccessRights(e));
                },
            }
            self.access_rights = new_rights;
            self.generation = if self.generation == u64::MAX {
                0
            } else {
                self.generation + 1
            };
        }
        Ok(GuardRef { gen: self.generation, added })
    }

    /// Issues a write token under the rights of an arbitrary write-allowing
    /// capability, escalating the page rights first if any part of the
    /// capability is not yet in force.  Never narrows rights.
    pub fn deref_mut<R: WriteAllowedTrait>(&mut self, access_rights: R) -> (r: Result<
        GuardRefMut,
        GuardError,
    >)
        requires
            old(self).wf(),
        ensures
            final(self).wf(),
            *final(self) == old(self).spec_elevated(R::spec_value()),
            r matches Ok(g) && g.gen == final(self).generation && g.added == old(self).spec_added(
                R::spec_value(),
            ),
    {
        let req = access_rights.value();
        let added = req.minus(self.access_rights);
        if !self.access_rights.contains(req) {
            let new_rights = self.access_rights.add(req);
            match self.memory.set_access(new_rights) {
                Ok(u) => u,
                Err(e) => {
                    return Err(GuardError::CannotSetAccessRights(e));
                },
            }
            self.access_rights = new_rights;
            self.generation = if self.generation == u64::MAX {
                0
            } else {
                self.generation + 1
            };
        }
        Ok(GuardRefMut { gen: self.generation, added })
    }

    /// Issues a read token, adding read access first if it is missing.
    pub fn read(&mut self) -> (r: Result<GuardRef, GuardError>)
        requires
            old(self).wf(),
        ensures
            final(self).wf(),
            *final(self) == old(self).spec_elevated(spec_read_rights()),
            r matches Ok(g) && g.gen == final(self).generation && g.added == old(self).spec_added(
                spec_read_rights(),
            ),
    {
        self.deref(ReadOnly)
    }

    /// Issues a write token, adding write access first if it is missing.
    pub fn write(&mut self) -> (r: Result<GuardRefMut, GuardError>)
        requires
            old(self).wf(),
        ensures
            final(self).wf(),
            *final(self) == old(self).spec_elevated(spec_write_rights()),
            r matches Ok(g) && g.gen == final(self).generation && g.added == old(self).spec_added(
                spec_write_rights(),
            ),
    {
        self.deref_mut(WriteOnly)
    }

    /// Releases a read token.  A valid token that added rights beyond the
    /// default narrows exactly those rights away and advances the
    /// generation; a stale token, or one that added nothing beyond the
    /// default, changes nothing.
    pub fn release_ref(&mut self, guard: GuardRef)
        requires
            old(self).wf(),
        ensures
            final(self).wf(),
            *final(self) == old(self).spec_released(guard.gen, guard.added),
    {
        if guard.gen == self.generation {
            let effective = guard.added.minus(self.default_access_rights);
            if !effective.is_none() {
                let new_rights = self.access_rights.minus(effective);
                let _ = self.memory.set_access(new_rights);
                self.access_rights = new_rights;
                self.generation = if self.generation == u64::MAX {
                    0
                } else {
                    self.generation + 1
                };
            }
        }
    }

    /// Releases a write token, exactly as [`RegionGuard::release_ref`]
    /// does for a read token.
    pub fn release_mut(&mut self, guard: GuardRefMut)
        requires
            old(self).wf(),
        ensures
            final(self).wf(),
            *final(self) == old(self).spec_released(guard.gen, guard.added),
    {
        if guard.gen == self.generation {
            let effective = guard.added.minus(self.default_access_rights);
            if !effective.is_none() {
                let new_rights = self.access_rights.minus(effective);
                let _ = self.memory.set_access(new_rights);
                self.access_rights = new_rights;
                self.generation = if self.generation == u64::MAX {
                    0
                } else {
                    self.generation + 1
                };
            }
        }
    }

    /// Returns the rights currently in force.
    pub fn access_rights(&self) -> (r: AccessRights)
        ensures
            r == self.access_rights,
    {
        self.access_rights
    }

    /// Returns a reference to the underlying protected region.  Direct
    /// access bypasses the token checks; prefer the tokens.
    pub fn get_region(&self) -> (r: &UnsafeProtectedRegion<A, T>)
        ensures
            *r == self.memory,
    {
        &self.memory
    }

    /// Returns the length of the protected region in bytes.
    pub fn get_region_len(&self) -> (r: usize)
        ensures
            r == self.memory.len,
    {
        self.memory.len()
    }
}

impl GuardRef {
    /// Whether the token still matches the region's generation.
    pub fn is_valid<A: Allocator<T>, T>(&self, region: &RegionGuard<A, T>) -> (r: bool)
        ensures
            r == (self.gen == region.generation),
    {
        self.gen == region.generation
    }

    /// Reads the payload through the token.  A stale token fails with
    /// `InvalidGeneration`; it never yields a value observed under
    /// permissions that have since changed.
    pub fn get<'a, A: Allocator<T>, T>(&self, region: &'a RegionGuard<A, T>) -> (r: Result<
        &'a T,
        GuardError,
    >)
        ensures
            self.gen == region.generation ==> (r matches Ok(v) && *v == region.value()),
            self.gen != region.generation ==> (r matches Err(e) && e is InvalidGeneration),
    {
        if self.gen == region.generation {
            Ok(region.memory.as_ref())
        } else {
            Err(GuardError::InvalidGeneration)
        }
    }

    /// Runs a closure on the payload if the token is still valid; a stale
    /// token fails with `InvalidGeneration` and the closure never runs.
    pub fn with<A: Allocator<T>, T, R, F: FnOnce(&T) -> R>(
        &self,
        region: &RegionGuard<A, T>,
        f: F,
    ) -> (res: Result<R, GuardError>)
        requires
            call_requires(f, (&region.value(),)),
        ensures
            self.gen == region.generation ==> (res matches Ok(v) && call_ensures(
                f,
                (&region.value(),),
                v,
            )),
            self.gen != region.generation ==> (res matches Err(e) && e is InvalidGeneration),
    {
        if self.gen == region.generation {
            let arg = region.memory.as_ref();
            let v = f(arg);
            Ok(v)
        } else {
            Err(GuardError::InvalidGeneration)
        }
    }
}

impl GuardRefMut {
    /// Whether the token still matches the region's generation.
    pub fn is_valid<A: Allocator<T>, T>(&self, region: &RegionGuard<A, T>) -> (r: bool)
        ensures
            r == (self.gen == region.generation),
    {
        self.gen == region.generation
    }

    /// Reads the payload through the token.  A stale token fails with
    /// `InvalidGeneration`.
    pub fn get<'a, A: Allocator<T>, T>(&self, region: &'a RegionGuard<A, T>) -> (r: Result<
        &'a T,
        GuardError,
    >)
        ensures
            self.gen == region.generation ==> (r matches Ok(v) && *v == region.value()),
            self.gen != region.generation ==> (r matches Err(e) && e is InvalidGeneration),
    {
        if self.gen == region.generation {
            Ok(region.memory.as_ref())
        } else {
            Err(GuardError::InvalidGeneration)
        }
    }

    /// Writes the payload through the token.  A stale token fails with
    /// `InvalidGeneration` and leaves the region untouched; a valid token
    /// replaces the payload and changes nothing else.
    pub fn set<A: Allocator<T>, T>(&self, region: &mut RegionGuard<A, T>, value: T) -> (r: Result<
        (),
        GuardError,
    >)
        ensures
            self.gen == old(region).generation ==> r is Ok && final(region).value() == value
                && final(region).memory.len == old(region).memory.len
                && final(region).memory.pkey_id == old(region).memory.pkey_id
                && final(region).memory.page_rights == old(region).memory.page_rights
                && final(region).generation == old(region).generation
                && final(region).default_access_rights == old(region).default_access_rights
                && final(region).access_rights == old(region).access_rights,
            self.gen != old(region).generation ==> (r matches Err(e) && e is InvalidGeneration)
                && *final(region) == *old(region),
    {
        if self.gen == region.generation {
            let slot = region.memory.as_mut();
            *slot = value;
            Ok(())
        } else {
            Err(GuardError::InvalidGeneration)
        }
    }
}

/// One step of the region guard's permission state machine: the state
/// transition of some token request, token release, or explicit
/// invalidation.
pub open spec fn spec_step<A: Allocator<T>, T>(
    pre: RegionGuard<A, T>,
    post: RegionGuard<A, T>,
) -> bool {
    (exists|req: AccessRights| post == pre.spec_elevated(req)) || (exists|gen: u64,
        added: AccessRights|
        post == pre.spec_released(gen, added)) || post == pre.spec_invalidated()
}

/// Round trip, generally: elevating a region's rights for any requested
/// capability and then releasing the issued token leaves the current
/// rights exactly equal to the rights in force before the elevation,
/// whatever was requested and whatever the default.
pub proof fn law_elevate_release_round_trip<A: Allocator<T>, T>(
    region: RegionGuard<A, T>,
    req: AccessRights,
)
    requires
        region.wf(),
    ensures
        region.spec_elevated(req).spec_released(
            region.spec_elevated(req).generation,
            region.spec_added(req),
        ).access_rights == region.access_rights,
        region.spec_elevated(req).spec_released(
            region.spec_elevated(req).generation,
            region.spec_added(req),
        ).default_access_rights == region.default_access_rights,
{
}

/// Round trip: elevating a region's rights for a write token and then
/// releasing that token leaves the current rights exactly equal to the
/// rights in force before the elevation, whatever the default was.
pub proof fn law_write_round_trip<A: Allocator<T>, T>(region: RegionGuard<A, T>)
    requires
        region.wf(),
    ensures
        region.spec_elevated(spec_write_rights()).spec_released(
            region.spec_elevated(spec_write_rights()).generation,
            region.spec_added(spec_write_rights()),
        ).access_rights == region.access_rights,
        region.spec_elevated(spec_write_rights()).spec_released(
            region.spec_elevated(spec_write_rights()).generation,
            region.spec_added(spec_write_rights()),
        ).default_access_rights == region.default_access_rights,
{
    law_elevate_release_round_trip(region, spec_write_rights());
}

/// Idempotence: a read request on a region whose rights already include
/// read changes nothing and yields a token with the region's current
/// generation that recorded no addition; releasing such a token changes
/// nothing either.  Two such requests therefore yield two valid tokens
/// sharing one generation, and releasing one leaves the other valid.
pub proof fn law_read_idempotent<A: Allocator<T>, T>(region: RegionGuard<A, T>)
    requires
        region.wf(),
        region.access_rights.read,
    ensures
        region.spec_elevated(spec_read_rights()) == region,
        region.spec_added(spec_read_rights()) == spec_no_rights(),
        region.spec_released(region.generation, region.spec_added(spec_read_rights())) == region,
{
}

/// Stale tokens: every operation that changes the rights in force advances
/// the generation, so a token issued before the change no longer matches
/// the region's generation — and a mismatched token fails instead of
/// yielding a value, by the contracts of [`GuardRef::get`] and
/// [`GuardRefMut::set`].
pub proof fn law_permission_change_invalidates<A: Allocator<T>, T>(
    pre: RegionGuard<A, T>,
    post: RegionGuard<A, T>,
    token_gen: u64,
)
    requires
        pre.wf(),
        spec_step(pre, post),
        post.access_rights != pre.access_rights,
        token_gen == pre.generation,
    ensures
        token_gen != post.generation,
{
    if exists|req: AccessRights| post == pre.spec_elevated(req) {
        let req = choose|req: AccessRights| post == pre.spec_elevated(req);
        assert(post.generation == spec_next_gen(pre.generation));
    } else if exists|gen: u64, added: AccessRights| post == pre.spec_released(gen, added) {
        let (gen, added) = choose|gen: u64, added: AccessRights|
            post == pre.spec_released(gen, added);
        assert(post.generation == spec_next_gen(pre.generation));
    }
}

} // verus!
