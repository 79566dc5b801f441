//! Page-level access rights and the capability marker types that select them.

use vstd::prelude::*;

verus! {

/// Page-table access rights for a protected region: the read, write and
/// execute bits of the OS page protection flags, kept as individual flags.
///
/// `to_i32` produces the numeric protection mask in the encoding the OS
/// uses for page permissions (read = 1, write = 2, execute = 4), so a value
/// can be handed directly to the page-permission system call.
#[derive(Clone, Copy, Debug, PartialEq, Eq, Structural)]
pub struct AccessRights {
    pub read: bool,
    pub write: bool,
    pub execute: bool,
}

impl AccessRights {
    /// The union of two sets of rights.
    pub open spec fn union(self, other: AccessRights) -> AccessRights {
        AccessRights {
            read: self.read || other.read,
            write: self.write || other.write,
            execute: self.execute || other.execute,
        }
    }

    /// The rights of `self` with every right of `other` removed.
    pub open spec fn difference(self, other: AccessRights) -> AccessRights {
        AccessRights {
            read: self.read && !other.read,
            write: self.write && !other.write,
            execute: self.execute && !other.execute,
        }
    }

    /// Does `self` contain every right of `other`?
    pub open spec fn covers(self, other: AccessRights) -> bool {
        (other.read ==> self.read) && (other.write ==> self.write) && (other.execute ==> self.execute)
    }

    /// Do `self` and `other` share no right?
    pub open spec fn disjoint(self, other: AccessRights) -> bool {
        !(self.read && other.read) && !(self.write && other.write) && !(self.execute && other.execute)
    }

    /// The numeric protection mask: read = 1, write = 2, execute = 4.
    pub open spec fn spec_bits(self) -> int {
        (if self.read { 1int } else { 0int }) + (if self.write { 2int } else { 0int })
            + (if self.execute { 4int } else { 0int })
    }

    /// No access.
    pub fn none() -> (r: AccessRights)
        ensures
            r == (AccessRights { read: false, write: false, execute: false }),
    {
        AccessRights { read: false, write: false, execute: false }
    }

    /// Read access only.
    pub fn read() -> (r: AccessRights)
        ensures
            r == (AccessRights { read: true, write: false, execute: false }),
    {
        AccessRights { read: true, write: false, execute: false }
    }

    /// Write access only.
    pub fn write() -> (r: AccessRights)
        ensures
            r == (AccessRights { read: false, write: true, execute: false }),
    {
        AccessRights { read: false, write: true, execute: false }
    }

    /// Execute access only.
    pub fn execute() -> (r: AccessRights)
        ensures
            r == (AccessRights { read: false, write: false, execute: true }),
    {
        AccessRights { read: false, write: false, execute: true }
    }

    /// Read and write access.
    pub fn read_write() -> (r: AccessRights)
        ensures
            r == (AccessRights { read: true, write: true, execute: false }),
    {
        AccessRights { read: true, write: true, execute: false }
    }

    /// Read and execute access.
    pub fn read_exec() -> (r: AccessRights)
        ensures
            r == (AccessRights { read: true, write: false, execute: true }),
    {
        AccessRights { read: true, write: false, execute: true }
    }

    /// Write and execute access.
    pub fn write_exec() -> (r: AccessRights)
        ensures
            r == (AccessRights { read: false, write: true, execute: true }),
    {
        AccessRights { read: false, write: true, execute: true }
    }

    /// Read, write and execute access.
    pub fn read_write_exec() -> (r: AccessRights)
        ensures
            r == (AccessRights { read: true, write: true, execute: true }),
    {
        AccessRights { read: true, write: true, execute: true }
    }

    /// Adds the given rights to the current rights.
    pub fn add(&self, right: AccessRights) -> (r: AccessRights)
        ensures
            r == self.union(right),
    {
        AccessRights {
            read: self.read || right.read,
            write: self.write || right.write,
            execute: self.execute || right.execute,
        }
    }

    /// Removes the given rights from the current rights.
    pub fn minus(&self, right: AccessRights) -> (r: AccessRights)
        ensures
            r == self.difference(right),
    {
        AccessRights {
            read: self.read && !right.read,
            write: self.write && !right.write,
            execute: self.execute && !right.execute,
        }
    }

    /// Checks whether the current rights contain every given right.
    pub fn has(&self, right: AccessRights) -> (r: bool)
        ensures
            r == self.covers(right),
    {
        (!right.read || self.read) && (!right.write || self.write) && (!right.execute || self.execute)
    }

    /// Checks whether the current rights contain every given right.
    pub fn contains(&self, right: AccessRights) -> (r: bool)
        ensures
            r == self.covers(right),
    {
        self.has(right)
    }

    /// Checks whether no right is set.
    pub fn is_none(&self) -> (r: bool)
        ensures
            r == (*self == (AccessRights { read: false, write: false, execute: false })),
    {
        !self.read && !self.write && !self.execute
    }

    /// The numeric protection mask for the OS page-permission calls.
    pub fn to_i32(&self) -> (r: i32)
        ensures
            r == self.spec_bits(),
    {
        (if self.read { 1i32 } else { 0i32 }) + (if self.write { 2i32 } else { 0i32 }) + (
        if self.execute { 4i32 } else { 0i32 })
    }
}

/// A capability marker: a zero-sized type standing for one fixed set of
/// page-level access rights.
pub trait AccessPermission: Sized {
    /// The rights this capability stands for.
    spec fn spec_value() -> AccessRights;

    /// Returns the rights this capability stands for.
    fn value(&self) -> (r: AccessRights)
        ensures
            r == Self::spec_value(),
    ;
}

/// Capability granting no access.
#[derive(Clone, Copy)]
pub struct NoAccess;

/// Capability granting read access only.
#[derive(Clone, Copy)]
pub struct ReadOnly;

/// Capability granting write access only.
#[derive(Clone, Copy)]
pub struct WriteOnly;

/// Capability granting execute access only.
#[derive(Clone, Copy)]
pub struct ExecuteOnly;

/// Capability granting read and write access.
#[derive(Clone, Copy)]
pub struct ReadWrite;

/// Capability granting read and execute access.
#[derive(Clone, Copy)]
pub struct ReadExecute;

/// Capability granting write and execute access.
#[derive(Clone, Copy)]
pub struct WriteExecute;

/// Capability granting read, write and execute access.
#[derive(Clone, Copy)]
pub struct ReadWriteExecute;

impl AccessPermission for NoAccess {
    open spec fn spec_value() -> AccessRights {
        AccessRights { read: false, write: false, execute: false }
    }

    fn value(&self) -> AccessRights {
        AccessRights::none()
    }
}

impl AccessPermission for ReadOnly {
    open spec fn spec_value() -> AccessRights {
        AccessRights { read: true, write: false, execute: false }
    }

    fn value(&self) -> AccessRights {
        AccessRights::read()
    }
}

impl AccessPermission for WriteOnly {
    open spec fn spec_value() -> AccessRights {
        AccessRights { read: false, write: true, execute: false }
    }

    fn value(&self) -> AccessRights {
        AccessRights::write()
    }
}

impl AccessPermission for ExecuteOnly {
    open spec fn spec_value() -> AccessRights {
        AccessRights { read: false, write: false, execute: true }
    }

    fn value(&self) -> AccessRights {
        AccessRights::execute()
    }
}

impl AccessPermission for ReadWrite {
    open spec fn spec_value() -> AccessRights {
        AccessRights { read: true, write: true, execute: false }
    }

    fn value(&self) -> AccessRights {
        AccessRights::read_write()
    }
}

impl AccessPermission for ReadExecute {
    open spec fn spec_value() -> AccessRights {
        AccessRights { read: true, write: false, execute: true }
    }

    fn value(&self) -> AccessRights {
        AccessRights::read_exec()
    }
}

impl AccessPermission for WriteExecute {
    open spec fn spec_value() -> AccessRights {
        AccessRights { read: false, write: true, execute: true }
    }

    fn value(&self) -> AccessRights {
        AccessRights::write_exec()
    }
}

impl AccessPermission for ReadWriteExecute {
    open spec fn spec_value() -> AccessRights {
        AccessRights { read: true, write: true, execute: true }
    }

    fn value(&self) -> AccessRights {
        AccessRights::read_write_exec()
    }
}

/// Capabilities that grant read access.
pub trait ReadAllowedTrait: AccessPermission {
    /// Every capability carrying this marker grants read access.
    proof fn read_allowed()
        ensures
            Self::spec_value().read,
    ;
}

/// Capabilities that grant write access.
pub trait WriteAllowedTrait: AccessPermission {
    /// Every capability carrying this marker grants write access.
    proof fn write_allowed()
        ensures
            Self::spec_value().write,
    ;
}

/// Capabilities that grant execute access.
pub trait ExecuteAllowedTrait: AccessPermission {
    /// Every capability carrying this marker grants execute access.
    proof fn execute_allowed()
        ensures
            Self::spec_value().execute,
    ;
}

/// Capabilities that grant no access at all.
pub trait NoAccessAllowedTrait: AccessPermission {
    /// Every capability carrying this marker grants no access.
    proof fn no_access()
        ensures
            Self::spec_value() == (AccessRights { read: false, write: false, execute: false }),
    ;
}

/// Every capability, whatever it grants; used where a region may be created
/// with an arbitrary combination of rights.
pub trait AllAccessesTrait: AccessPermission {

}

impl ReadAllowedTrait for ReadOnly {
    proof fn read_allowed() {
    }
}

impl ReadAllowedTrait for ReadWrite {
    proof fn read_allowed() {
    }
}

impl ReadAllowedTrait for ReadExecute {
    proof fn read_allowed() {
    }
}

impl ReadAllowedTrait for ReadWriteExecute {
    proof fn read_allowed() {
    }
}

impl WriteAllowedTrait for WriteOnly {
    proof fn write_allowed() {
    }
}

impl WriteAllowedTrait for ReadWrite {
    proof fn write_allowed() {
    }
}

impl WriteAllowedTrait for WriteExecute {
    proof fn write_allowed() {
    }
}

impl WriteAllowedTrait for ReadWriteExecute {
    proof fn write_allowed() {
    }
}

impl ExecuteAllowedTrait for ExecuteOnly {
    proof fn execute_allowed() {
    }
}

impl ExecuteAllowedTrait for ReadExecute {
    proof fn execute_allowed() {
    }
}

impl ExecuteAllowedTrait for WriteExecute {
    proof fn execute_allowed() {
    }
}

impl ExecuteAllowedTrait for ReadWriteExecute {
    proof fn execute_allowed() {
    }
}

impl NoAccessAllowedTrait for NoAccess {
    proof fn no_access() {
    }
}

impl AllAccessesTrait for NoAccess {

}

impl AllAccessesTrait for ReadOnly {

}

impl AllAccessesTrait for WriteOnly {

}

impl AllAccessesTrait for ExecuteOnly {

}

impl AllAccessesTrait for ReadWrite {

}

impl AllAccessesTrait for ReadExecute {

}

impl AllAccessesTrait for WriteExecute {

}

impl AllAccessesTrait for ReadWriteExecute {

}

} // verus!
