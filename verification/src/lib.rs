//! Scoped, hardware-enforced memory access control.
//!
//! The crate models a region of memory whose read/write permissions can be
//! raised and lowered at runtime through OS page protection and, optionally,
//! a per-thread protection-key rights register.  The permission-management
//! layer — access-rights algebra, the region guard with its generation
//! counter, the protection-key register arithmetic, and the key guard's
//! LIFO permission stack — is verified here; the actual system calls and
//! register instructions are performed by an unverified driver that feeds
//! the values this library computes to the operating system.

use vstd::prelude::*;

pub mod access_rights;
pub mod pkey;
pub mod pkeyguard;
pub mod region;
pub mod regionguard;
pub mod safeguard;
pub mod safemem;

verus! {

/// OS error number carried by the failure variants.
pub type Errno = i32;

/// Errors raised by the OS-facing permission operations.
///
/// The variants carrying an `Errno` report a failed system call; the driver
/// that performs the real calls maps each failure to the matching variant.
/// `NoPkeyAssociated` is a logic error: a key-scoped page-permission change
/// was requested for a region that has no protection key bound to it.
#[derive(Debug)]
pub enum MprotectError {
    PkeyAllocFailed(Errno),
    MemoryAllocationFailed(Errno),
    MemoryDeallocationFailed(Errno),
    MprotectFailed(Errno),
    PkeyMprotectFailed(Errno),
    NoPkeyAssociated,
}

} // verus!
