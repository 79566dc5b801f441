//! Checked-access scenarios: the read/write gate over every capability,
//! protection-key narrowing, and the scoped save-and-restore wrappers.

use mprotect_rs::access_rights::AccessRights;
use mprotect_rs::pkey::PKey;
use mprotect_rs::pkey::Pkru;
use mprotect_rs::pkey::PkeyAccessRights;
use mprotect_rs::region::Jmalloc;
use mprotect_rs::region::Mmap;
use mprotect_rs::safeguard::GuardedProtectedMemory;
use mprotect_rs::safeguard::GuardedProtectionKey;
use mprotect_rs::safemem::ProtectedMemory;
use mprotect_rs::safemem::ProtectedMemoryError;

fn rights(read: bool, write: bool, execute: bool) -> AccessRights {
    AccessRights {
        read,
        write,
        execute,
    }
}

#[test]
fn reads_and_writes_succeed_exactly_when_the_rights_grant_them() {
    // Over every capability: a fresh region reads iff the capability
    // grants read and writes iff it grants write; every other attempt
    // fails with the matching violation.
    let pkru = Pkru::new();
    let cases: Vec<(bool, bool, bool)> = vec![
        (false, false, false),
        (true, false, false),
        (false, true, false),
        (false, false, true),
        (true, true, false),
        (true, false, true),
        (false, true, true),
        (true, true, true),
    ];
    for &(read, write, execute) in &cases {
        let mut memory =
            ProtectedMemory::<Mmap, u32>::new(5u32, rights(read, write, execute)).unwrap();
        match memory.read(&pkru) {
            Ok(guard) => {
                assert!(read);
                assert_eq!(*guard.value(), 5u32);
            }
            Err(e) => {
                assert!(!read);
                assert_eq!(e, ProtectedMemoryError::ReadAccessViolation);
            }
        }
        match memory.write(&pkru) {
            Ok(guard) => {
                assert!(write);
                guard.store(&mut memory, &pkru, 6u32).unwrap();
            }
            Err(e) => {
                assert!(!write);
                assert_eq!(e, ProtectedMemoryError::WriteAccessViolation);
            }
        }
    }
}

#[test]
fn writing_a_read_only_region_fails_before_any_guard_exists() {
    // Construct with read-only default: the write call itself fails with
    // the write violation, before any token is produced.
    let pkru = Pkru::new();
    let mut memory = ProtectedMemory::<Mmap, u32>::new(1u32, AccessRights::read()).unwrap();
    assert!(matches!(
        memory.write(&pkru),
        Err(ProtectedMemoryError::WriteAccessViolation)
    ));
    assert_eq!(*memory.read(&pkru).unwrap().value(), 1u32);
}

#[test]
fn a_disabled_key_blocks_access_whatever_the_pages_allow() {
    let mut pkru = Pkru::new();
    let key = PKey::new(1, PkeyAccessRights::EnableAccessWrite, &mut pkru).unwrap();
    let mut memory =
        ProtectedMemory::<Mmap, u32>::new_with_pkey(8u32, AccessRights::read_write(), &key)
            .unwrap();
    assert!(memory.read(&pkru).is_ok());
    assert!(memory.write(&pkru).is_ok());

    key.set_access_rights(&mut pkru, PkeyAccessRights::DisableWrite).unwrap();
    assert!(memory.read(&pkru).is_ok());
    assert!(matches!(
        memory.write(&pkru),
        Err(ProtectedMemoryError::WriteAccessViolation)
    ));

    key.set_access_rights(&mut pkru, PkeyAccessRights::DisableAccess).unwrap();
    assert!(matches!(
        memory.read(&pkru),
        Err(ProtectedMemoryError::ReadAccessViolation)
    ));
    assert!(matches!(
        memory.write(&pkru),
        Err(ProtectedMemoryError::WriteAccessViolation)
    ));
}

#[test]
fn a_store_through_a_stale_guard_fails_loudly() {
    let pkru = Pkru::new();
    let mut memory = ProtectedMemory::<Mmap, u32>::new(3u32, AccessRights::read_write()).unwrap();
    let guard = memory.write(&pkru).unwrap();
    memory.mprotect(AccessRights::read()).unwrap();
    assert_eq!(
        guard.store(&mut memory, &pkru, 4u32).unwrap_err(),
        ProtectedMemoryError::WriteAccessViolation
    );
    assert_eq!(*memory.read(&pkru).unwrap().value(), 3u32);
}

#[test]
fn rebinding_to_another_key_switches_the_gate() {
    // A region bound to an enabled key is writable; rebinding it to a
    // write-disabled key makes writes fail while reads keep working.
    let mut pkru = Pkru::new();
    let first = PKey::new(1, PkeyAccessRights::EnableAccessWrite, &mut pkru).unwrap();
    let second = PKey::new(2, PkeyAccessRights::DisableWrite, &mut pkru).unwrap();
    let mut memory =
        ProtectedMemory::<Mmap, u32>::new_with_pkey(7u32, AccessRights::read_write(), &first)
            .unwrap();
    assert!(memory.write(&pkru).is_ok());

    memory.pkey_mprotect(AccessRights::read(), &second).unwrap();
    assert_eq!(memory.pkey().unwrap().key(), 2);
    assert_eq!(memory.region_access_rights(), AccessRights::read());
    assert!(matches!(
        memory.write(&pkru),
        Err(ProtectedMemoryError::WriteAccessViolation)
    ));
    assert_eq!(*memory.read(&pkru).unwrap().value(), 7u32);
}

#[test]
fn nested_key_guards_restore_rights_in_reverse_order() {
    // A key under read-write; an outer scope narrows it to read-only, an
    // inner scope widens it back; each scope exit restores the level the
    // scope found.
    let mut pkru = Pkru::new();
    let key = PKey::new(1, PkeyAccessRights::EnableAccessWrite, &mut pkru).unwrap();
    let mut memory =
        ProtectedMemory::<Mmap, u32>::new_with_pkey(10u32, AccessRights::read_write(), &key)
            .unwrap();

    let outer = GuardedProtectionKey::new(&key, PkeyAccessRights::DisableWrite, &mut pkru)
        .unwrap();
    assert!(memory.read(&pkru).is_ok());
    assert!(matches!(
        memory.write(&pkru),
        Err(ProtectedMemoryError::WriteAccessViolation)
    ));

    let inner = GuardedProtectionKey::new(&key, PkeyAccessRights::EnableAccessWrite, &mut pkru)
        .unwrap();
    let guard = memory.write(&pkru).unwrap();
    guard.store(&mut memory, &pkru, 84u32).unwrap();

    inner.restore(&mut pkru);
    assert_eq!(pkru.get(1), PkeyAccessRights::DisableWrite);
    assert!(matches!(
        memory.write(&pkru),
        Err(ProtectedMemoryError::WriteAccessViolation)
    ));

    outer.restore(&mut pkru);
    assert_eq!(pkru.get(1), PkeyAccessRights::EnableAccessWrite);
    assert!(memory.write(&pkru).is_ok());
    assert_eq!(*memory.read(&pkru).unwrap().value(), 84u32);
}

#[test]
fn guarded_memory_restores_page_rights_on_release() {
    let pkru = Pkru::new();
    let memory = ProtectedMemory::<Jmalloc, u32>::new(2u32, AccessRights::read_write()).unwrap();
    let mut guarded = GuardedProtectedMemory::new(memory, AccessRights::read()).unwrap();
    assert_eq!(guarded.region_access_rights(), AccessRights::read());
    *guarded.as_mut() = 11u32;
    let memory = guarded.release();
    assert_eq!(memory.region_access_rights(), AccessRights::read_write());
    assert_eq!(*memory.read(&pkru).unwrap().value(), 11u32);
}

#[test]
fn mprotect_refreshes_the_tracked_rights() {
    let pkru = Pkru::new();
    let mut memory = ProtectedMemory::<Mmap, u32>::new(0u32, AccessRights::read()).unwrap();
    memory.mprotect(AccessRights::read_write()).unwrap();
    assert_eq!(memory.region_access_rights(), AccessRights::read_write());
    let guard = memory.write(&pkru).unwrap();
    guard.store(&mut memory, &pkru, 21u32).unwrap();
    assert_eq!(*memory.read(&pkru).unwrap().value(), 21u32);
    assert!(memory.pkey().is_none());
}
