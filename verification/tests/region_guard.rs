//! Region-guard scenarios: lazy elevation, narrowing on release, token
//! idempotence, and stale-token failure.

use mprotect_rs::access_rights::AccessRights;
use mprotect_rs::access_rights::ReadExecute;
use mprotect_rs::access_rights::ReadOnly;
use mprotect_rs::access_rights::ReadWrite;
use mprotect_rs::access_rights::WriteExecute;
use mprotect_rs::region::Mmap;
use mprotect_rs::regionguard::GuardError;
use mprotect_rs::regionguard::RegionGuard;

fn new_region(
    rights_read: bool,
    rights_write: bool,
) -> RegionGuard<Mmap, u32> {
    let r = if rights_read && rights_write {
        RegionGuard::<Mmap, u32>::new(ReadWrite, 0u32)
    } else {
        RegionGuard::<Mmap, u32>::new(ReadOnly, 0u32)
    };
    match r {
        Ok(g) => g,
        Err(_) => panic!("region creation cannot fail"),
    }
}

#[test]
fn read_write_default_keeps_rights_through_a_write() {
    // Construct with read-write default, write 42, drop the write token:
    // the current rights stay exactly read-write, and a read returns 42.
    let mut region = new_region(true, true);
    let token = region.write().unwrap();
    token.set(&mut region, 42u32).unwrap();
    region.release_mut(token);
    assert_eq!(region.access_rights(), AccessRights::read_write());
    let reader = region.read().unwrap();
    assert_eq!(*reader.get(&region).unwrap(), 42u32);
}

#[test]
fn write_elevation_round_trips_the_rights() {
    // Elevating a read-only region for a write token and releasing the
    // token leaves the rights exactly as they were before the elevation.
    let mut region = new_region(true, false);
    assert_eq!(region.access_rights(), AccessRights::read());
    let token = region.write().unwrap();
    assert_eq!(region.access_rights(), AccessRights::read_write());
    token.set(&mut region, 7u32).unwrap();
    region.release_mut(token);
    assert_eq!(region.access_rights(), AccessRights::read());
    assert_eq!(region.generation, 2);
}

#[test]
fn read_is_idempotent_when_read_is_already_granted() {
    // Two read requests on a region that already has read rights yield
    // two valid tokens sharing one generation; dropping one invalidates
    // nothing and changes no rights.
    let mut region = new_region(true, false);
    let first = region.read().unwrap();
    let second = region.read().unwrap();
    assert_eq!(first.gen, second.gen);
    assert!(first.is_valid(&region));
    assert!(second.is_valid(&region));
    let rights_before = region.access_rights();
    region.release_ref(first);
    assert_eq!(region.access_rights(), rights_before);
    assert!(second.is_valid(&region));
    assert_eq!(*second.get(&region).unwrap(), 0u32);
}

#[test]
fn a_permission_change_invalidates_outstanding_tokens() {
    // A token issued before a permission change must fail afterwards,
    // never return a stale value.
    let mut region = new_region(true, false);
    let reader = region.read().unwrap();
    assert!(reader.is_valid(&region));
    let writer = region.write().unwrap();
    assert!(!reader.is_valid(&region));
    assert!(matches!(
        reader.get(&region),
        Err(GuardError::InvalidGeneration)
    ));
    writer.set(&mut region, 9u32).unwrap();
    region.release_mut(writer);
    let fresh = region.read().unwrap();
    assert_eq!(*fresh.get(&region).unwrap(), 9u32);
}

#[test]
fn invalidate_marks_every_token_outdated() {
    let mut region = new_region(true, true);
    let reader = region.read().unwrap();
    region.invalidate();
    assert!(!reader.is_valid(&region));
    assert!(matches!(
        reader.get(&region),
        Err(GuardError::InvalidGeneration)
    ));
    let writer = region.write().unwrap();
    region.invalidate();
    assert!(matches!(
        writer.set(&mut region, 1u32),
        Err(GuardError::InvalidGeneration)
    ));
    let check = region.read().unwrap();
    assert_eq!(*check.get(&region).unwrap(), 0u32);
}

#[test]
fn a_stale_write_token_narrows_nothing_on_release() {
    let mut region = new_region(true, false);
    let writer = region.write().unwrap();
    region.invalidate();
    region.release_mut(writer);
    // The stale token must not touch the escalated rights.
    assert_eq!(region.access_rights(), AccessRights::read_write());
}

#[test]
fn with_runs_the_closure_only_on_a_valid_token() {
    let mut region = new_region(true, true);
    let writer = region.write().unwrap();
    writer.set(&mut region, 30u32).unwrap();
    region.release_mut(writer);
    let reader = region.read().unwrap();
    let doubled = reader.with(&region, |v: &u32| *v * 2).unwrap();
    assert_eq!(doubled, 60u32);
    region.invalidate();
    assert!(matches!(
        reader.with(&region, |v: &u32| *v * 2),
        Err(GuardError::InvalidGeneration)
    ));
}

#[test]
fn deref_escalates_an_arbitrary_read_capability() {
    let mut region = new_region(true, false);
    let token = region.deref(ReadExecute).unwrap();
    assert_eq!(region.access_rights(), AccessRights::read_exec());
    assert_eq!(*token.get(&region).unwrap(), 0u32);
    region.release_ref(token);
    assert_eq!(region.access_rights(), AccessRights::read());
}

#[test]
fn deref_mut_escalates_an_arbitrary_write_capability() {
    let mut region = new_region(true, false);
    let token = region.deref_mut(WriteExecute).unwrap();
    assert_eq!(
        region.access_rights(),
        AccessRights {
            read: true,
            write: true,
            execute: true
        }
    );
    token.set(&mut region, 3u32).unwrap();
    region.release_mut(token);
    // Exactly the added rights leave again; read was there before.
    assert_eq!(region.access_rights(), AccessRights::read());
    assert_eq!(*region.read().unwrap().get(&region).unwrap(), 3u32);
}

#[test]
fn region_reports_its_length_and_no_bound_key() {
    let region = new_region(true, true);
    assert_eq!(region.get_region_len(), core::mem::size_of::<u32>());
    assert_eq!(region.get_region().pkey(), None);
    assert_eq!(region.get_region().len(), core::mem::size_of::<u32>());
}
