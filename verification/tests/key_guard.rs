//! Key-guard scenarios: the LIFO permission stack, capability-typed
//! association scopes, and register restoration.

use mprotect_rs::access_rights::AccessRights;
use mprotect_rs::pkey::Pkru;
use mprotect_rs::pkey::PkeyAccessRights;
use mprotect_rs::pkeyguard::PkeyGuard;
use mprotect_rs::pkeyguard::ReadOnly;
use mprotect_rs::pkeyguard::ReadWrite;
use mprotect_rs::region::Mmap;
use mprotect_rs::regionguard::RegionGuard;

#[test]
fn association_narrows_the_key_and_release_restores_the_default() {
    // Key guard default read-write; associating under a read-only
    // capability pushes the write-disabling level; a read succeeds; the
    // release reverts the register to the default.
    let mut pkru = Pkru::new();
    let mut guard = PkeyGuard::new::<ReadWrite>(ReadWrite, 1, &mut pkru).unwrap();
    assert_eq!(pkru.get(1), PkeyAccessRights::EnableAccessWrite);

    let mut region =
        RegionGuard::<Mmap, u32>::new(mprotect_rs::access_rights::ReadWrite, 17u32).unwrap();
    let handler = guard
        .associate::<Mmap, u32, ReadOnly>(&mut region, &mut pkru)
        .unwrap();
    assert_eq!(pkru.get(1), PkeyAccessRights::DisableWrite);
    assert_eq!(region.get_region().pkey(), Some(1));

    let token = handler
        .region
        .ref_guard(&mut guard, &mut region, &mut pkru)
        .unwrap();
    assert_eq!(*token.get(&region).unwrap(), 17u32);

    handler.release(&mut guard, &mut pkru);
    assert_eq!(pkru.get(1), PkeyAccessRights::EnableAccessWrite);
}

#[test]
fn a_rights_switch_layers_a_scope_and_each_exit_restores_one_level() {
    // Associate under read-only (write disabled), switch the live scope
    // to read-write, write through it; releasing the new handle reverts
    // to the read-only layer, and releasing the handler reverts to the
    // default.
    let mut pkru = Pkru::new();
    let mut guard = PkeyGuard::new::<ReadWrite>(ReadWrite, 2, &mut pkru).unwrap();
    let mut region =
        RegionGuard::<Mmap, u32>::new(mprotect_rs::access_rights::ReadWrite, 0u32).unwrap();

    let mut handler = guard
        .associate::<Mmap, u32, ReadOnly>(&mut region, &mut pkru)
        .unwrap();
    assert_eq!(pkru.get(2), PkeyAccessRights::DisableWrite);

    let elevated = handler
        .set_access_rights::<ReadWrite>(&mut guard, &mut pkru)
        .unwrap();
    assert_eq!(pkru.get(2), PkeyAccessRights::EnableAccessWrite);
    assert!(handler.region.retired);

    let token = elevated
        .mut_ref_guard(&mut guard, &mut region, &mut pkru)
        .unwrap();
    token.set(&mut region, 42u32).unwrap();

    elevated.release(&mut guard, &mut pkru);
    assert_eq!(pkru.get(2), PkeyAccessRights::DisableWrite);

    handler.release(&mut guard, &mut pkru);
    assert_eq!(pkru.get(2), PkeyAccessRights::EnableAccessWrite);

    let reader = region.read().unwrap();
    assert_eq!(*reader.get(&region).unwrap(), 42u32);
}

#[test]
fn three_nested_scopes_unwind_to_the_default() {
    // A deeper nesting: three levels pushed, three releases in reverse
    // order; after the last one the register holds the default again.
    let mut pkru = Pkru::new();
    let mut guard = PkeyGuard::new::<ReadWrite>(ReadWrite, 3, &mut pkru).unwrap();
    let mut region =
        RegionGuard::<Mmap, u32>::new(mprotect_rs::access_rights::ReadWrite, 0u32).unwrap();

    let mut handler = guard
        .associate::<Mmap, u32, ReadOnly>(&mut region, &mut pkru)
        .unwrap();
    assert_eq!(pkru.get(3), PkeyAccessRights::DisableWrite);

    let second = handler
        .set_access_rights::<ReadWrite>(&mut guard, &mut pkru)
        .unwrap();
    assert_eq!(pkru.get(3), PkeyAccessRights::EnableAccessWrite);

    let third = handler
        .set_access_rights::<ReadOnly>(&mut guard, &mut pkru)
        .unwrap();
    assert_eq!(pkru.get(3), PkeyAccessRights::DisableWrite);

    third.release(&mut guard, &mut pkru);
    assert_eq!(pkru.get(3), PkeyAccessRights::EnableAccessWrite);
    second.release(&mut guard, &mut pkru);
    assert_eq!(pkru.get(3), PkeyAccessRights::DisableWrite);
    handler.release(&mut guard, &mut pkru);
    assert_eq!(pkru.get(3), PkeyAccessRights::EnableAccessWrite);
    assert_eq!(guard.permissions_stack.len(), 1);
}

#[test]
fn the_key_guard_reports_its_key() {
    let mut pkru = Pkru::new();
    let guard = PkeyGuard::new::<ReadOnly>(ReadOnly, 4, &mut pkru).unwrap();
    assert_eq!(guard.pkey().key(), 4);
    assert_eq!(pkru.get(4), PkeyAccessRights::DisableWrite);
    assert_eq!(guard.current_access_rights, PkeyAccessRights::DisableWrite);
}

#[test]
fn an_associated_region_keeps_its_page_rights() {
    let mut pkru = Pkru::new();
    let mut guard = PkeyGuard::new::<ReadWrite>(ReadWrite, 5, &mut pkru).unwrap();
    let mut region =
        RegionGuard::<Mmap, u32>::new(mprotect_rs::access_rights::ReadOnly, 9u32).unwrap();
    let before = region.access_rights();
    let handler = guard
        .associate::<Mmap, u32, ReadWrite>(&mut region, &mut pkru)
        .unwrap();
    assert_eq!(region.access_rights(), before);
    assert_eq!(region.get_region().pkey(), Some(5));
    handler.release(&mut guard, &mut pkru);
}
