//! The access-rights algebra and the register bit arithmetic on concrete
//! values.

use mprotect_rs::access_rights::AccessPermission;
use mprotect_rs::access_rights::AccessRights;
use mprotect_rs::pkey::PKey;
use mprotect_rs::pkey::Pkru;
use mprotect_rs::pkey::PkeyAccessRights;

#[test]
fn protection_masks_match_the_os_encoding() {
    assert_eq!(AccessRights::none().to_i32(), 0);
    assert_eq!(AccessRights::read().to_i32(), 1);
    assert_eq!(AccessRights::write().to_i32(), 2);
    assert_eq!(AccessRights::execute().to_i32(), 4);
    assert_eq!(AccessRights::read_write().to_i32(), 3);
    assert_eq!(AccessRights::read_exec().to_i32(), 5);
    assert_eq!(AccessRights::write_exec().to_i32(), 6);
    assert_eq!(AccessRights::read_write_exec().to_i32(), 7);
}

#[test]
fn add_and_minus_are_union_and_difference() {
    let r = AccessRights::read();
    let rw = r.add(AccessRights::write());
    assert_eq!(rw, AccessRights::read_write());
    assert_eq!(rw.minus(AccessRights::write()), AccessRights::read());
    assert_eq!(rw.minus(AccessRights::read_write()), AccessRights::none());
    assert_eq!(
        AccessRights::read_write_exec().minus(AccessRights::write()),
        AccessRights::read_exec()
    );
}

#[test]
fn has_checks_every_requested_right() {
    let rw = AccessRights::read_write();
    assert!(rw.has(AccessRights::read()));
    assert!(rw.has(AccessRights::write()));
    assert!(rw.has(AccessRights::read_write()));
    assert!(!rw.has(AccessRights::execute()));
    assert!(!rw.has(AccessRights::read_exec()));
    assert!(AccessRights::none().has(AccessRights::none()));
}

#[test]
fn capability_markers_carry_their_rights() {
    assert_eq!(
        mprotect_rs::access_rights::NoAccess.value(),
        AccessRights::none()
    );
    assert_eq!(
        mprotect_rs::access_rights::ReadOnly.value(),
        AccessRights::read()
    );
    assert_eq!(
        mprotect_rs::access_rights::WriteOnly.value(),
        AccessRights::write()
    );
    assert_eq!(
        mprotect_rs::access_rights::ExecuteOnly.value(),
        AccessRights::execute()
    );
    assert_eq!(
        mprotect_rs::access_rights::ReadWrite.value(),
        AccessRights::read_write()
    );
    assert_eq!(
        mprotect_rs::access_rights::ReadExecute.value(),
        AccessRights::read_exec()
    );
    assert_eq!(
        mprotect_rs::access_rights::WriteExecute.value(),
        AccessRights::write_exec()
    );
    assert_eq!(
        mprotect_rs::access_rights::ReadWriteExecute.value(),
        AccessRights::read_write_exec()
    );
}

#[test]
fn register_fields_encode_two_bits_per_key() {
    let mut pkru = Pkru::new();
    assert_eq!(pkru.bits, 0);
    pkru.set(1, PkeyAccessRights::DisableWrite);
    assert_eq!(pkru.bits, 0b1000);
    assert_eq!(pkru.get(1), PkeyAccessRights::DisableWrite);
    assert_eq!(pkru.get(0), PkeyAccessRights::EnableAccessWrite);
    pkru.set(3, PkeyAccessRights::DisableAccess);
    assert_eq!(pkru.bits, 0b1000000 | 0b1000);
    assert_eq!(pkru.get(3), PkeyAccessRights::DisableAccess);
    assert_eq!(pkru.get(1), PkeyAccessRights::DisableWrite);
    pkru.set(1, PkeyAccessRights::EnableAccessWrite);
    assert_eq!(pkru.get(1), PkeyAccessRights::EnableAccessWrite);
    assert_eq!(pkru.get(3), PkeyAccessRights::DisableAccess);
}

#[test]
fn rights_codes_round_trip_and_code_three_disables_access() {
    assert_eq!(PkeyAccessRights::EnableAccessWrite.bits(), 0);
    assert_eq!(PkeyAccessRights::DisableAccess.bits(), 1);
    assert_eq!(PkeyAccessRights::DisableWrite.bits(), 2);
    assert_eq!(
        PkeyAccessRights::from_bits(0),
        PkeyAccessRights::EnableAccessWrite
    );
    assert_eq!(
        PkeyAccessRights::from_bits(1),
        PkeyAccessRights::DisableAccess
    );
    assert_eq!(
        PkeyAccessRights::from_bits(2),
        PkeyAccessRights::DisableWrite
    );
    assert_eq!(
        PkeyAccessRights::from_bits(3),
        PkeyAccessRights::DisableAccess
    );
}

#[test]
fn a_key_writes_only_its_own_field() {
    let mut pkru = Pkru::new();
    let key = match PKey::new(2, PkeyAccessRights::DisableAccess, &mut pkru) {
        Ok(k) => k,
        Err(_) => panic!("key creation cannot fail"),
    };
    assert_eq!(key.key(), 2);
    assert_eq!(key.get_access_rights(&pkru), PkeyAccessRights::DisableAccess);
    pkru.set(5, PkeyAccessRights::DisableWrite);
    assert!(key.set_access_rights(&mut pkru, PkeyAccessRights::EnableAccessWrite).is_ok());
    assert_eq!(key.get_access_rights(&pkru), PkeyAccessRights::EnableAccessWrite);
    assert_eq!(pkru.get(5), PkeyAccessRights::DisableWrite);
}
