//! Statuses, their numbers, and the bits of the rights.

use shield::info::{
    has_right, ShmInfo, SHM_PERMISSION_MAP, SHM_PERMISSION_READ, SHM_PERMISSION_TRANSFER,
    SHM_PERMISSION_WRITE,
};
use shield::Status;

#[test]
fn every_status_has_the_number_of_the_kernel() {
    assert_eq!(Status::Success.code(), sentry_uapi::systypes::Status::Ok as u32);
    assert_eq!(Status::Invalid.code(), sentry_uapi::systypes::Status::Invalid as u32);
    assert_eq!(Status::Denied.code(), sentry_uapi::systypes::Status::Denied as u32);
    assert_eq!(Status::NoEntity.code(), sentry_uapi::systypes::Status::NoEntity as u32);
    assert_eq!(Status::Busy.code(), sentry_uapi::systypes::Status::Busy as u32);
    assert_eq!(Status::AlreadyMapped.code(), sentry_uapi::systypes::Status::AlreadyMapped as u32);
    assert_eq!(Status::Critical.code(), sentry_uapi::systypes::Status::Critical as u32);
    assert_eq!(Status::Timeout.code(), sentry_uapi::systypes::Status::Timeout as u32);
    assert_eq!(Status::Again.code(), sentry_uapi::systypes::Status::Again as u32);
    assert_eq!(Status::Intr.code(), sentry_uapi::systypes::Status::Intr as u32);
    assert_eq!(Status::Deadlk.code(), sentry_uapi::systypes::Status::Deadlk as u32);
}

#[test]
fn codes_are_zero_to_ten() {
    let all = [
        Status::Success,
        Status::Invalid,
        Status::Denied,
        Status::NoEntity,
        Status::Busy,
        Status::AlreadyMapped,
        Status::Critical,
        Status::Timeout,
        Status::Again,
        Status::Intr,
        Status::Deadlk,
    ];
    for (number, status) in all.iter().enumerate() {
        assert_eq!(status.code(), number as u32);
        assert_eq!(Status::from_code(number as u32), Some(*status));
    }
}

#[test]
fn from_code_knows_eleven_numbers() {
    assert_eq!(Status::from_code(0), Some(Status::Success));
    assert_eq!(Status::from_code(4), Some(Status::Busy));
    assert_eq!(Status::from_code(10), Some(Status::Deadlk));
    assert_eq!(Status::from_code(11), None);
    assert_eq!(Status::from_code(255), None);
    assert_eq!(Status::from_code(u32::MAX), None);
}

#[test]
fn from_code_agrees_with_the_kernel_interface() {
    for code in 0u32..=10 {
        let theirs = sentry_uapi::systypes::Status::from(code);
        let ours = Status::from_code(code).unwrap();
        assert_eq!(ours.code(), theirs as u32);
    }
}

#[test]
fn rights_have_the_bits_of_the_kernel() {
    assert_eq!(SHM_PERMISSION_MAP, sentry_uapi::systypes::SHMPermission::Map as u32);
    assert_eq!(SHM_PERMISSION_READ, sentry_uapi::systypes::SHMPermission::Read as u32);
    assert_eq!(SHM_PERMISSION_WRITE, sentry_uapi::systypes::SHMPermission::Write as u32);
    assert_eq!(SHM_PERMISSION_TRANSFER, sentry_uapi::systypes::SHMPermission::Transfer as u32);
    assert_eq!(SHM_PERMISSION_MAP, u32::from(sentry_uapi::systypes::SHMPermission::Map));
    assert_eq!(SHM_PERMISSION_READ, u32::from(sentry_uapi::systypes::SHMPermission::Read));
    assert_eq!(SHM_PERMISSION_WRITE, u32::from(sentry_uapi::systypes::SHMPermission::Write));
    assert_eq!(
        SHM_PERMISSION_TRANSFER,
        u32::from(sentry_uapi::systypes::SHMPermission::Transfer)
    );
}

#[test]
fn rights_are_one_bit_each() {
    assert_eq!(SHM_PERMISSION_MAP, 0x1);
    assert_eq!(SHM_PERMISSION_READ, 0x2);
    assert_eq!(SHM_PERMISSION_WRITE, 0x4);
    assert_eq!(SHM_PERMISSION_TRANSFER, 0x8);
}

#[test]
fn has_right_tests_one_bit() {
    assert!(has_right(0x6, SHM_PERMISSION_READ));
    assert!(has_right(0x6, SHM_PERMISSION_WRITE));
    assert!(!has_right(0x6, SHM_PERMISSION_MAP));
    assert!(!has_right(0x6, SHM_PERMISSION_TRANSFER));
    assert!(!has_right(0, SHM_PERMISSION_READ));
    assert!(has_right(u32::MAX, SHM_PERMISSION_TRANSFER));
    assert!(!has_right(0xFFFF_FFF0, SHM_PERMISSION_TRANSFER));
    assert!(!has_right(0xF, 0));
}

#[test]
fn records_compare_field_by_field() {
    let record = ShmInfo { handle: 7, label: 0xAA, base: 0x2000_0000, len: 0x1000, perms: 0x6 };
    let copy = record;
    assert_eq!(record, copy);
    assert_ne!(record, ShmInfo { perms: 0x2, ..record });
    assert_ne!(record, ShmInfo { base: 0, ..record });
}
