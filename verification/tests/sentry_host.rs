//! The kernel itself, as `sentry_uapi` stands in for it off target: every
//! request is granted, and the exchange area holds what was last put there.

use shield::info::ShmInfo;
use shield::sentry::{Sentry, EXCHANGE_AREA_LEN};
use shield::session::Session;
use shield::shm::{Mappable, SentryShm, Shm, Unmappable, Unmapped};
use shield::status::Status;
use shield::transport::Transport;

/// Puts the record of the shared memory 0xAA into the exchange area, as the
/// kernel lays it out.
fn leave_record_in_exchange_area() -> ShmInfo {
    let record = ShmInfo { handle: 7, label: 0xAA, base: 0x2000_0000, len: 0x1000, perms: 0x6 };
    let mut bytes = Vec::new();
    bytes.extend_from_slice(&record.handle.to_ne_bytes());
    bytes.extend_from_slice(&record.label.to_ne_bytes());
    bytes.extend_from_slice(&record.base.to_ne_bytes());
    bytes.extend_from_slice(&record.len.to_ne_bytes());
    bytes.extend_from_slice(&record.perms.to_ne_bytes());
    while bytes.len() < std::mem::size_of::<sentry_uapi::systypes::shm::ShmInfo>() {
        bytes.push(0);
    }
    let mut kernel = Sentry;
    assert_eq!(kernel.copy_bytes_to_kernel(&bytes), Ok(Status::Success));
    record
}

/// Fills the exchange area with one byte, so that a handle read from it is the
/// same wherever the area lies.
fn fill_exchange_area(byte: u8) {
    let bytes = [byte; 128];
    let mut kernel = Sentry;
    assert_eq!(kernel.copy_bytes_to_kernel(&bytes), Ok(Status::Success));
}

#[test]
fn requests_are_granted_off_target() {
    let mut kernel = Sentry;
    assert_eq!(kernel.get_shm_handle(0xAA), Status::Success);
    assert_eq!(kernel.get_process_handle(0x12), Status::Success);
    assert_eq!(kernel.shm_get_infos(7), Status::Success);
    assert_eq!(kernel.shm_set_credential(7, 3, 0x6), Status::Success);
    assert_eq!(kernel.map_shm(7), Status::Success);
    assert_eq!(kernel.unmap_shm(7), Status::Success);
    assert_eq!(kernel.map_shm(1), Status::Success);
    assert_eq!(kernel.unmap_shm(4), Status::Success);
    assert_eq!(kernel.shm_get_infos(2), Status::Success);
}

#[test]
fn log_refuses_more_than_the_exchange_area_holds() {
    let mut kernel = Sentry;
    assert_eq!(kernel.log(0), Status::Success);
    assert_eq!(kernel.log(4), Status::Success);
    assert_eq!(kernel.log(128), Status::Success);
    assert_eq!(kernel.log(129), Status::Invalid);
    assert_eq!(kernel.log(EXCHANGE_AREA_LEN), Status::Success);
    assert_eq!(kernel.log(EXCHANGE_AREA_LEN + 1), Status::Invalid);
    assert_eq!(kernel.log(usize::MAX), Status::Invalid);
}

#[test]
fn the_exchange_area_is_as_long_as_the_kernel_interface_says() {
    assert_eq!(EXCHANGE_AREA_LEN, sentry_uapi::length());
    assert_eq!(EXCHANGE_AREA_LEN, 128);
}

#[test]
fn copies_report_success_whatever_they_copy() {
    let mut kernel = Sentry;
    assert_eq!(kernel.copy_bytes_to_kernel(&[]), Ok(Status::Success));
    assert_eq!(kernel.copy_bytes_to_kernel(&[0xFF; 300]), Ok(Status::Success));
    let mut info = ShmInfo { handle: 1, label: 2, base: 3, len: 4, perms: 5 };
    assert_eq!(kernel.copy_info_from_kernel(&mut info), Ok(Status::Success));
    assert_eq!(info.handle, u32::MAX);
    assert_eq!(info.base, usize::MAX);
    let mut handle = 0u32;
    assert_eq!(kernel.copy_handle_from_kernel(&mut handle), Ok(Status::Success));
    assert_eq!(handle, u32::MAX);
}

#[test]
fn a_handle_is_read_from_the_exchange_area() {
    fill_exchange_area(0x07);
    let mut kernel = Sentry;
    let mut handle = 0u32;
    assert_eq!(kernel.copy_handle_from_kernel(&mut handle), Ok(Status::Success));
    assert_eq!(handle, 0x0707_0707);
    fill_exchange_area(0x2A);
    assert_eq!(kernel.copy_handle_from_kernel(&mut handle), Ok(Status::Success));
    assert_eq!(handle, 0x2A2A_2A2A);
}

#[test]
fn a_record_is_read_from_the_exchange_area() {
    let record = leave_record_in_exchange_area();
    let mut kernel = Sentry;
    let mut info = ShmInfo { handle: 0, label: 0, base: 0, len: 0, perms: 0 };
    assert_eq!(kernel.copy_info_from_kernel(&mut info), Ok(Status::Success));
    assert_eq!(info, record);
}

#[test]
fn bytes_go_into_the_exchange_area() {
    let mut kernel = Sentry;
    assert_eq!(kernel.copy_bytes_to_kernel(&[1, 0, 0, 0, 2, 0, 0, 0]), Ok(Status::Success));
    let mut info = ShmInfo { handle: 9, label: 9, base: 9, len: 9, perms: 9 };
    assert_eq!(kernel.copy_info_from_kernel(&mut info), Ok(Status::Success));
    assert_eq!(info.handle, u32::from_ne_bytes([1, 0, 0, 0]));
    assert_eq!(info.label, u32::from_ne_bytes([2, 0, 0, 0]));
}

#[test]
fn get_handle_reads_what_the_kernel_left() {
    fill_exchange_area(0x11);
    let mut session = Session::new(Sentry);
    assert_eq!(Shm::<Unmapped>::get_handle(&mut session, 0xAA), Ok(0x1111_1111));
    assert_eq!(shield::process::get_process_handle(&mut session, 0x12), Ok(0x1111_1111));
}

#[test]
fn lifecycle_on_the_host_kernel() {
    fill_exchange_area(0x07);
    let mut session = Session::new(Sentry);
    let mut shm = Shm::<Unmapped>::new(&mut session, 0xAA).unwrap();
    assert_eq!(shm.handle(), Some(0x0707_0707));
    assert_eq!(shm.label(), Some(0xAA));
    let record = leave_record_in_exchange_area();
    assert_eq!(shm.get_info(&mut session), Ok(record));
    assert_eq!(shm.get_base(&mut session), Ok(0x2000_0000));
    assert_eq!(shm.get_len(&mut session), Ok(0x1000));
    assert_eq!(shm.get_creds(&mut session), Ok(0x6));
    assert!(shm.is_readable(&mut session));
    assert!(shm.is_writable(&mut session));
    assert!(!shm.is_mappable(&mut session));
    assert!(!shm.is_transferable(&mut session));
    assert_eq!(shm.set_creds(&mut session, 3, 0x7), Ok(Status::Success));
    assert_eq!(shm.perms(), Some(0x7));
    let mut mapped = shm.map(&mut session, 3).unwrap();
    assert_eq!(mapped.mapped_to(), Some(3));
    assert_eq!(shm.map(&mut session, 4).unwrap_err(), Status::Busy);
    assert_eq!(mapped.set_creds(&mut session, 3, 0x7), Err(Status::Busy));
    let unmapped = mapped.unmap(&mut session).unwrap();
    assert_eq!(unmapped.perms(), None);
    assert_eq!(unmapped.handle(), Some(0x0707_0707));
    assert_eq!(mapped.unmap(&mut session).unwrap_err(), Status::Invalid);
}

#[test]
fn print_reaches_the_host_kernel() {
    let mut session = Session::new(Sentry);
    shield::print::_print(&mut session, "\u{7}\u{7}\u{7}\u{7}");
    let mut kernel = session.into_inner();
    let mut handle = 0u32;
    assert_eq!(kernel.copy_handle_from_kernel(&mut handle), Ok(Status::Success));
    assert_eq!(handle & 0xFF, 0x07);
}
