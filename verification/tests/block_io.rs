use patina::error::EfiError;
use patina_components::block_io::{
    write_partition_raw, BlockIoAction, BlockIoReply, BlockMedia, RawWrite,
};
use patina_components::status::Next;
use r_efi::efi;

fn ok() -> BlockIoReply {
    BlockIoReply::status_only(efi::Status::SUCCESS.as_usize())
}

fn test_media(read_only: bool, present: bool) -> BlockMedia {
    BlockMedia { media_id: 0xCAFEBABE, media_present: present, read_only, block_size: 512 }
}

/// Drives a write of `data` up to the point where the BlockIo protocol was located, and
/// returns the state that waits for the protocol to open.
fn write_until_open(data: Vec<u8>) -> RawWrite {
    let m = match write_partition_raw(data) {
        Next::Perform(m, BlockIoAction::LocateBlockIo) => m,
        _ => panic!("a non-empty write must start by locating BlockIo"),
    };
    match m.step(&ok()) {
        Next::Perform(m, BlockIoAction::OpenBlockIo) => m,
        _ => panic!("a located partition must be opened next"),
    }
}

fn check_empty_data_is_noop() {
    match write_partition_raw(Vec::new()) {
        Next::Finished(r) => assert!(r.is_ok(), "empty data must be a no-op"),
        Next::Perform(..) => panic!("empty data must not touch the device"),
    }
}

#[test]
fn block_io_test_write_partition_raw_empty_data_is_noop() {
    check_empty_data_is_noop();
}

#[test]
fn partition_test_write_partition_raw_empty_data_is_noop() {
    check_empty_data_is_noop();
}

fn check_locate_failure() {
    let m = match write_partition_raw(vec![0xAB; 16]) {
        Next::Perform(m, _) => m,
        Next::Finished(_) => panic!("a non-empty write must make a call"),
    };
    match m.step(&BlockIoReply::status_only(efi::Status::NOT_FOUND.as_usize())) {
        Next::Finished(r) => {
            assert!(r.is_err(), "missing BlockIo on path must surface as Err");
            assert_eq!(r, Err(EfiError::NotFound));
        }
        Next::Perform(..) => panic!("a failed locate must finish the write"),
    }
}

#[test]
fn block_io_test_write_partition_raw_locate_failure() {
    check_locate_failure();
}

#[test]
fn partition_test_write_partition_raw_locate_failure() {
    check_locate_failure();
}

fn check_handle_protocol_failure() {
    let m = write_until_open(vec![0xAB; 16]);
    match m.step(&BlockIoReply::status_only(efi::Status::UNSUPPORTED.as_usize())) {
        Next::Finished(r) => {
            assert!(r.is_err(), "missing BlockIo interface on located handle must surface as Err");
            assert_eq!(r, Err(EfiError::Unsupported));
        }
        Next::Perform(..) => panic!("a failed open must finish the write"),
    }
}

#[test]
fn block_io_test_write_partition_raw_handle_protocol_failure() {
    check_handle_protocol_failure();
}

#[test]
fn partition_test_write_partition_raw_handle_protocol_failure() {
    check_handle_protocol_failure();
}

fn check_writes_to_lba_zero_with_aligned_size() {
    // Data size 600 should round up to 1024 (two 512-byte blocks).
    let m = write_until_open(vec![0xAB; 600]);
    let reply = BlockIoReply { status: efi::Status::SUCCESS.as_usize(), media: test_media(false, true) };
    let (m, media_id, lba, buffer) = match m.step(&reply) {
        Next::Perform(m, BlockIoAction::WriteBlocks { media_id, lba, buffer }) => (m, media_id, lba, buffer),
        _ => panic!("an opened, writable medium must receive WriteBlocks"),
    };
    let m = match m.step(&ok()) {
        Next::Perform(m, BlockIoAction::FlushBlocks) => m,
        _ => panic!("FlushBlocks must run after WriteBlocks"),
    };
    let result = match m.step(&ok()) {
        Next::Finished(r) => r,
        Next::Perform(..) => panic!("the flush answer must finish the write"),
    };
    assert!(result.is_ok(), "successful write+flush must produce Ok");
    assert_eq!(media_id, 0xCAFEBABE, "media_id forwarded");
    assert_eq!(lba, 0, "writes start at LBA 0");
    assert_eq!(buffer.len(), 1024, "600 bytes round up to 2 blocks of 512");
    assert!(buffer[..600].iter().all(|&b| b == 0xAB));
    assert!(buffer[600..].iter().all(|&b| b == 0));
}

#[test]
fn block_io_test_write_partition_raw_inner_writes_to_lba_zero_with_aligned_size() {
    check_writes_to_lba_zero_with_aligned_size();
}

#[test]
fn partition_test_write_partition_raw_inner_writes_to_lba_zero_with_aligned_size() {
    check_writes_to_lba_zero_with_aligned_size();
}

fn check_read_only_rejected() {
    let m = write_until_open(vec![0xAB; 16]);
    let reply = BlockIoReply { status: efi::Status::SUCCESS.as_usize(), media: test_media(true, true) };
    match m.step(&reply) {
        Next::Finished(r) => {
            assert!(r.is_err(), "read-only media must surface as Err before WriteBlocks runs");
            assert_eq!(r, Err(EfiError::WriteProtected));
        }
        Next::Perform(..) => panic!("read-only media must not be written"),
    }
}

#[test]
fn block_io_test_write_partition_raw_inner_read_only_rejected() {
    check_read_only_rejected();
}

#[test]
fn partition_test_write_partition_raw_inner_read_only_rejected() {
    check_read_only_rejected();
}

fn check_writeblocks_failure_propagates() {
    let m = write_until_open(vec![0xAB; 16]);
    let reply = BlockIoReply { status: efi::Status::SUCCESS.as_usize(), media: test_media(false, true) };
    let m = match m.step(&reply) {
        Next::Perform(m, BlockIoAction::WriteBlocks { .. }) => m,
        _ => panic!("an opened, writable medium must receive WriteBlocks"),
    };
    match m.step(&BlockIoReply::status_only(efi::Status::DEVICE_ERROR.as_usize())) {
        Next::Finished(r) => {
            assert!(r.is_err(), "WriteBlocks DEVICE_ERROR must surface as Err");
            assert_eq!(r, Err(EfiError::DeviceError));
        }
        Next::Perform(..) => panic!("a failed write must not be flushed"),
    }
}

#[test]
fn block_io_test_write_partition_raw_inner_writeblocks_failure_propagates() {
    check_writeblocks_failure_propagates();
}

#[test]
fn partition_test_write_partition_raw_inner_writeblocks_failure_propagates() {
    check_writeblocks_failure_propagates();
}

#[test]
fn raw_write_without_media_is_no_media() {
    let m = write_until_open(vec![1; 4]);
    let reply = BlockIoReply { status: efi::Status::SUCCESS.as_usize(), media: test_media(false, false) };
    match m.step(&reply) {
        Next::Finished(r) => assert_eq!(r, Err(EfiError::NoMedia)),
        Next::Perform(..) => panic!("absent media must not be written"),
    }
}

#[test]
fn raw_write_with_zero_block_size_is_device_error() {
    let m = write_until_open(vec![1; 4]);
    let media = BlockMedia { media_id: 1, media_present: true, read_only: false, block_size: 0 };
    match m.step(&BlockIoReply { status: efi::Status::SUCCESS.as_usize(), media }) {
        Next::Finished(r) => assert_eq!(r, Err(EfiError::DeviceError)),
        Next::Perform(..) => panic!("a zero block size must not be written"),
    }
}

#[test]
fn raw_write_of_whole_blocks_is_not_padded() {
    let m = write_until_open(vec![7; 1024]);
    let reply = BlockIoReply { status: efi::Status::SUCCESS.as_usize(), media: test_media(false, true) };
    match m.step(&reply) {
        Next::Perform(_, BlockIoAction::WriteBlocks { buffer, .. }) => assert_eq!(buffer, vec![7; 1024]),
        _ => panic!("expected WriteBlocks"),
    }
}

#[test]
fn raw_write_flush_failure_propagates() {
    let m = write_until_open(vec![1; 10]);
    let reply = BlockIoReply { status: efi::Status::SUCCESS.as_usize(), media: test_media(false, true) };
    let m = match m.step(&reply) {
        Next::Perform(m, _) => m,
        Next::Finished(_) => panic!("expected WriteBlocks"),
    };
    let m = match m.step(&ok()) {
        Next::Perform(m, BlockIoAction::FlushBlocks) => m,
        _ => panic!("expected FlushBlocks"),
    };
    match m.step(&BlockIoReply::status_only(efi::Status::MEDIA_CHANGED.as_usize())) {
        Next::Finished(r) => assert_eq!(r, Err(EfiError::MediaChanged)),
        Next::Perform(..) => panic!("the flush answer must finish the write"),
    }
}
