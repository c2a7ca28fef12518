use patina::error::EfiError;
use patina_components::file_system::{
    encode_ucs2_null_terminated, read_partition_file, FILE_MODE_READ, FileAction, FileReply, ReadPartitionFile,
};
use patina_components::status::Next;
use r_efi::efi;

#[test]
fn test_encode_ucs2_null_terminated_basic() {
    let encoded = encode_ucs2_null_terminated("AB");
    assert_eq!(encoded, vec![b'A' as u16, b'B' as u16, 0]);
}

#[test]
fn test_encode_ucs2_null_terminated_path() {
    // \EFI\BOOT\BOOTX64.EFI — backslash 0x5C, characters as ASCII, trailing null.
    let encoded = encode_ucs2_null_terminated(r"\EFI\BOOT\BOOTX64.EFI");
    assert_eq!(encoded.len(), 22, "21 chars + null terminator");
    assert_eq!(encoded[0], 0x5C, "starts with backslash");
    assert_eq!(*encoded.last().unwrap(), 0, "null-terminated");
}

#[test]
fn test_encode_ucs2_null_terminated_empty() {
    let encoded = encode_ucs2_null_terminated("");
    assert_eq!(encoded, vec![0u16]);
}

#[test]
fn encode_matches_std_utf16_with_surrogates() {
    let s = "a\u{e9}\u{20ac}\u{1F600}\u{10FFFF}z";
    let mut expected: Vec<u16> = s.encode_utf16().collect();
    expected.push(0);
    let encoded = encode_ucs2_null_terminated(s);
    assert_eq!(encoded, expected);
    // U+1F600 is the surrogate pair D83D DE00.
    assert_eq!(&encoded[3..5], &[0xD83D, 0xDE00]);
}

fn ok() -> FileReply {
    FileReply::status_only(efi::Status::SUCCESS.as_usize())
}

fn expect_perform(
    next: Next<ReadPartitionFile, FileAction, Vec<u8>>,
    action: FileAction,
) -> ReadPartitionFile {
    match next {
        Next::Perform(m, a) => {
            assert_eq!(a, action);
            m
        }
        Next::Finished(_) => panic!("expected {:?}", action),
    }
}

fn expect_finished(next: Next<ReadPartitionFile, FileAction, Vec<u8>>) -> Result<Vec<u8>, EfiError> {
    match next {
        Next::Finished(r) => r,
        Next::Perform(_, a) => panic!("expected the read to finish, got {:?}", a),
    }
}

#[test]
fn test_read_partition_file_locate_failure() {
    let m = expect_perform(read_partition_file(r"\EFI\BOOT\BOOTX64.EFI"), FileAction::LocateFileSystem);
    let r = expect_finished(m.step(FileReply::status_only(efi::Status::NOT_FOUND.as_usize())));
    assert!(r.is_err(), "missing SimpleFileSystem on path must surface as Err");
    assert_eq!(r, Err(EfiError::NotFound));
}

#[test]
fn test_read_partition_file_handle_protocol_failure() {
    let m = expect_perform(read_partition_file(r"\EFI\BOOT\BOOTX64.EFI"), FileAction::LocateFileSystem);
    let m = expect_perform(m.step(ok()), FileAction::OpenFileSystem);
    let r = expect_finished(m.step(FileReply::status_only(efi::Status::UNSUPPORTED.as_usize())));
    assert!(r.is_err(), "missing SimpleFileSystem interface on located handle must surface as Err");
    assert_eq!(r, Err(EfiError::Unsupported));
}

/// Drives a read to the point where the file is open.
fn read_until_file_open(path: &str) -> ReadPartitionFile {
    let m = expect_perform(read_partition_file(path), FileAction::LocateFileSystem);
    let m = expect_perform(m.step(ok()), FileAction::OpenFileSystem);
    let m = expect_perform(m.step(ok()), FileAction::OpenVolume);
    let m = expect_perform(m.step(ok()), FileAction::OpenFile { mode: FILE_MODE_READ, attributes: 0 });
    assert_eq!(m.path(), &encode_ucs2_null_terminated(path));
    expect_perform(m.step(ok()), FileAction::SetPosition { position: u64::MAX })
}

#[test]
fn read_partition_file_reads_whole_file_and_closes_both_handles() {
    let m = read_until_file_open("\\a.txt");
    let m = expect_perform(m.step(ok()), FileAction::GetPosition);
    let position = FileReply { status: 0, position: 5, buffer: Vec::new(), read_size: 0 };
    let m = expect_perform(m.step(position), FileAction::SetPosition { position: 0 });
    let m = expect_perform(m.step(ok()), FileAction::Read { buffer_size: 5 });
    let read = FileReply { status: 0, position: 0, buffer: vec![1, 2, 3, 4, 5], read_size: 5 };
    let m = expect_perform(m.step(read), FileAction::CloseFile);
    let m = expect_perform(m.step(ok()), FileAction::CloseRoot);
    let r = expect_finished(m.step(ok()));
    assert_eq!(r, Ok(vec![1, 2, 3, 4, 5]));
}

#[test]
fn read_partition_file_keeps_only_bytes_read() {
    let m = read_until_file_open("f");
    let m = expect_perform(m.step(ok()), FileAction::GetPosition);
    let position = FileReply { status: 0, position: 4, buffer: Vec::new(), read_size: 0 };
    let m = expect_perform(m.step(position), FileAction::SetPosition { position: 0 });
    let m = expect_perform(m.step(ok()), FileAction::Read { buffer_size: 4 });
    let read = FileReply { status: 0, position: 0, buffer: vec![9, 8, 0, 0], read_size: 2 };
    let m = expect_perform(m.step(read), FileAction::CloseFile);
    let m = expect_perform(m.step(ok()), FileAction::CloseRoot);
    assert_eq!(expect_finished(m.step(ok())), Ok(vec![9, 8]));
}

#[test]
fn read_partition_file_open_failure_closes_root_only() {
    let m = expect_perform(read_partition_file("missing"), FileAction::LocateFileSystem);
    let m = expect_perform(m.step(ok()), FileAction::OpenFileSystem);
    let m = expect_perform(m.step(ok()), FileAction::OpenVolume);
    let m = expect_perform(m.step(ok()), FileAction::OpenFile { mode: FILE_MODE_READ, attributes: 0 });
    let m = expect_perform(m.step(FileReply::status_only(efi::Status::NOT_FOUND.as_usize())), FileAction::CloseRoot);
    assert_eq!(expect_finished(m.step(ok())), Err(EfiError::NotFound));
}

#[test]
fn read_partition_file_read_failure_closes_file_then_root() {
    let m = read_until_file_open("f");
    let m = expect_perform(m.step(ok()), FileAction::GetPosition);
    let position = FileReply { status: 0, position: 4, buffer: Vec::new(), read_size: 0 };
    let m = expect_perform(m.step(position), FileAction::SetPosition { position: 0 });
    let m = expect_perform(m.step(ok()), FileAction::Read { buffer_size: 4 });
    let m = expect_perform(m.step(FileReply::status_only(efi::Status::DEVICE_ERROR.as_usize())), FileAction::CloseFile);
    // A failing close does not change the outcome.
    let m = expect_perform(m.step(FileReply::status_only(efi::Status::INVALID_PARAMETER.as_usize())), FileAction::CloseRoot);
    assert_eq!(expect_finished(m.step(ok())), Err(EfiError::DeviceError));
}

#[test]
fn read_partition_file_volume_failure_closes_nothing() {
    let m = expect_perform(read_partition_file("f"), FileAction::LocateFileSystem);
    let m = expect_perform(m.step(ok()), FileAction::OpenFileSystem);
    let m = expect_perform(m.step(ok()), FileAction::OpenVolume);
    let r = expect_finished(m.step(FileReply::status_only(efi::Status::VOLUME_CORRUPTED.as_usize())));
    assert_eq!(r, Err(EfiError::VolumeCorrupted));
}

#[test]
fn read_partition_file_seek_failure_closes_both() {
    let m = read_until_file_open("f");
    let m = expect_perform(m.step(FileReply::status_only(efi::Status::UNSUPPORTED.as_usize())), FileAction::CloseFile);
    let m = expect_perform(m.step(ok()), FileAction::CloseRoot);
    assert_eq!(expect_finished(m.step(ok())), Err(EfiError::Unsupported));
}

#[test]
fn file_mode_read_is_the_uefi_value() {
    assert_eq!(FILE_MODE_READ, r_efi::protocols::file::MODE_READ);
}
