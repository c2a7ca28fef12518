use patina::error::EfiError;
use patina_components::ram_disk::{install, RamDiskAction, RamDiskInstall, RamDiskReply, RamDiskType};
use patina_components::status::Next;
use r_efi::efi;

fn reply(status: efi::Status, present: bool, valid: bool) -> RamDiskReply {
    RamDiskReply { status: status.as_usize(), device_path_present: present, device_path_valid: valid }
}

fn located(len: usize) -> (RamDiskInstall, RamDiskAction) {
    let m = match install(len) {
        Next::Perform(m, RamDiskAction::LocateRamDisk) => m,
        _ => panic!("an install must start by locating the RAM Disk protocol"),
    };
    match m.step(&reply(efi::Status::SUCCESS, false, false)) {
        Next::Perform(m, a) => (m, a),
        Next::Finished(_) => panic!("a located protocol must receive the register call"),
    }
}

#[test]
fn install_locate_failure() {
    let m = match install(16) {
        Next::Perform(m, _) => m,
        Next::Finished(_) => panic!("an install must make a call"),
    };
    match m.step(&reply(efi::Status::NOT_FOUND, false, false)) {
        Next::Finished(r) => assert!(r.is_err(), "missing RAM Disk Protocol must surface as Err"),
        Next::Perform(..) => panic!("a failed locate must finish the install"),
    }
}

#[test]
fn install_register_failure_propagates() {
    let (m, _) = located(16);
    match m.step(&reply(efi::Status::OUT_OF_RESOURCES, false, false)) {
        Next::Finished(r) => {
            assert!(r.is_err(), "register OUT_OF_RESOURCES must surface as Err");
            assert_eq!(r, Err(EfiError::OutOfResources));
        }
        Next::Perform(..) => panic!("a failed register must finish the install"),
    }
}

#[test]
fn install_forwards_base_and_size_to_register() {
    let (m, action) = located(256);
    assert_eq!(action, RamDiskAction::Register { size: 256, disk_type: RamDiskType::VirtualDisk, with_parent: false }, "register received buffer length");
    let m = match m.step(&reply(efi::Status::SUCCESS, true, false)) {
        Next::Perform(m, RamDiskAction::ReadDevicePath) => m,
        _ => panic!("a registered disk's device path must be read"),
    };
    match m.step(&reply(efi::Status::SUCCESS, true, true)) {
        Next::Finished(r) => assert!(r.is_ok(), "register should succeed"),
        Next::Perform(..) => panic!("reading the path must finish the install"),
    }
}

#[test]
fn install_null_device_path_is_device_error() {
    let (m, _) = located(8);
    match m.step(&reply(efi::Status::SUCCESS, false, false)) {
        Next::Finished(r) => assert_eq!(r, Err(EfiError::DeviceError)),
        Next::Perform(..) => panic!("a null device path must finish the install"),
    }
}

#[test]
fn install_malformed_device_path_is_device_error() {
    let (m, _) = located(8);
    let m = match m.step(&reply(efi::Status::SUCCESS, true, false)) {
        Next::Perform(m, _) => m,
        Next::Finished(_) => panic!("expected the path to be read"),
    };
    match m.step(&reply(efi::Status::SUCCESS, true, false)) {
        Next::Finished(r) => assert_eq!(r, Err(EfiError::DeviceError)),
        Next::Perform(..) => panic!("reading the path must finish the install"),
    }
}
