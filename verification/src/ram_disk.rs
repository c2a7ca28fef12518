//! Installing a byte buffer as a virtual block device through the UEFI RAM Disk Protocol.
use crate::status::{device_error, efi_error_code, efi_error_of, status_error, Next, EFI_SUCCESS};
use vstd::prelude::*;

verus! {

/// The RAM disk types that a buffer can be registered as.
#[derive(Clone, Copy, PartialEq, Eq, Structural, Debug)]
pub enum RamDiskType {
    /// `EFI_VIRTUAL_DISK_GUID`: a virtual disk.
    VirtualDisk,
}

/// The next firmware call a RAM disk install needs.
#[derive(Clone, Copy, PartialEq, Eq, Structural, Debug)]
pub enum RamDiskAction {
    /// `locate_protocol` for the RAM Disk protocol (no registration).
    LocateRamDisk,
    /// `Register` of the leaked buffer, `size` bytes long, as a disk of `disk_type`, under
    /// a parent device path only when `with_parent` holds.
    Register { size: u64, disk_type: RamDiskType, with_parent: bool },
    /// Read the device path that `Register` returned.
    ReadDevicePath,
}

/// What the firmware answered to a `RamDiskAction`.
#[derive(Clone, Copy, PartialEq, Eq, Structural, Debug)]
pub struct RamDiskReply {
    /// Raw EFI status of a locate or register call.
    pub status: usize,
    /// Whether `Register` returned a device path pointer that is not null.
    pub device_path_present: bool,
    /// Whether the returned device path reads as a well-formed device path.
    pub device_path_valid: bool,
}

/// Where a RAM disk install stands: which answer it waits for.
#[derive(Clone, Copy, PartialEq, Eq, Structural, Debug)]
pub enum RamDiskInstall {
    /// Waiting for the RAM Disk protocol; the buffer is `size` bytes long.
    Locating { size: u64 },
    /// Waiting for the answer to `Register`.
    Registering,
    /// Waiting for the device path to be read.
    ReadingPath,
}

/// Starts installing a buffer of `len` bytes: the first call locates the RAM Disk protocol.
pub fn install(len: usize) -> (r: Next<RamDiskInstall, RamDiskAction, ()>)
    ensures
        r == Next::<RamDiskInstall, RamDiskAction, ()>::Perform(
            RamDiskInstall::Locating { size: len as u64 },
            RamDiskAction::LocateRamDisk,
        ),
{
    Next::Perform(RamDiskInstall::Locating { size: len as u64 }, RamDiskAction::LocateRamDisk)
}

impl RamDiskInstall {
    /// The number of firmware calls still to come, at most.
    pub open spec fn calls_left(self) -> nat {
        match self {
            RamDiskInstall::Locating { .. } => 3,
            RamDiskInstall::Registering => 2,
            RamDiskInstall::ReadingPath => 1,
        }
    }

    /// What the install does with the firmware's answer `reply`: a failed locate or register
    /// gives the error for its status; a null or malformed device path gives DEVICE_ERROR.
    pub open spec fn step_result(self, reply: RamDiskReply) -> Next<Self, RamDiskAction, ()> {
        let device_error = Err(efi_error_of(efi_error_code(7) as usize));
        match self {
            RamDiskInstall::Locating { size } => if reply.status != EFI_SUCCESS {
                Next::Finished(Err(efi_error_of(reply.status)))
            } else {
                Next::Perform(
                    RamDiskInstall::Registering,
                    RamDiskAction::Register {
                        size,
                        disk_type: RamDiskType::VirtualDisk,
                        with_parent: false,
                    },
                )
            },
            RamDiskInstall::Registering => if reply.status != EFI_SUCCESS {
                Next::Finished(Err(efi_error_of(reply.status)))
            } else if !reply.device_path_present {
                Next::Finished(device_error)
            } else {
                Next::Perform(RamDiskInstall::ReadingPath, RamDiskAction::ReadDevicePath)
            },
            RamDiskInstall::ReadingPath => if reply.device_path_valid {
                Next::Finished(Ok(()))
            } else {
                Next::Finished(device_error)
            },
        }
    }

    /// Hands the firmware's answer to the install and gets its next step.
    pub fn step(self, reply: &RamDiskReply) -> (r: Next<Self, RamDiskAction, ()>)
        ensures
            r == self.step_result(*reply),
            r matches Next::Perform(m, _) ==> m.calls_left() < self.calls_left(),
    {
        match self {
            RamDiskInstall::Locating { size } => {
                if reply.status != EFI_SUCCESS {
                    return Next::Finished(Err(status_error(reply.status)));
                }
                Next::Perform(
                    RamDiskInstall::Registering,
                    RamDiskAction::Register {
                        size,
                        disk_type: RamDiskType::VirtualDisk,
                        with_parent: false,
                    },
                )
            },
            RamDiskInstall::Registering => {
                if reply.status != EFI_SUCCESS {
                    return Next::Finished(Err(status_error(reply.status)));
                }
                if !reply.device_path_present {
                    return Next::Finished(Err(device_error()));
                }
                Next::Perform(RamDiskInstall::ReadingPath, RamDiskAction::ReadDevicePath)
            },
            RamDiskInstall::ReadingPath => {
                if reply.device_path_valid {
                    Next::Finished(Ok(()))
                } else {
                    Next::Finished(Err(device_error()))
                }
            },
        }
    }
}

/// An install succeeds only after the firmware registered the buffer and handed back a
/// device path that is present and well formed.
pub proof fn lemma_install_ok_only_with_device_path(m: RamDiskInstall, reply: RamDiskReply)
    ensures
        m.step_result(reply) == Next::<RamDiskInstall, RamDiskAction, ()>::Finished(Ok(()))
            ==> m == RamDiskInstall::ReadingPath && reply.device_path_valid,
        m.step_result(reply) matches Next::Perform(RamDiskInstall::ReadingPath, _) ==> m
            == RamDiskInstall::Registering && reply.status == EFI_SUCCESS
            && reply.device_path_present,
{
}

} // verus!
