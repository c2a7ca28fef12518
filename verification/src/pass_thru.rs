//! NVMe admin command structures for `EFI_NVM_EXPRESS_PASS_THRU_PROTOCOL`, without the
//! pointers: the submission command, the completion, the packet that carries them, and
//! the check of what the controller answered.
use crate::status::{
    device_error, efi_error_code, efi_error_of, status_error, EFI_SUCCESS,
};
use patina::error::EfiError;
use vstd::prelude::*;

verus! {

/// NVMe admin opcode for `Identify`.
pub const OPCODE_IDENTIFY: u8 = 0x06;

/// NVMe admin opcode for `Set Features`.
pub const OPCODE_SET_FEATURES: u8 = 0x09;

/// NVMe admin opcode for `Firmware Commit`.
pub const OPCODE_FIRMWARE_COMMIT: u8 = 0x10;

/// NVMe admin opcode for `Firmware Image Download`.
pub const OPCODE_FIRMWARE_IMAGE_DOWNLOAD: u8 = 0x11;

/// Identify CNS value selecting the Identify Controller data structure.
pub const IDENTIFY_CNS_CONTROLLER: u32 = 0x01;

/// NVMe Feature Identifier for Boot Partition Write Protection Configuration (BPWPS).
pub const FID_BOOT_PARTITION_WRITE_PROTECTION: u8 = 0x11;

/// Firmware Commit action 110b: the downloaded image replaces the boot partition named by
/// BPID (CDW10 bit 31).
pub const FW_COMMIT_ACTION_DOWNLOAD_BP: u8 = 0x6;

/// Firmware Commit action 111b: mark the boot partition named by BPID as active without a
/// controller reset.
pub const FW_COMMIT_ACTION_ACTIVATE_BP: u8 = 0x7;

/// Command-flag bit indicating CDW10 carries a valid value.
pub const CMD_FLAG_CDW10_VALID: u8 = 1 << 2;

/// Command-flag bit indicating CDW11 carries a valid value.
pub const CMD_FLAG_CDW11_VALID: u8 = 1 << 3;

/// The namespace ID that admin commands are passed to `PassThru` with.
pub const NVME_ADMIN_NAMESPACE_ID: u32 = 0;

/// Queue-type selector for the admin queue.
pub const QUEUE_TYPE_ADMIN: u8 = 0;

/// 1-second timeout in 100-ns units, per the protocol contract.
pub const TIMEOUT_NS_1_SEC: u64 = 10_000_000;

/// 5-second timeout for chunked transfers.
pub const TIMEOUT_NS_5_SEC: u64 = 50_000_000;

/// 60-second timeout for Firmware Commit (boot partition commits can take a while).
pub const TIMEOUT_NS_60_SEC: u64 = 600_000_000;

/// Offset of MDTS (Maximum Data Transfer Size) in the Identify Controller data.
pub const ID_CTRL_OFFSET_MDTS: usize = 77;

/// Offset of FWUG (Firmware Update Granularity) in the Identify Controller data.
pub const ID_CTRL_OFFSET_FWUG: usize = 319;

/// Size of the Identify Controller data structure.
pub const IDENTIFY_BUFFER_BYTES: usize = 4096;

/// CDW11 value placing both BP0 and BP1 in "Write Protect Until Power Cycle" (state 001b).
/// Layout: BP0WPS in bits 2:0, BP1WPS in bits 5:3.
pub const BPWPS_LOCK_BP0_BP1: u32 = (0b001 << 3) | 0b001;

/// NVMe submission command, as the pass-thru protocol lays it out.
#[derive(Clone, Copy, PartialEq, Eq, Structural, Debug)]
pub struct Command {
    /// Command Dword 0 (opcode + command identifier).
    pub cdw0: u32,
    /// Command flags (CDW10..CDW15 validity bits).
    pub flags: u8,
    /// Namespace ID.
    pub nsid: u32,
    /// Command Dword 2.
    pub cdw2: u32,
    /// Command Dword 3.
    pub cdw3: u32,
    /// Command Dword 10.
    pub cdw10: u32,
    /// Command Dword 11.
    pub cdw11: u32,
    /// Command Dword 12.
    pub cdw12: u32,
    /// Command Dword 13.
    pub cdw13: u32,
    /// Command Dword 14.
    pub cdw14: u32,
    /// Command Dword 15.
    pub cdw15: u32,
}

/// The all-zero command.
pub open spec fn zero_command() -> Command {
    Command {
        cdw0: 0,
        flags: 0,
        nsid: 0,
        cdw2: 0,
        cdw3: 0,
        cdw10: 0,
        cdw11: 0,
        cdw12: 0,
        cdw13: 0,
        cdw14: 0,
        cdw15: 0,
    }
}

impl Command {
    /// Zero-initialized `Command`. Useful as a base when setting only a few fields.
    pub fn zero() -> (c: Self)
        ensures
            c == zero_command(),
    {
        Command {
            cdw0: 0,
            flags: 0,
            nsid: 0,
            cdw2: 0,
            cdw3: 0,
            cdw10: 0,
            cdw11: 0,
            cdw12: 0,
            cdw13: 0,
            cdw14: 0,
            cdw15: 0,
        }
    }
}

/// NVMe completion queue entry (4 dwords).
#[derive(Clone, Copy, PartialEq, Eq, Structural, Debug)]
pub struct Completion {
    /// Completion Dword 0.
    pub dw0: u32,
    /// Completion Dword 1.
    pub dw1: u32,
    /// Completion Dword 2.
    pub dw2: u32,
    /// Completion Dword 3 (carries the Status Field in bits 31:17).
    pub dw3: u32,
}

/// The Status Field of a completion: bits 31:17 of DW3.
pub open spec fn status_field_of(c: Completion) -> int {
    c.dw3 as int / 0x2_0000
}

impl Completion {
    /// Zero-initialized `Completion`. Useful as a destination for the controller's answer.
    pub fn zero() -> (c: Self)
        ensures
            c == (Completion { dw0: 0, dw1: 0, dw2: 0, dw3: 0 }),
    {
        Completion { dw0: 0, dw1: 0, dw2: 0, dw3: 0 }
    }

    /// The Status Field (DW3 bits 31:17). Non-zero means the controller rejected the command.
    pub fn status_field(&self) -> (s: u32)
        ensures
            s == status_field_of(*self),
            s == 0 <==> self.dw3 < 0x2_0000,
    {
        let dw3 = self.dw3;
        let s = (dw3 >> 17u32) & 0x7FFFu32;
        assert(s == dw3 / 0x2_0000) by (bit_vector)
            requires
                s == (dw3 >> 17u32) & 0x7FFFu32,
        ;
        s
    }
}

/// The pass-thru command packet, with the buffers named rather than pointed to.
#[derive(Clone, Copy, PartialEq, Eq, Structural, Debug)]
pub struct CommandPacket {
    /// Command timeout in 100-ns units (0 disables timeout).
    pub command_timeout: u64,
    /// Length of the transfer buffer in bytes.
    pub transfer_length: u32,
    /// Length of the metadata buffer in bytes.
    pub metadata_length: u32,
    /// Queue selector: `QUEUE_TYPE_ADMIN` (0) or I/O queue (1).
    pub queue_type: u8,
    /// The NVMe submission command.
    pub nvme_cmd: Command,
}

/// Which buffer a command's data transfer uses.
#[derive(Clone, Copy, PartialEq, Eq, Structural, Debug)]
pub enum Transfer {
    /// No data transfer.
    NoData,
    /// A zeroed buffer of `IDENTIFY_BUFFER_BYTES` that the controller fills and that is
    /// handed back in `NvmeReply::controller_data`.
    ControllerData,
    /// The caller's data bytes `start .. start + len`, sent to the controller.
    Data { start: usize, len: usize },
}

/// The next firmware call an NVMe operation needs.
#[derive(Clone, Copy, PartialEq, Eq, Structural, Debug)]
pub enum NvmeAction {
    /// `locate_device_path` for the NVMe Pass-Thru protocol GUID on the caller's device path.
    LocateController,
    /// `handle_protocol` for the NVMe Pass-Thru protocol on the located handle.
    OpenPassThru,
    /// `PassThru` with this packet and transfer buffer, on namespace `namespace_id`;
    /// `blocking` means no event is passed, so the call returns once the command completed.
    Submit { packet: CommandPacket, transfer: Transfer, namespace_id: u32, blocking: bool },
}

/// What the firmware answered to an `NvmeAction`.
pub struct NvmeReply {
    /// Raw EFI status of the call (for a failed locate or open, its error status).
    pub status: usize,
    /// The completion the controller wrote (all zero for locate and open).
    pub completion: Completion,
    /// The controller data buffer after an Identify (empty otherwise).
    pub controller_data: Vec<u8>,
}

impl NvmeReply {
    /// The answer to a locate or open call: only a status.
    pub fn status_only(status: usize) -> (r: Self)
        ensures
            r.status == status,
            r.completion == (Completion { dw0: 0, dw1: 0, dw2: 0, dw3: 0 }),
            r.controller_data@.len() == 0,
    {
        NvmeReply { status, completion: Completion::zero(), controller_data: Vec::new() }
    }
}

/// What an admin command's answer means: the call's own failure first, then a rejection
/// by the controller (a non-zero Status Field), which is reported as DEVICE_ERROR.
pub open spec fn admin_outcome_spec(status: usize, completion: Completion) -> Result<(), EfiError> {
    if status != EFI_SUCCESS {
        Err(efi_error_of(status))
    } else if status_field_of(completion) != 0 {
        Err(efi_error_of(efi_error_code(7) as usize))
    } else {
        Ok(())
    }
}

/// Checks the answer to an admin command: `Ok` only when the call succeeded and the
/// controller accepted the command.
pub fn admin_outcome(status: usize, completion: &Completion) -> (r: Result<(), EfiError>)
    ensures
        r == admin_outcome_spec(status, *completion),
        r is Ok <==> status == EFI_SUCCESS && completion.dw3 < 0x2_0000,
{
    if status != EFI_SUCCESS {
        return Err(status_error(status));
    }
    if completion.status_field() != 0 {
        return Err(device_error());
    }
    Ok(())
}

} // verus!
