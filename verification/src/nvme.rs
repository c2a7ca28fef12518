//! Write-protecting the NVMe boot partitions until the next power cycle: one Set Features
//! admin command for the Boot Partition Write Protection Configuration feature.
use crate::pass_thru::{
    admin_outcome, admin_outcome_spec, Command, CommandPacket, NvmeAction, NvmeReply,
    Transfer, BPWPS_LOCK_BP0_BP1, CMD_FLAG_CDW10_VALID, CMD_FLAG_CDW11_VALID,
    FID_BOOT_PARTITION_WRITE_PROTECTION, OPCODE_SET_FEATURES, QUEUE_TYPE_ADMIN,
    TIMEOUT_NS_1_SEC, NVME_ADMIN_NAMESPACE_ID,
};
use crate::boot_partition::marks_used_dwords;
use crate::status::{efi_error_of, status_error, Next, EFI_SUCCESS};
use vstd::prelude::*;

verus! {

/// The Set Features packet that puts BP0 and BP1 in "Write Protect Until Power Cycle":
/// FID 0x11 in CDW10, the protection states in CDW11, both marked valid, admin queue, no data.
pub open spec fn bpwps_lock_packet_spec() -> CommandPacket {
    CommandPacket {
        command_timeout: TIMEOUT_NS_1_SEC,
        transfer_length: 0,
        metadata_length: 0,
        queue_type: QUEUE_TYPE_ADMIN,
        nvme_cmd: Command {
            cdw0: OPCODE_SET_FEATURES as u32,
            flags: CMD_FLAG_CDW10_VALID | CMD_FLAG_CDW11_VALID,
            nsid: 0,
            cdw2: 0,
            cdw3: 0,
            cdw10: FID_BOOT_PARTITION_WRITE_PROTECTION as u32,
            cdw11: BPWPS_LOCK_BP0_BP1,
            cdw12: 0,
            cdw13: 0,
            cdw14: 0,
            cdw15: 0,
        },
    }
}

/// Builds the Set Features (BPWPS) packet.
pub fn bpwps_lock_packet() -> (p: CommandPacket)
    ensures
        p == bpwps_lock_packet_spec(),
        marks_used_dwords(p.nvme_cmd),
{
    proof {
        lemma_bpwps_locks_both_partitions();
    }
    let mut cmd = Command::zero();
    cmd.cdw0 = OPCODE_SET_FEATURES as u32;
    cmd.flags = CMD_FLAG_CDW10_VALID | CMD_FLAG_CDW11_VALID;
    cmd.cdw10 = FID_BOOT_PARTITION_WRITE_PROTECTION as u32;
    cmd.cdw11 = BPWPS_LOCK_BP0_BP1;
    CommandPacket {
        command_timeout: TIMEOUT_NS_1_SEC,
        transfer_length: 0,
        metadata_length: 0,
        queue_type: QUEUE_TYPE_ADMIN,
        nvme_cmd: cmd,
    }
}

/// Where a boot-partition lock stands: which answer it waits for.
#[derive(Clone, Copy, PartialEq, Eq, Structural, Debug)]
pub enum LockPartitionWrite {
    /// Waiting for the controller handle.
    Locating,
    /// Waiting for the Pass-Thru protocol on that handle.
    Opening,
    /// Waiting for the answer to the Set Features command.
    Submitting,
}

/// Starts write-protecting the boot partitions: the first call locates the controller.
pub fn lock_partition_write() -> (r: Next<LockPartitionWrite, NvmeAction, ()>)
    ensures
        r == Next::<LockPartitionWrite, NvmeAction, ()>::Perform(
            LockPartitionWrite::Locating,
            NvmeAction::LocateController,
        ),
{
    Next::Perform(LockPartitionWrite::Locating, NvmeAction::LocateController)
}

impl LockPartitionWrite {
    /// The number of firmware calls still to come, at most.
    pub open spec fn calls_left(self) -> nat {
        match self {
            LockPartitionWrite::Locating => 3,
            LockPartitionWrite::Opening => 2,
            LockPartitionWrite::Submitting => 1,
        }
    }

    /// What the lock does with the firmware's answer `reply`.
    pub open spec fn step_result(self, reply: NvmeReply) -> Next<Self, NvmeAction, ()> {
        match self {
            LockPartitionWrite::Locating => if reply.status != EFI_SUCCESS {
                Next::Finished(Err(efi_error_of(reply.status)))
            } else {
                Next::Perform(LockPartitionWrite::Opening, NvmeAction::OpenPassThru)
            },
            LockPartitionWrite::Opening => if reply.status != EFI_SUCCESS {
                Next::Finished(Err(efi_error_of(reply.status)))
            } else {
                Next::Perform(
                    LockPartitionWrite::Submitting,
                    NvmeAction::Submit {
                        packet: bpwps_lock_packet_spec(),
                        transfer: Transfer::NoData,
                        namespace_id: NVME_ADMIN_NAMESPACE_ID,
                        blocking: true,
                    },
                )
            },
            LockPartitionWrite::Submitting => Next::Finished(
                admin_outcome_spec(reply.status, reply.completion),
            ),
        }
    }

    /// Hands the firmware's answer to the lock and gets its next step.
    pub fn step(self, reply: &NvmeReply) -> (r: Next<Self, NvmeAction, ()>)
        ensures
            r == self.step_result(*reply),
            r matches Next::Perform(m, _) ==> m.calls_left() < self.calls_left(),
    {
        match self {
            LockPartitionWrite::Locating => {
                if reply.status != EFI_SUCCESS {
                    return Next::Finished(Err(status_error(reply.status)));
                }
                Next::Perform(LockPartitionWrite::Opening, NvmeAction::OpenPassThru)
            },
            LockPartitionWrite::Opening => {
                if reply.status != EFI_SUCCESS {
                    return Next::Finished(Err(status_error(reply.status)));
                }
                Next::Perform(
                    LockPartitionWrite::Submitting,
                    NvmeAction::Submit {
                        packet: bpwps_lock_packet(),
                        transfer: Transfer::NoData,
                        namespace_id: NVME_ADMIN_NAMESPACE_ID,
                        blocking: true,
                    },
                )
            },
            LockPartitionWrite::Submitting => Next::Finished(
                admin_outcome(reply.status, &reply.completion),
            ),
        }
    }
}

/// The Set Features value write-protects both boot partitions: BP0WPS (CDW11 bits 2:0) and
/// BP1WPS (bits 5:3) are both 001b, "Write Protect Until Power Cycle", and no other bit is set.
pub proof fn lemma_bpwps_locks_both_partitions()
    ensures
        bpwps_lock_packet_spec().nvme_cmd.cdw11 & 0b111 == 0b001,
        (bpwps_lock_packet_spec().nvme_cmd.cdw11 >> 3u32) & 0b111 == 0b001,
        bpwps_lock_packet_spec().nvme_cmd.cdw11 >> 6u32 == 0,
        marks_used_dwords(bpwps_lock_packet_spec().nvme_cmd),
        bpwps_lock_packet_spec().nvme_cmd.flags & CMD_FLAG_CDW10_VALID != 0,
        bpwps_lock_packet_spec().nvme_cmd.flags & CMD_FLAG_CDW11_VALID != 0,
{
    assert((1u8 << 2u8) == 4u8 && (1u8 << 3u8) == 8u8 && (4u8 | 8u8) == 12u8) by (bit_vector);
    assert(12u8 & 4u8 != 0 && 12u8 & 8u8 != 0) by (bit_vector);
    let v = BPWPS_LOCK_BP0_BP1;
    assert(((0b001u32 << 3u32) | 0b001u32) == 9u32) by (bit_vector);
    assert(v & 0b111 == 0b001 && (v >> 3u32) & 0b111 == 0b001 && v >> 6u32 == 0) by (bit_vector)
        requires
            v == 9,
    ;
}

/// The lock succeeds only on the controller's acceptance of the Set Features command: the
/// call succeeded and the completion's Status Field is zero.
pub proof fn lemma_lock_ok_only_when_accepted(m: LockPartitionWrite, reply: NvmeReply)
    ensures
        m.step_result(reply) == Next::<LockPartitionWrite, NvmeAction, ()>::Finished(Ok(())) ==> {
            &&& m == LockPartitionWrite::Submitting
            &&& reply.status == EFI_SUCCESS
            &&& reply.completion.dw3 < 0x2_0000
        },
{
}

} // verus!
