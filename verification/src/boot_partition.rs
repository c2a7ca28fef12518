//! Writing an NVMe boot partition: Identify Controller, then chunked Firmware Image
//! Download, then one Firmware Commit that downloads the image into the boot partition.
use crate::pass_thru::{
    admin_outcome, admin_outcome_spec, Command, CommandPacket, NvmeAction, NvmeReply,
    Transfer, CMD_FLAG_CDW10_VALID, CMD_FLAG_CDW11_VALID, FW_COMMIT_ACTION_DOWNLOAD_BP,
    IDENTIFY_BUFFER_BYTES, IDENTIFY_CNS_CONTROLLER, ID_CTRL_OFFSET_FWUG, ID_CTRL_OFFSET_MDTS,
    OPCODE_FIRMWARE_COMMIT, OPCODE_FIRMWARE_IMAGE_DOWNLOAD, OPCODE_IDENTIFY, QUEUE_TYPE_ADMIN,
    NVME_ADMIN_NAMESPACE_ID, TIMEOUT_NS_1_SEC, TIMEOUT_NS_5_SEC, TIMEOUT_NS_60_SEC,
};
use crate::status::{
    efi_error_code, efi_error_of, invalid_parameter, status_error, Next, EFI_SUCCESS,
};
use patina::error::EfiError;
use vstd::arithmetic::power2::{lemma2_to64, lemma_pow2_strictly_increases, pow2};
use vstd::bits::lemma_usize_shl_is_mul;
use vstd::prelude::*;

verus! {

/// Bytes per chunk that the Firmware Update Granularity asks for: FWUG units of 4 KiB,
/// or 4 KiB when FWUG is 0 (no information) or 0xFF (no restriction).
pub open spec fn fwug_chunk_bytes(fwug: u8) -> int {
    if fwug == 0 || fwug == 0xFF {
        4096
    } else {
        fwug * 4096
    }
}

/// The Maximum Data Transfer Size in bytes: 2^MDTS pages of 4 KiB, unlimited for 0; values
/// of 20 and above are treated as unlimited too.
pub open spec fn mdts_max_transfer(mdts: u8) -> int {
    if mdts == 0 || mdts >= 20 {
        usize::MAX as int
    } else {
        (4096 * pow2(mdts as nat)) as int
    }
}

/// The download chunk size: the FWUG chunk, capped by the maximum transfer size.
pub open spec fn download_chunk_bytes(mdts: u8, fwug: u8) -> int {
    if fwug_chunk_bytes(fwug) <= mdts_max_transfer(mdts) {
        fwug_chunk_bytes(fwug)
    } else {
        mdts_max_transfer(mdts)
    }
}

/// Chooses the Firmware Image Download chunk size from the Identify Controller fields.
pub fn chunk_bytes(mdts: u8, fwug: u8) -> (c: usize)
    ensures
        c == download_chunk_bytes(mdts, fwug),
        4096 <= c <= 254 * 4096,
        c <= (if fwug == 0 || fwug == 0xFF {
            4096
        } else {
            fwug * 4096
        }),
        0 < mdts < 20 ==> c <= 4096 * pow2(mdts as nat),
{
    proof {
        lemma_chunk_respects_fwug_and_mdts(mdts, fwug);
    }
    let fwug_bytes: usize = if fwug == 0 || fwug == 0xFF {
        4096
    } else {
        (fwug as usize) * 4096
    };
    if mdts == 0 || mdts >= 20 {
        return fwug_bytes;
    }
    let shift: usize = mdts as usize;
    proof {
        lemma2_to64();
        if shift < 19 {
            lemma_pow2_strictly_increases(shift as nat, 19);
        }
        assert(4096 * pow2(shift as nat) <= 4096 * pow2(19)) by (nonlinear_arith)
            requires
                pow2(shift as nat) <= pow2(19),
        ;
        lemma_usize_shl_is_mul(4096, shift);
    }
    let max_transfer: usize = 4096usize << shift;
    proof {
        lemma_pow2_strictly_increases(0, shift as nat);
        assert(4096 * pow2(0) < 4096 * pow2(shift as nat)) by (nonlinear_arith)
            requires
                pow2(0) < pow2(shift as nat),
        ;
    }
    if fwug_bytes <= max_transfer {
        fwug_bytes
    } else {
        max_transfer
    }
}

/// The Identify Controller command packet (CNS 01h, 4 KiB of controller data back).
pub open spec fn identify_packet_spec() -> CommandPacket {
    CommandPacket {
        command_timeout: TIMEOUT_NS_1_SEC,
        transfer_length: IDENTIFY_BUFFER_BYTES as u32,
        metadata_length: 0,
        queue_type: QUEUE_TYPE_ADMIN,
        nvme_cmd: Command {
            cdw0: OPCODE_IDENTIFY as u32,
            flags: CMD_FLAG_CDW10_VALID,
            nsid: 0,
            cdw2: 0,
            cdw3: 0,
            cdw10: IDENTIFY_CNS_CONTROLLER,
            cdw11: 0,
            cdw12: 0,
            cdw13: 0,
            cdw14: 0,
            cdw15: 0,
        },
    }
}

/// Builds the Identify Controller command packet.
pub fn identify_packet() -> (p: CommandPacket)
    ensures
        p == identify_packet_spec(),
{
    let mut cmd = Command::zero();
    cmd.cdw0 = OPCODE_IDENTIFY as u32;
    cmd.cdw10 = IDENTIFY_CNS_CONTROLLER;
    cmd.flags = CMD_FLAG_CDW10_VALID;
    CommandPacket {
        command_timeout: TIMEOUT_NS_1_SEC,
        transfer_length: IDENTIFY_BUFFER_BYTES as u32,
        metadata_length: 0,
        queue_type: QUEUE_TYPE_ADMIN,
        nvme_cmd: cmd,
    }
}

/// The Firmware Image Download packet for chunk `index` of `chunk_bytes` bytes: NUMD (CDW10)
/// is the chunk's length in dwords minus one, OFST (CDW11) its offset in dwords.
pub open spec fn download_packet_spec(chunk_bytes: usize, index: usize) -> CommandPacket {
    CommandPacket {
        command_timeout: TIMEOUT_NS_5_SEC,
        transfer_length: chunk_bytes as u32,
        metadata_length: 0,
        queue_type: QUEUE_TYPE_ADMIN,
        nvme_cmd: Command {
            cdw0: OPCODE_FIRMWARE_IMAGE_DOWNLOAD as u32,
            flags: CMD_FLAG_CDW10_VALID | CMD_FLAG_CDW11_VALID,
            nsid: 0,
            cdw2: 0,
            cdw3: 0,
            cdw10: (chunk_bytes / 4 - 1) as u32,
            cdw11: ((index * chunk_bytes) / 4) as u32,
            cdw12: 0,
            cdw13: 0,
            cdw14: 0,
            cdw15: 0,
        },
    }
}

/// Builds the Firmware Image Download packet for chunk `index`.
pub fn download_packet(chunk_bytes: usize, index: usize) -> (p: CommandPacket)
    requires
        4 <= chunk_bytes,
        index * chunk_bytes <= usize::MAX,
    ensures
        p == download_packet_spec(chunk_bytes, index),
{
    let mut cmd = Command::zero();
    cmd.cdw0 = OPCODE_FIRMWARE_IMAGE_DOWNLOAD as u32;
    cmd.cdw10 = (chunk_bytes / 4 - 1) as u32;
    cmd.cdw11 = ((index * chunk_bytes) / 4) as u32;
    cmd.flags = CMD_FLAG_CDW10_VALID | CMD_FLAG_CDW11_VALID;
    CommandPacket {
        command_timeout: TIMEOUT_NS_5_SEC,
        transfer_length: chunk_bytes as u32,
        metadata_length: 0,
        queue_type: QUEUE_TYPE_ADMIN,
        nvme_cmd: cmd,
    }
}

/// The Firmware Commit packet for boot partition `bank_id`: commit action 110b
/// ("download to boot partition") in CDW10 bits 5:3 and BPID in CDW10 bit 31.
pub open spec fn commit_packet_spec(bank_id: u8) -> CommandPacket {
    CommandPacket {
        command_timeout: TIMEOUT_NS_60_SEC,
        transfer_length: 0,
        metadata_length: 0,
        queue_type: QUEUE_TYPE_ADMIN,
        nvme_cmd: Command {
            cdw0: OPCODE_FIRMWARE_COMMIT as u32,
            flags: CMD_FLAG_CDW10_VALID,
            nsid: 0,
            cdw2: 0,
            cdw3: 0,
            cdw10: (bank_id * 0x8000_0000 + FW_COMMIT_ACTION_DOWNLOAD_BP * 8) as u32,
            cdw11: 0,
            cdw12: 0,
            cdw13: 0,
            cdw14: 0,
            cdw15: 0,
        },
    }
}

/// Builds the Firmware Commit packet for boot partition `bank_id` (0 or 1).
pub fn commit_packet(bank_id: u8) -> (p: CommandPacket)
    requires
        bank_id <= 1,
    ensures
        p == commit_packet_spec(bank_id),
        p.nvme_cmd.flags & CMD_FLAG_CDW10_VALID != 0,
        (p.nvme_cmd.cdw10 >> 3u32) & 0b111 == 0b110,
        p.nvme_cmd.cdw10 >> 31u32 == bank_id,
{
    proof {
        lemma_bp_packets_mark_dwords_valid(bank_id, 4096, 0);
    }
    let bank: u32 = bank_id as u32;
    let action: u32 = FW_COMMIT_ACTION_DOWNLOAD_BP as u32;
    let cdw10: u32 = (bank << 31u32) | (action << 3u32);
    assert(cdw10 == bank * 0x8000_0000 + action * 8) by (bit_vector)
        requires
            bank <= 1,
            action == 6,
            cdw10 == (bank << 31u32) | (action << 3u32),
    ;
    let mut cmd = Command::zero();
    cmd.cdw0 = OPCODE_FIRMWARE_COMMIT as u32;
    cmd.cdw10 = cdw10;
    cmd.flags = CMD_FLAG_CDW10_VALID;
    CommandPacket {
        command_timeout: TIMEOUT_NS_60_SEC,
        transfer_length: 0,
        metadata_length: 0,
        queue_type: QUEUE_TYPE_ADMIN,
        nvme_cmd: cmd,
    }
}

/// Where a boot-partition write stands: which answer it waits for.
#[derive(Clone, Copy, PartialEq, Eq, Structural, Debug)]
pub enum BpStage {
    /// Waiting for the controller handle.
    Locating,
    /// Waiting for the Pass-Thru protocol on that handle.
    Opening,
    /// Waiting for the Identify Controller data.
    Identifying,
    /// Waiting for the answer to the download of chunk `index` of `chunk_bytes` bytes.
    Downloading { chunk_bytes: usize, index: usize },
    /// Waiting for the answer to the Firmware Commit.
    Committing,
}

/// A write of `data_len` bytes into NVMe boot partition `bank_id`, in progress.
pub struct BpWrite {
    bank_id: u8,
    data_len: usize,
    stage: BpStage,
}

/// A command marks the dwords it uses as valid: a non-zero CDW10 or CDW11 comes with its
/// validity flag, and CDW12 to CDW15 are zero.
pub open spec fn marks_used_dwords(cmd: Command) -> bool {
    &&& cmd.cdw10 != 0 ==> cmd.flags & CMD_FLAG_CDW10_VALID != 0
    &&& cmd.cdw11 != 0 ==> cmd.flags & CMD_FLAG_CDW11_VALID != 0
    &&& cmd.cdw12 == 0 && cmd.cdw13 == 0 && cmd.cdw14 == 0 && cmd.cdw15 == 0
}

/// The number of chunks of `chunk_bytes` in `data_len` bytes.
pub open spec fn chunk_count(data_len: usize, chunk_bytes: usize) -> int {
    data_len as int / chunk_bytes as int
}

impl BpWrite {
    #[verifier::type_invariant]
    spec fn well_formed(self) -> bool {
        self.inv()
    }

    /// The write's invariant: the bank is 0 or 1, and while downloading, the chunk size is
    /// at least 4 KiB and at most 254 * 4 KiB, divides the length, and the chunk index is in
    /// range.
    pub closed spec fn inv(self) -> bool {
        &&& self.bank_id <= 1
        &&& match self.stage {
            BpStage::Downloading { chunk_bytes, index } => {
                &&& 4096 <= chunk_bytes <= 254 * 4096
                &&& self.data_len % chunk_bytes == 0
                &&& index < chunk_count(self.data_len, chunk_bytes)
            },
            _ => true,
        }
    }

    /// The boot partition being written.
    pub closed spec fn bank(self) -> u8 {
        self.bank_id
    }

    /// The number of bytes being written.
    pub closed spec fn len(self) -> usize {
        self.data_len
    }

    /// The answer the write waits for.
    pub closed spec fn waits_for(self) -> BpStage {
        self.stage
    }

    /// The same write, waiting in `stage`.
    pub closed spec fn with_stage(self, stage: BpStage) -> Self {
        BpWrite { stage, ..self }
    }

    /// An upper bound on the firmware calls still to come.
    pub open spec fn calls_left(self) -> nat {
        match self.waits_for() {
            BpStage::Locating => (self.len() + 4) as nat,
            BpStage::Opening => (self.len() + 3) as nat,
            BpStage::Identifying => (self.len() + 2) as nat,
            BpStage::Downloading { chunk_bytes, index } => (chunk_count(
                self.len(),
                chunk_bytes,
            ) - index + 1) as nat,
            BpStage::Committing => 1,
        }
    }

    /// Whether the next answer must carry the Identify Controller data.
    pub fn awaits_controller_data(&self) -> (b: bool)
        ensures
            b <==> self.waits_for() == BpStage::Identifying,
    {
        match self.stage {
            BpStage::Identifying => true,
            _ => false,
        }
    }

    /// What the write does with the firmware's answer `reply`: the stage it waits in next
    /// and the call to make, or its result.
    pub open spec fn step_result(self, reply: NvmeReply) -> Next<BpStage, NvmeAction, ()> {
        let status = reply.status;
        let outcome = admin_outcome_spec(status, reply.completion);
        match self.waits_for() {
            BpStage::Locating => if status != EFI_SUCCESS {
                Next::Finished(Err(efi_error_of(status)))
            } else {
                Next::Perform(BpStage::Opening, NvmeAction::OpenPassThru)
            },
            BpStage::Opening => if status != EFI_SUCCESS {
                Next::Finished(Err(efi_error_of(status)))
            } else {
                Next::Perform(
                    BpStage::Identifying,
                    NvmeAction::Submit {
                        packet: identify_packet_spec(),
                        transfer: Transfer::ControllerData,
                        namespace_id: NVME_ADMIN_NAMESPACE_ID,
                        blocking: true,
                    },
                )
            },
            BpStage::Identifying => {
                let chunk = download_chunk_bytes(
                    reply.controller_data@[ID_CTRL_OFFSET_MDTS as int],
                    reply.controller_data@[ID_CTRL_OFFSET_FWUG as int],
                ) as usize;
                if outcome is Err {
                    Next::Finished(outcome)
                } else if self.len() % chunk != 0 {
                    Next::Finished(Err(efi_error_of(efi_error_code(2) as usize)))
                } else if self.len() == 0 {
                    Next::Perform(
                        BpStage::Committing,
                        NvmeAction::Submit {
                            packet: commit_packet_spec(self.bank()),
                            transfer: Transfer::NoData,
                            namespace_id: NVME_ADMIN_NAMESPACE_ID,
                            blocking: true,
                        },
                    )
                } else {
                    Next::Perform(
                        BpStage::Downloading { chunk_bytes: chunk, index: 0 },
                        NvmeAction::Submit {
                            packet: download_packet_spec(chunk, 0),
                            transfer: Transfer::Data { start: 0, len: chunk },
                            namespace_id: NVME_ADMIN_NAMESPACE_ID,
                            blocking: true,
                        },
                    )
                }
            },
            BpStage::Downloading { chunk_bytes, index } => if outcome is Err {
                Next::Finished(outcome)
            } else if index + 1 < chunk_count(self.len(), chunk_bytes) {
                Next::Perform(
                    BpStage::Downloading { chunk_bytes, index: (index + 1) as usize },
                    NvmeAction::Submit {
                        packet: download_packet_spec(chunk_bytes, (index + 1) as usize),
                        transfer: Transfer::Data {
                            start: ((index + 1) * chunk_bytes) as usize,
                            len: chunk_bytes,
                        },
                        namespace_id: NVME_ADMIN_NAMESPACE_ID,
                        blocking: true,
                    },
                )
            } else {
                Next::Perform(
                    BpStage::Committing,
                    NvmeAction::Submit {
                        packet: commit_packet_spec(self.bank()),
                        transfer: Transfer::NoData,
                        namespace_id: NVME_ADMIN_NAMESPACE_ID,
                        blocking: true,
                    },
                )
            },
            BpStage::Committing => Next::Finished(outcome),
        }
    }

    /// Hands the firmware's answer to the write and gets its next step.
    pub fn step(self, reply: &NvmeReply) -> (r: Next<BpWrite, NvmeAction, ()>)
        requires
            self.waits_for() == BpStage::Identifying && admin_outcome_spec(
                reply.status,
                reply.completion,
            ) is Ok ==> reply.controller_data@.len() == IDENTIFY_BUFFER_BYTES,
        ensures
            bp_stages(r) == self.step_result(*reply),
            reply.status != EFI_SUCCESS ==> r == Next::<BpWrite, NvmeAction, ()>::Finished(
                Err(efi_error_of(reply.status)),
            ),
            (self.waits_for() == BpStage::Identifying || self.waits_for() is Downloading
                || self.waits_for() == BpStage::Committing) && reply.status == EFI_SUCCESS
                && reply.completion.dw3 >= 0x2_0000 ==> r == Next::<BpWrite, NvmeAction, ()>::Finished(
                Err(efi_error_of(efi_error_code(7) as usize)),
            ),
            r matches Next::Perform(m, _) ==> m.bank() == self.bank() && m.len() == self.len()
                && m.inv() && m.calls_left() < self.calls_left(),
    {
        proof {
            use_type_invariant(&self);
        }
        let status = reply.status;
        match self.stage {
            BpStage::Locating => {
                if status != EFI_SUCCESS {
                    return Next::Finished(Err(status_error(status)));
                }
                Next::Perform(
                    BpWrite { stage: BpStage::Opening, ..self },
                    NvmeAction::OpenPassThru,
                )
            },
            BpStage::Opening => {
                if status != EFI_SUCCESS {
                    return Next::Finished(Err(status_error(status)));
                }
                Next::Perform(
                    BpWrite { stage: BpStage::Identifying, ..self },
                    NvmeAction::Submit {
                        packet: identify_packet(),
                        transfer: Transfer::ControllerData,
                        namespace_id: NVME_ADMIN_NAMESPACE_ID,
                        blocking: true,
                    },
                )
            },
            BpStage::Identifying => {
                let outcome = admin_outcome(status, &reply.completion);
                if outcome.is_err() {
                    return Next::Finished(outcome);
                }
                let mdts = reply.controller_data[ID_CTRL_OFFSET_MDTS];
                let fwug = reply.controller_data[ID_CTRL_OFFSET_FWUG];
                let chunk = chunk_bytes(mdts, fwug);
                if self.data_len % chunk != 0 {
                    return Next::Finished(Err(invalid_parameter()));
                }
                if self.data_len == 0 {
                    let packet = commit_packet(self.bank_id);
                    return Next::Perform(
                        BpWrite { stage: BpStage::Committing, ..self },
                        NvmeAction::Submit {
                            packet,
                            transfer: Transfer::NoData,
                            namespace_id: NVME_ADMIN_NAMESPACE_ID,
                            blocking: true,
                        },
                    );
                }
                proof {
                    assert(chunk_count(self.data_len, chunk) <= self.data_len) by (nonlinear_arith)
                        requires chunk >= 4096;
                    assert(chunk_count(self.data_len, chunk) >= 1) by (nonlinear_arith)
                        requires chunk >= 4096, self.data_len > 0, self.data_len % chunk == 0;
                }
                Next::Perform(
                    BpWrite { stage: BpStage::Downloading { chunk_bytes: chunk, index: 0 }, ..self },
                    NvmeAction::Submit {
                        packet: download_packet(chunk, 0),
                        transfer: Transfer::Data { start: 0, len: chunk },
                        namespace_id: NVME_ADMIN_NAMESPACE_ID,
                        blocking: true,
                    },
                )
            },
            BpStage::Downloading { chunk_bytes, index } => {
                let outcome = admin_outcome(status, &reply.completion);
                if outcome.is_err() {
                    return Next::Finished(outcome);
                }
                let count = self.data_len / chunk_bytes;
                if index + 1 < count {
                    let next = index + 1;
                    proof {
                        assert(next * chunk_bytes <= self.data_len) by (nonlinear_arith)
                            requires
                                next < count,
                                count == self.data_len / chunk_bytes,
                                chunk_bytes > 0,
                        ;
                    }
                    Next::Perform(
                        BpWrite { stage: BpStage::Downloading { chunk_bytes, index: next }, ..self },
                        NvmeAction::Submit {
                            packet: download_packet(chunk_bytes, next),
                            transfer: Transfer::Data { start: next * chunk_bytes, len: chunk_bytes },
                            namespace_id: NVME_ADMIN_NAMESPACE_ID,
                            blocking: true,
                        },
                    )
                } else {
                    let packet = commit_packet(self.bank_id);
                    Next::Perform(
                        BpWrite { stage: BpStage::Committing, ..self },
                        NvmeAction::Submit {
                            packet,
                            transfer: Transfer::NoData,
                            namespace_id: NVME_ADMIN_NAMESPACE_ID,
                            blocking: true,
                        },
                    )
                }
            },
            BpStage::Committing => Next::Finished(admin_outcome(status, &reply.completion)),
        }
    }
}

/// A step of a boot-partition write, with the write's state shown as the stage it waits in.
pub open spec fn bp_stages(r: Next<BpWrite, NvmeAction, ()>) -> Next<BpStage, NvmeAction, ()> {
    match r {
        Next::Perform(m, a) => Next::Perform(m.waits_for(), a),
        Next::Finished(res) => Next::Finished(res),
    }
}

/// Starts writing `data_len` bytes into NVMe boot partition `bank_id` (0 or 1): a bank other
/// than 0 or 1 is refused with INVALID_PARAMETER before any firmware call; otherwise the first
/// call locates the controller.
pub fn bp_write(bank_id: u8, data_len: usize) -> (r: Next<BpWrite, NvmeAction, ()>)
    ensures
        bank_id > 1 ==> r == Next::<BpWrite, NvmeAction, ()>::Finished(
            Err(efi_error_of(efi_error_code(2) as usize)),
        ),
        bank_id <= 1 ==> (r matches Next::Perform(m, a) && a == NvmeAction::LocateController
            && m.waits_for() == BpStage::Locating && m.bank() == bank_id && m.len() == data_len
            && m.inv()),
{
    if bank_id > 1 {
        return Next::Finished(Err(invalid_parameter()));
    }
    Next::Perform(
        BpWrite { bank_id, data_len, stage: BpStage::Locating },
        NvmeAction::LocateController,
    )
}

/// The Firmware Image Download chunks tile the data: with a chunk size that divides the
/// length, chunk `k` covers bytes `k * chunk_bytes .. (k + 1) * chunk_bytes`, every chunk lies
/// inside the data, consecutive chunks are adjacent, and the last one ends at the data's end.
pub proof fn lemma_download_chunks_tile_data(data_len: usize, chunk_bytes: usize)
    requires
        chunk_bytes > 0,
        data_len % chunk_bytes == 0,
    ensures
        chunk_count(data_len, chunk_bytes) * chunk_bytes == data_len,
        forall|k: int|
            0 <= k < chunk_count(data_len, chunk_bytes) ==> #[trigger] (k * chunk_bytes)
                + chunk_bytes <= data_len,
{
    let n = chunk_count(data_len, chunk_bytes);
    assert(n * chunk_bytes == data_len) by (nonlinear_arith)
        requires
            n == data_len as int / chunk_bytes as int,
            data_len % chunk_bytes == 0,
            chunk_bytes > 0,
    ;
    assert forall|k: int| 0 <= k < n implies #[trigger] (k * chunk_bytes) + chunk_bytes
        <= data_len by {
        assert((k + 1) * chunk_bytes <= n * chunk_bytes) by (nonlinear_arith)
            requires
                k + 1 <= n,
                chunk_bytes > 0,
        ;
        assert((k + 1) * chunk_bytes == k * chunk_bytes + chunk_bytes) by (nonlinear_arith);
    }
}

/// A boot-partition write ends in `Ok` only on a successful answer to the Firmware Commit:
/// no other answer, in any stage, finishes it successfully.
pub proof fn lemma_bp_ok_only_after_commit(m: BpWrite, reply: NvmeReply)
    ensures
        m.step_result(reply) == Next::<BpStage, NvmeAction, ()>::Finished(Ok(())) ==> {
            &&& m.waits_for() == BpStage::Committing
            &&& reply.status == EFI_SUCCESS
            &&& reply.completion.dw3 < 0x2_0000
        },
{
}

/// The Firmware Commit is issued only once every chunk has been downloaded: right after the
/// Identify Controller answer when there is no data, or right after the answer to the last
/// chunk's download.
pub proof fn lemma_bp_commit_after_last_chunk(m: BpWrite, reply: NvmeReply)
    requires
        m.inv(),
    ensures
        m.step_result(reply) matches Next::Perform(BpStage::Committing, _) ==> {
            ||| m.waits_for() == BpStage::Identifying && m.len() == 0
            ||| m.waits_for() matches BpStage::Downloading { chunk_bytes, index } && index + 1
                == chunk_count(m.len(), chunk_bytes)
        },
{
}

/// After a failed answer, a boot-partition write makes no further firmware call: it finishes
/// with the error for the failing status.
pub proof fn lemma_bp_failure_stops(m: BpWrite, reply: NvmeReply)
    requires
        reply.status != EFI_SUCCESS,
    ensures
        m.step_result(reply) == Next::<BpStage, NvmeAction, ()>::Finished(
            Err(efi_error_of(reply.status)),
        ),
{
}

/// An answer in which the call succeeded and the controller accepted the command.
pub open spec fn accepted(reply: NvmeReply) -> bool {
    reply.status == EFI_SUCCESS && reply.completion.dw3 < 0x2_0000
}

/// The download calls for chunks `from .. count` of `chunk_bytes` bytes, in order.
pub open spec fn download_calls(chunk_bytes: usize, from: nat, count: nat) -> Seq<NvmeAction>
    decreases count - from,
{
    if from >= count {
        Seq::empty()
    } else {
        seq![
            NvmeAction::Submit {
                packet: download_packet_spec(chunk_bytes, from as usize),
                transfer: Transfer::Data { start: (from * chunk_bytes) as usize, len: chunk_bytes },
                namespace_id: NVME_ADMIN_NAMESPACE_ID,
                blocking: true,
            },
        ] + download_calls(chunk_bytes, from + 1, count)
    }
}

/// The Firmware Commit call for boot partition `bank_id`.
pub open spec fn commit_call(bank_id: u8) -> NvmeAction {
    NvmeAction::Submit {
        packet: commit_packet_spec(bank_id),
        transfer: Transfer::NoData,
        namespace_id: NVME_ADMIN_NAMESPACE_ID,
        blocking: true,
    }
}

/// The calls a boot-partition write makes when it is handed `replies` one after the other,
/// and its result if it finished within them.
pub open spec fn bp_run(m: BpWrite, replies: Seq<NvmeReply>) -> (Seq<NvmeAction>, Option<
    Result<(), EfiError>,
>)
    decreases replies.len(),
{
    if replies.len() == 0 {
        (Seq::empty(), None)
    } else {
        match m.step_result(replies[0]) {
            Next::Perform(stage, action) => {
                let rest = bp_run(m.with_stage(stage), replies.drop_first());
                (seq![action] + rest.0, rest.1)
            },
            Next::Finished(r) => (Seq::empty(), Some(r)),
        }
    }
}

/// From the download of chunk `index` on, a write whose answers are all accepted downloads
/// the remaining chunks in order, commits, and succeeds.
proof fn lemma_bp_run_downloads_then_commits(m: BpWrite, replies: Seq<NvmeReply>)
    requires
        m.inv(),
        m.waits_for() matches BpStage::Downloading { chunk_bytes, index } && replies.len()
            == chunk_count(m.len(), chunk_bytes) - index + 1,
        forall|i: int| 0 <= i < replies.len() ==> #[trigger] accepted(replies[i]),
    ensures
        m.waits_for() matches BpStage::Downloading { chunk_bytes, index } && bp_run(m, replies)
            == (download_calls(
            chunk_bytes,
            (index + 1) as nat,
            chunk_count(m.len(), chunk_bytes) as nat,
        ).push(commit_call(m.bank())), Some(Ok::<(), EfiError>(()))),
    decreases replies.len(),
{
    if let BpStage::Downloading { chunk_bytes, index } = m.waits_for() {
        let count = chunk_count(m.len(), chunk_bytes);
        assert(accepted(replies[0]));
        let rest = replies.drop_first();
        if index + 1 < count {
            let next = m.with_stage(BpStage::Downloading { chunk_bytes, index: (index + 1) as usize });
            assert(next.inv());
            assert forall|i: int| 0 <= i < rest.len() implies #[trigger] accepted(rest[i]) by {
                assert(accepted(replies[i + 1]));
            }
            lemma_bp_run_downloads_then_commits(next, rest);
            assert(download_calls(chunk_bytes, (index + 1) as nat, count as nat) =~= seq![
                NvmeAction::Submit {
                    packet: download_packet_spec(chunk_bytes, (index + 1) as usize),
                    transfer: Transfer::Data {
                        start: ((index + 1) * chunk_bytes) as usize,
                        len: chunk_bytes,
                    },
                    namespace_id: NVME_ADMIN_NAMESPACE_ID,
                    blocking: true,
                },
            ] + download_calls(chunk_bytes, (index + 2) as nat, count as nat));
            assert(bp_run(m, replies).0 =~= download_calls(
                chunk_bytes,
                (index + 1) as nat,
                count as nat,
            ).push(commit_call(m.bank())));
        } else {
            let last = m.with_stage(BpStage::Committing);
            assert(rest.len() == 1);
            assert(accepted(rest[0]));
            assert(bp_run(last, rest.drop_first()) == (Seq::<NvmeAction>::empty(), None::<Result<(), EfiError>>));
            assert(bp_run(last, rest) == (Seq::<NvmeAction>::empty(), Some(Ok::<(), EfiError>(()))));
            assert(download_calls(chunk_bytes, (index + 1) as nat, count as nat) =~= Seq::empty());
            assert(bp_run(m, replies).0 =~= download_calls(
                chunk_bytes,
                (index + 1) as nat,
                count as nat,
            ).push(commit_call(m.bank())));
        }
    }
}

/// A boot-partition write whose answers all succeed makes exactly the calls the NVMe boot
/// partition update needs, in order: it opens the Pass-Thru protocol, reads the Identify
/// Controller data, downloads the image chunk by chunk at the size that FWUG and MDTS give,
/// each chunk at its own offset, then issues one Firmware Commit for its boot partition, and
/// succeeds.
pub proof fn lemma_bp_successful_run(m: BpWrite, replies: Seq<NvmeReply>)
    requires
        m.inv(),
        m.waits_for() == BpStage::Locating,
        replies.len() >= 3,
        replies[0].status == EFI_SUCCESS,
        replies[1].status == EFI_SUCCESS,
        replies[2].controller_data@.len() == IDENTIFY_BUFFER_BYTES,
        forall|i: int| 2 <= i < replies.len() ==> #[trigger] accepted(replies[i]),
        ({
            let chunk = download_chunk_bytes(
                replies[2].controller_data@[ID_CTRL_OFFSET_MDTS as int],
                replies[2].controller_data@[ID_CTRL_OFFSET_FWUG as int],
            );
            &&& m.len() as int % chunk == 0
            &&& replies.len() == m.len() as int / chunk + 4
        }),
    ensures
        ({
            let chunk = download_chunk_bytes(
                replies[2].controller_data@[ID_CTRL_OFFSET_MDTS as int],
                replies[2].controller_data@[ID_CTRL_OFFSET_FWUG as int],
            ) as usize;
            bp_run(m, replies) == (seq![
                NvmeAction::OpenPassThru,
                NvmeAction::Submit {
                    packet: identify_packet_spec(),
                    transfer: Transfer::ControllerData,
                    namespace_id: NVME_ADMIN_NAMESPACE_ID,
                    blocking: true,
                },
            ] + download_calls(chunk, 0, (m.len() / chunk) as nat).push(commit_call(m.bank())), Some(
                Ok::<(), EfiError>(()),
            ))
        }),
{
    let chunk = download_chunk_bytes(
        replies[2].controller_data@[ID_CTRL_OFFSET_MDTS as int],
        replies[2].controller_data@[ID_CTRL_OFFSET_FWUG as int],
    ) as usize;
    lemma_chunk_bounds(
        replies[2].controller_data@[ID_CTRL_OFFSET_MDTS as int],
        replies[2].controller_data@[ID_CTRL_OFFSET_FWUG as int],
    );
    let r1 = replies.drop_first();
    let r2 = r1.drop_first();
    let r3 = r2.drop_first();
    assert(r2[0] == replies[2]);
    assert(accepted(replies[2]));
    let opening = m.with_stage(BpStage::Opening);
    let identifying = m.with_stage(BpStage::Identifying);
    let count = m.len() / chunk;
    let calls = seq![
        NvmeAction::OpenPassThru,
        NvmeAction::Submit {
            packet: identify_packet_spec(),
            transfer: Transfer::ControllerData,
            namespace_id: NVME_ADMIN_NAMESPACE_ID,
            blocking: true,
        },
    ];
    assert(r1[0] == replies[1]);
    assert(m.step_result(replies[0]) == Next::<BpStage, NvmeAction, ()>::Perform(
        BpStage::Opening,
        NvmeAction::OpenPassThru,
    ));
    assert(opening.step_result(r1[0]) == Next::<BpStage, NvmeAction, ()>::Perform(
        BpStage::Identifying,
        calls[1],
    ));
    assert(opening.with_stage(BpStage::Identifying) == identifying);
    assert(bp_run(m, replies).0 == seq![calls[0]] + bp_run(opening, r1).0);
    assert(bp_run(opening, r1).0 == seq![calls[1]] + bp_run(identifying, r2).0);
    assert(bp_run(m, replies).1 == bp_run(identifying, r2).1);
    if m.len() == 0 {
        let committing = m.with_stage(BpStage::Committing);
        assert(r3.len() == 1);
        assert(accepted(replies[3]));
        assert(r3[0] == replies[3]);
        assert(bp_run(committing, r3.drop_first()) == (Seq::<NvmeAction>::empty(), None::<Result<(), EfiError>>));
        assert(bp_run(committing, r3) == (Seq::<NvmeAction>::empty(), Some(Ok::<(), EfiError>(()))));
        assert(identifying.step_result(r2[0]) == Next::<BpStage, NvmeAction, ()>::Perform(
            BpStage::Committing,
            commit_call(m.bank()),
        ));
        assert(identifying.with_stage(BpStage::Committing) == committing);
        assert(bp_run(identifying, r2).0 == seq![commit_call(m.bank())] + bp_run(committing, r3).0);
        assert(download_calls(chunk, 0, count as nat) =~= Seq::empty());
        assert(bp_run(m, replies).0 =~= calls + download_calls(chunk, 0, count as nat).push(
            commit_call(m.bank()),
        ));
    } else {
        assert(count >= 1) by (nonlinear_arith)
            requires
                count == m.len() as int / chunk as int,
                m.len() > 0,
                m.len() % chunk == 0,
                chunk > 0,
        ;
        let downloading = m.with_stage(BpStage::Downloading { chunk_bytes: chunk, index: 0 });
        assert(downloading.inv());
        assert forall|i: int| 0 <= i < r3.len() implies #[trigger] accepted(r3[i]) by {
            assert(r3[i] == replies[i + 3]);
            assert(accepted(replies[i + 3]));
        }
        lemma_bp_run_downloads_then_commits(downloading, r3);
        let first = NvmeAction::Submit {
            packet: download_packet_spec(chunk, 0),
            transfer: Transfer::Data { start: 0, len: chunk },
            namespace_id: NVME_ADMIN_NAMESPACE_ID,
            blocking: true,
        };
        assert(identifying.step_result(r2[0]) == Next::<BpStage, NvmeAction, ()>::Perform(
            BpStage::Downloading { chunk_bytes: chunk, index: 0 },
            first,
        ));
        assert(identifying.with_stage(BpStage::Downloading { chunk_bytes: chunk, index: 0 }) == downloading);
        assert(bp_run(identifying, r2).0 == seq![first] + bp_run(downloading, r3).0);
        assert(download_calls(chunk, 0, count as nat) =~= seq![
            NvmeAction::Submit {
                packet: download_packet_spec(chunk, 0),
                transfer: Transfer::Data { start: 0, len: chunk },
                namespace_id: NVME_ADMIN_NAMESPACE_ID,
                blocking: true,
            },
        ] + download_calls(chunk, 1, count as nat));
        assert(bp_run(m, replies).0 =~= calls + download_calls(chunk, 0, count as nat).push(
            commit_call(m.bank()),
        ));
    }
}

/// A command rejected by the controller stops a boot-partition write: once the Pass-Thru
/// protocol is open, an answer whose call succeeded but whose completion carries a non-zero
/// Status Field (DW3 bits 31:17) finishes the write with DEVICE_ERROR, whatever command it
/// answers (Identify, any chunk's download, or the commit), and no further call is made.
pub proof fn lemma_bp_rejected_command_stops(m: BpWrite, reply: NvmeReply)
    requires
        m.waits_for() == BpStage::Identifying || m.waits_for() is Downloading || m.waits_for()
            == BpStage::Committing,
        reply.status == EFI_SUCCESS,
        reply.completion.dw3 >= 0x2_0000,
    ensures
        m.step_result(reply) == Next::<BpStage, NvmeAction, ()>::Finished(
            Err(efi_error_of(efi_error_code(7) as usize)),
        ),
        forall|rest: Seq<NvmeReply>| #[trigger] bp_run(m, seq![reply] + rest) == (
            Seq::<NvmeAction>::empty(),
            Some(Err::<(), EfiError>(efi_error_of(efi_error_code(7) as usize))),
        ),
{
    assert forall|rest: Seq<NvmeReply>| #[trigger] bp_run(m, seq![reply] + rest) == (
        Seq::<NvmeAction>::empty(),
        Some(Err::<(), EfiError>(efi_error_of(efi_error_code(7) as usize))),
    ) by {
        assert((seq![reply] + rest)[0] == reply);
    }
}

/// A failed call stops a boot-partition write with the error for the call's own status, in
/// every stage, and no further call is made.
pub proof fn lemma_bp_failed_call_stops(m: BpWrite, reply: NvmeReply, rest: Seq<NvmeReply>)
    requires
        reply.status != EFI_SUCCESS,
    ensures
        bp_run(m, seq![reply] + rest) == (
            Seq::<NvmeAction>::empty(),
            Some(Err::<(), EfiError>(efi_error_of(reply.status))),
        ),
{
    assert((seq![reply] + rest)[0] == reply);
}

/// The download chunk never exceeds either limit the controller sets: it is at most the FWUG
/// granularity (FWUG units of 4 KiB, or 4 KiB when FWUG is 0 or 0xFF) and, when MDTS is between
/// 1 and 19, at most the maximum data transfer size of 2^MDTS pages of 4 KiB; and it is the
/// larger of the two that fits, that is, one of the two limits.
pub proof fn lemma_chunk_respects_fwug_and_mdts(mdts: u8, fwug: u8)
    ensures
        download_chunk_bytes(mdts, fwug) <= (if fwug == 0 || fwug == 0xFF {
            4096
        } else {
            fwug * 4096
        }),
        0 < mdts < 20 ==> download_chunk_bytes(mdts, fwug) <= 4096 * pow2(mdts as nat),
        download_chunk_bytes(mdts, fwug) == (if fwug == 0 || fwug == 0xFF {
            4096
        } else {
            fwug * 4096
        }) || (0 < mdts < 20 && download_chunk_bytes(mdts, fwug) == 4096 * pow2(mdts as nat)),
{
}

/// Every packet that the boot-partition write issues marks exactly the command dwords it uses
/// as valid: CDW10 carries a value only with CMD_FLAG_CDW10_VALID set, CDW11 only with
/// CMD_FLAG_CDW11_VALID set, and CDW12 to CDW15 are unused. The Firmware Commit marks CDW10
/// valid and carries commit action 110b in CDW10 bits 5:3 and the boot partition in bit 31.
pub proof fn lemma_bp_packets_mark_dwords_valid(bank_id: u8, chunk_bytes: usize, index: usize)
    requires
        bank_id <= 1,
        4096 <= chunk_bytes,
    ensures
        marks_used_dwords(identify_packet_spec().nvme_cmd),
        marks_used_dwords(download_packet_spec(chunk_bytes, index).nvme_cmd),
        marks_used_dwords(commit_packet_spec(bank_id).nvme_cmd),
        commit_packet_spec(bank_id).nvme_cmd.flags & CMD_FLAG_CDW10_VALID != 0,
        (commit_packet_spec(bank_id).nvme_cmd.cdw10 >> 3u32) & 0b111 == 0b110,
        commit_packet_spec(bank_id).nvme_cmd.cdw10 >> 31u32 == bank_id,
{
    assert((1u8 << 2u8) == 4u8 && (1u8 << 3u8) == 8u8 && (4u8 | 8u8) == 12u8) by (bit_vector);
    assert(4u8 & 4u8 != 0 && 12u8 & 4u8 != 0 && 12u8 & 8u8 != 0) by (bit_vector);
    let b = bank_id as u32;
    let cdw10 = (bank_id * 0x8000_0000 + 6 * 8) as u32;
    assert(cdw10 == b * 0x8000_0000 + 48);
    assert((cdw10 >> 3u32) & 0b111u32 == 0b110u32 && cdw10 >> 31u32 == b) by (bit_vector)
        requires
            b <= 1,
            cdw10 == b * 0x8000_0000 + 48,
    ;
}

/// The chunk size that FWUG and MDTS give is between 4 KiB and 254 * 4 KiB.
proof fn lemma_chunk_bounds(mdts: u8, fwug: u8)
    ensures
        4096 <= download_chunk_bytes(mdts, fwug) <= 254 * 4096,
{
    if !(mdts == 0 || mdts >= 20) {
        lemma2_to64();
        lemma_pow2_strictly_increases(0, mdts as nat);
        assert(4096 * pow2(0) < 4096 * pow2(mdts as nat)) by (nonlinear_arith)
            requires
                pow2(0) < pow2(mdts as nat),
        ;
    }
}

} // verus!
