//! Raw block-level writes via `EFI_BLOCK_IO_PROTOCOL`: the data goes to LBA 0, zero-padded
//! to whole blocks, followed by a flush.
use crate::status::{
    check_status, device_error_code, efi_error_code, efi_error_of, no_media_code,
    status_error, write_protected_code, Next, EFI_SUCCESS,
};
use patina::error::EfiError;
use vstd::prelude::*;

verus! {

/// The fields of the BlockIo media descriptor that a raw write reads.
#[derive(Clone, Copy, PartialEq, Eq, Structural, Debug)]
pub struct BlockMedia {
    /// Current media identifier, forwarded to `WriteBlocks`.
    pub media_id: u32,
    /// Whether a medium is present.
    pub media_present: bool,
    /// Whether the medium is read-only.
    pub read_only: bool,
    /// Bytes per block.
    pub block_size: u32,
}

/// The next firmware call a raw write needs.
#[derive(Debug)]
pub enum BlockIoAction {
    /// `locate_device_path` for the BlockIo protocol GUID on the caller's device path.
    LocateBlockIo,
    /// `handle_protocol` for BlockIo on the located handle, then read its media descriptor.
    OpenBlockIo,
    /// `WriteBlocks(media_id, lba, buffer.len(), buffer)`.
    WriteBlocks { media_id: u32, lba: u64, buffer: Vec<u8> },
    /// `FlushBlocks`.
    FlushBlocks,
}

/// What the firmware answered to a `BlockIoAction`.
pub struct BlockIoReply {
    /// Raw EFI status of the call.
    pub status: usize,
    /// The media descriptor, read after a successful `OpenBlockIo` (ignored otherwise).
    pub media: BlockMedia,
}

impl BlockIoReply {
    /// The answer to a call that reports only a status.
    pub fn status_only(status: usize) -> (r: Self)
        ensures
            r.status == status,
            r.media == (BlockMedia { media_id: 0, media_present: false, read_only: false, block_size: 0 }),
    {
        BlockIoReply {
            status,
            media: BlockMedia { media_id: 0, media_present: false, read_only: false, block_size: 0 },
        }
    }
}

/// `len` rounded up to a whole number of `block_size` blocks.
pub open spec fn padded_len(len: nat, block_size: nat) -> nat
    recommends
        block_size > 0,
{
    ((len + block_size - 1) / block_size as int * block_size) as nat
}

/// `data` followed by zeros up to a whole number of `block_size` blocks.
pub open spec fn padded_data(data: Seq<u8>, block_size: nat) -> Seq<u8> {
    data + Seq::new((padded_len(data.len(), block_size) - data.len()) as nat, |i: int| 0u8)
}

/// The error a raw write stops with after the BlockIo protocol was opened with `status`
/// and `media`, or `None` when it goes on to write.
pub open spec fn open_error(status: usize, media: BlockMedia) -> Option<usize> {
    if status != EFI_SUCCESS {
        Some(status)
    } else if !media.media_present {
        Some(efi_error_code(12) as usize)
    } else if media.read_only {
        Some(efi_error_code(8) as usize)
    } else if media.block_size == 0 {
        Some(efi_error_code(7) as usize)
    } else {
        None
    }
}

/// A `BlockIoAction` with its buffer shown as a byte sequence.
pub enum RawCall {
    LocateBlockIo,
    OpenBlockIo,
    WriteBlocks { media_id: u32, lba: u64, buffer: Seq<u8> },
    FlushBlocks,
}

/// The call a `BlockIoAction` makes.
pub open spec fn raw_call(a: BlockIoAction) -> RawCall {
    match a {
        BlockIoAction::LocateBlockIo => RawCall::LocateBlockIo,
        BlockIoAction::OpenBlockIo => RawCall::OpenBlockIo,
        BlockIoAction::WriteBlocks { media_id, lba, buffer } => RawCall::WriteBlocks {
            media_id,
            lba,
            buffer: buffer@,
        },
        BlockIoAction::FlushBlocks => RawCall::FlushBlocks,
    }
}

/// One step of a raw write, with the write's state shown as its stage and the bytes it holds.
pub enum RawStep {
    Perform { stage: RawWriteStage, data: Seq<u8>, call: RawCall },
    Finished(Result<(), EfiError>),
}

/// Where a raw write stands: which answer it waits for.
#[derive(Clone, Copy, PartialEq, Eq, Structural, Debug)]
pub enum RawWriteStage {
    /// Waiting for the partition handle.
    Locating,
    /// Waiting for the BlockIo protocol and its media descriptor.
    Opening,
    /// Waiting for the answer to `WriteBlocks`.
    Writing,
    /// Waiting for the answer to `FlushBlocks`.
    Flushing,
}

/// A raw write of data to LBA 0 of a partition, in progress.
pub struct RawWrite {
    data: Vec<u8>,
    stage: RawWriteStage,
}

impl RawWrite {
    /// The bytes still to be written (empty once they were handed to `WriteBlocks`).
    pub closed spec fn data(self) -> Seq<u8> {
        self.data@
    }

    /// The answer the write waits for.
    pub closed spec fn waits_for(self) -> RawWriteStage {
        self.stage
    }

    /// The number of firmware calls still to come, at most.
    pub open spec fn calls_left(self) -> nat {
        match self.waits_for() {
            RawWriteStage::Locating => 4,
            RawWriteStage::Opening => 3,
            RawWriteStage::Writing => 2,
            RawWriteStage::Flushing => 1,
        }
    }

    /// Whether the next answer must carry the media descriptor.
    pub fn awaits_media(&self) -> (b: bool)
        ensures
            b <==> self.waits_for() == RawWriteStage::Opening,
    {
        match self.stage {
            RawWriteStage::Opening => true,
            _ => false,
        }
    }

    /// What the write does with the firmware's answer `reply`: the stage it waits in next,
    /// the bytes it still holds and the call to make, or its result.
    pub open spec fn step_result(self, reply: BlockIoReply) -> RawStep {
        raw_transition(self.waits_for(), self.data(), reply)
    }
}

/// What a raw write waiting in `stage` and holding `data` does with the firmware's answer
/// `reply`.
pub open spec fn raw_transition(stage: RawWriteStage, data: Seq<u8>, reply: BlockIoReply) -> RawStep {
    let status = reply.status;
    let failed = Err::<(), EfiError>(efi_error_of(status));
    match stage {
        RawWriteStage::Locating => if status != EFI_SUCCESS {
            RawStep::Finished(failed)
        } else {
            RawStep::Perform {
                stage: RawWriteStage::Opening,
                data,
                call: RawCall::OpenBlockIo,
            }
        },
        RawWriteStage::Opening => match open_error(status, reply.media) {
            Some(code) => RawStep::Finished(Err(efi_error_of(code))),
            None => RawStep::Perform {
                stage: RawWriteStage::Writing,
                data: Seq::empty(),
                call: RawCall::WriteBlocks {
                    media_id: reply.media.media_id,
                    lba: 0,
                    buffer: padded_data(data, reply.media.block_size as nat),
                },
            },
        },
        RawWriteStage::Writing => if status != EFI_SUCCESS {
            RawStep::Finished(failed)
        } else {
            RawStep::Perform {
                stage: RawWriteStage::Flushing,
                data: Seq::empty(),
                call: RawCall::FlushBlocks,
            }
        },
        RawWriteStage::Flushing => if status != EFI_SUCCESS {
            RawStep::Finished(failed)
        } else {
            RawStep::Finished(Ok(()))
        },
    }
}

impl RawWrite {
    /// Hands the firmware's answer to the write and gets its next step.
    pub fn step(self, reply: &BlockIoReply) -> (r: Next<RawWrite, BlockIoAction, ()>)
        requires
            self.waits_for() == RawWriteStage::Opening && open_error(reply.status, reply.media)
                is None ==> self.data().len() + reply.media.block_size <= usize::MAX,
        ensures
            raw_step(r) == self.step_result(*reply),
            reply.status != EFI_SUCCESS ==> r == Next::<RawWrite, BlockIoAction, ()>::Finished(
                Err(efi_error_of(reply.status)),
            ),
            r matches Next::Perform(m, _) ==> m.calls_left() < self.calls_left(),
    {
        let status = reply.status;
        match self.stage {
            RawWriteStage::Locating => {
                if status != EFI_SUCCESS {
                    return Next::Finished(Err(status_error(status)));
                }
                Next::Perform(
                    RawWrite { data: self.data, stage: RawWriteStage::Opening },
                    BlockIoAction::OpenBlockIo,
                )
            },
            RawWriteStage::Opening => {
                if status != EFI_SUCCESS {
                    return Next::Finished(Err(status_error(status)));
                }
                let media = reply.media;
                if !media.media_present {
                    return Next::Finished(Err(status_error(no_media_code())));
                }
                if media.read_only {
                    return Next::Finished(Err(status_error(write_protected_code())));
                }
                let block_size = media.block_size as usize;
                if block_size == 0 {
                    return Next::Finished(Err(status_error(device_error_code())));
                }
                let len = self.data.len();
                proof {
                    let n = (len + block_size - 1) / block_size as int;
                    assert(len <= n * block_size < len + block_size) by (nonlinear_arith)
                        requires
                            n == (len + block_size - 1) / block_size as int,
                            block_size > 0,
                    ;
                }
                let aligned = (len + block_size - 1) / block_size * block_size;
                let mut buffer = self.data;
                buffer.resize(aligned, 0u8);
                assert(buffer@ =~= padded_data(self.data@, block_size as nat));
                Next::Perform(
                    RawWrite { data: Vec::new(), stage: RawWriteStage::Writing },
                    BlockIoAction::WriteBlocks { media_id: media.media_id, lba: 0, buffer },
                )
            },
            RawWriteStage::Writing => {
                if status != EFI_SUCCESS {
                    return Next::Finished(Err(status_error(status)));
                }
                Next::Perform(
                    RawWrite { data: Vec::new(), stage: RawWriteStage::Flushing },
                    BlockIoAction::FlushBlocks,
                )
            },
            RawWriteStage::Flushing => Next::Finished(check_status(status)),
        }
    }
}

/// A step of a raw write, seen through `RawStep`.
pub open spec fn raw_step(r: Next<RawWrite, BlockIoAction, ()>) -> RawStep {
    match r {
        Next::Perform(m, a) => RawStep::Perform { stage: m.waits_for(), data: m.data(), call: raw_call(a) },
        Next::Finished(res) => RawStep::Finished(res),
    }
}

/// Starts writing `data` to LBA 0 of a partition. Empty data is a no-op that succeeds
/// without any firmware call; otherwise the first call locates the partition's BlockIo.
pub fn write_partition_raw(data: Vec<u8>) -> (r: Next<RawWrite, BlockIoAction, ()>)
    ensures
        data@.len() == 0 ==> r == Next::<RawWrite, BlockIoAction, ()>::Finished(Ok(())),
        data@.len() > 0 ==> (r matches Next::Perform(m, BlockIoAction::LocateBlockIo)
            && m.waits_for() == RawWriteStage::Locating && m.data() == data@),
{
    if data.len() == 0 {
        return Next::Finished(Ok(()));
    }
    Next::Perform(RawWrite { data, stage: RawWriteStage::Locating }, BlockIoAction::LocateBlockIo)
}

/// The padded length is the smallest whole number of blocks that holds the data: a multiple
/// of the block size, at least the data's length, and less than one block more.
pub proof fn lemma_padded_len_is_smallest_block_multiple(len: nat, block_size: nat)
    requires
        block_size > 0,
    ensures
        padded_len(len, block_size) % block_size == 0,
        len <= padded_len(len, block_size) < len + block_size,
{
    let n = (len + block_size - 1) / block_size as int;
    assert(len <= n * block_size < len + block_size) by (nonlinear_arith)
        requires
            n == (len + block_size - 1) / block_size as int,
            block_size > 0,
    ;
    assert((n * block_size) % block_size as int == 0) by (nonlinear_arith)
        requires
            block_size > 0,
            n >= 0,
    ;
}

/// The written buffer starts with the data unchanged and holds only zeros after it.
pub proof fn lemma_padding_is_zero(data: Seq<u8>, block_size: nat)
    requires
        block_size > 0,
    ensures
        padded_data(data, block_size).len() == padded_len(data.len(), block_size),
        padded_data(data, block_size).subrange(0, data.len() as int) == data,
        forall|i: int|
            data.len() <= i < padded_data(data, block_size).len() ==> #[trigger] padded_data(
                data,
                block_size,
            )[i] == 0,
{
    lemma_padded_len_is_smallest_block_multiple(data.len(), block_size);
    assert(padded_data(data, block_size).subrange(0, data.len() as int) =~= data);
}

/// The calls a raw write waiting in `stage` and holding `data` makes when it is handed
/// `replies` one after the other, and its result if it finished within them.
pub open spec fn raw_run(stage: RawWriteStage, data: Seq<u8>, replies: Seq<BlockIoReply>) -> (
    Seq<RawCall>,
    Option<Result<(), EfiError>>,
)
    decreases replies.len(),
{
    if replies.len() == 0 {
        (Seq::empty(), None)
    } else {
        match raw_transition(stage, data, replies[0]) {
            RawStep::Perform { stage: next, data: kept, call } => {
                let rest = raw_run(next, kept, replies.drop_first());
                (seq![call] + rest.0, rest.1)
            },
            RawStep::Finished(r) => (Seq::empty(), Some(r)),
        }
    }
}

/// A raw write of non-empty data to a present, writable medium whose calls all succeed
/// opens BlockIo, writes the data zero-padded to whole blocks at LBA 0 with the medium's id,
/// flushes, and succeeds.
pub proof fn lemma_raw_write_successful_run(data: Seq<u8>, replies: Seq<BlockIoReply>)
    requires
        replies.len() == 4,
        forall|i: int| 0 <= i < 4 ==> #[trigger] replies[i].status == EFI_SUCCESS,
        replies[1].media.media_present,
        !replies[1].media.read_only,
        replies[1].media.block_size > 0,
    ensures
        raw_run(RawWriteStage::Locating, data, replies) == (seq![
            RawCall::OpenBlockIo,
            RawCall::WriteBlocks {
                media_id: replies[1].media.media_id,
                lba: 0,
                buffer: padded_data(data, replies[1].media.block_size as nat),
            },
            RawCall::FlushBlocks,
        ], Some(Ok::<(), EfiError>(()))),
{
    let r = |k: int| replies.subrange(k, 4);
    assert forall|k: int| 0 <= k < 4 implies (#[trigger] r(k))[0] == replies[k] && r(k).drop_first() == r(k + 1) by {
        assert(r(k).drop_first() =~= r(k + 1));
    }
    assert(replies =~= r(0));
    assert(replies[0].status == EFI_SUCCESS);
    assert(replies[1].status == EFI_SUCCESS);
    assert(replies[2].status == EFI_SUCCESS);
    assert(replies[3].status == EFI_SUCCESS);
    let write = RawCall::WriteBlocks {
        media_id: replies[1].media.media_id,
        lba: 0,
        buffer: padded_data(data, replies[1].media.block_size as nat),
    };
    let tail3 = raw_run(RawWriteStage::Flushing, Seq::empty(), r(3));
    assert(tail3 == (Seq::<RawCall>::empty(), Some(Ok::<(), EfiError>(()))));
    let tail2 = raw_run(RawWriteStage::Writing, Seq::empty(), r(2));
    assert(tail2.0 == seq![RawCall::FlushBlocks] + tail3.0);
    let tail1 = raw_run(RawWriteStage::Opening, data, r(1));
    assert(tail1.0 == seq![write] + tail2.0);
    let tail0 = raw_run(RawWriteStage::Locating, data, r(0));
    assert(tail0.0 == seq![RawCall::OpenBlockIo] + tail1.0);
    assert(tail0.0 =~= seq![RawCall::OpenBlockIo, write, RawCall::FlushBlocks]);
}

/// A failed firmware call ends a raw write with the error for that call's own status, in
/// every stage (locating, opening, `WriteBlocks`, `FlushBlocks`), and no further call is made.
pub proof fn lemma_raw_write_failure_reports_status(
    m: RawWrite,
    reply: BlockIoReply,
    rest: Seq<BlockIoReply>,
)
    requires
        reply.status != EFI_SUCCESS,
    ensures
        m.step_result(reply) == RawStep::Finished(Err(efi_error_of(reply.status))),
        raw_run(m.waits_for(), m.data(), seq![reply] + rest) == (
            Seq::<RawCall>::empty(),
            Some(Err::<(), EfiError>(efi_error_of(reply.status))),
        ),
{
    assert((seq![reply] + rest)[0] == reply);
}

/// A raw write succeeds only on a successful answer to `FlushBlocks`, which it issues only
/// after `WriteBlocks` succeeded: no other answer finishes it with `Ok`.
pub proof fn lemma_raw_write_ok_only_after_flush(m: RawWrite, reply: BlockIoReply)
    ensures
        m.step_result(reply) == RawStep::Finished(Ok(())) ==> m.waits_for()
            == RawWriteStage::Flushing && reply.status == EFI_SUCCESS,
        m.step_result(reply) matches RawStep::Perform { call: RawCall::FlushBlocks, .. } ==> m.waits_for()
            == RawWriteStage::Writing && reply.status == EFI_SUCCESS,
{
}

/// `WriteBlocks` is issued only for a present, writable medium with a non-zero block size,
/// and always at LBA 0 with the zero-padded data.
pub proof fn lemma_raw_write_checks_media_first(m: RawWrite, reply: BlockIoReply)
    ensures
        m.step_result(reply) matches RawStep::Perform { call: RawCall::WriteBlocks { lba, buffer, .. }, .. }
            ==> {
            &&& m.waits_for() == RawWriteStage::Opening
            &&& reply.status == EFI_SUCCESS
            &&& reply.media.media_present
            &&& !reply.media.read_only
            &&& reply.media.block_size > 0
            &&& lba == 0
            &&& buffer == padded_data(m.data(), reply.media.block_size as nat)
        },
{
}

} // verus!
