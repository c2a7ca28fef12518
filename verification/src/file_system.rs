//! File reads via `EFI_SIMPLE_FILE_SYSTEM_PROTOCOL`, and the UCS-2 encoding of the file path
//! that the file protocol's open call takes.
use crate::status::{efi_error_of, status_error, Next, EFI_SUCCESS};
use patina::error::EfiError;
use vstd::prelude::*;
use vstd::utf8::char_is_scalar;

verus! {

/// The UTF-16 code units of one character: the code point itself below 0x10000, else a
/// high surrogate carrying the top ten bits of `c - 0x10000` and a low surrogate carrying the
/// bottom ten.
pub open spec fn utf16_units(c: char) -> Seq<u16> {
    let v = c as u32;
    if v < 0x1_0000 {
        seq![v as u16]
    } else {
        seq![(0xD800 + (v - 0x1_0000) / 0x400) as u16, (0xDC00 + (v - 0x1_0000) % 0x400) as u16]
    }
}

/// The UTF-16 encoding of a character sequence.
pub open spec fn utf16_encode(s: Seq<char>) -> Seq<u16>
    decreases s.len(),
{
    if s.len() == 0 {
        Seq::empty()
    } else {
        utf16_encode(s.drop_last()) + utf16_units(s.last())
    }
}

/// Encodes `s` as a null-terminated UTF-16 buffer, the form UEFI file-protocol calls take.
pub fn encode_ucs2_null_terminated(s: &str) -> (out: Vec<u16>)
    ensures
        out@ == utf16_encode(s@).push(0u16),
{
    let n = s.unicode_len();
    let mut out: Vec<u16> = Vec::new();
    let mut i: usize = 0;
    while i < n
        invariant
            n == s@.len(),
            i <= n,
            out@ == utf16_encode(s@.subrange(0, i as int)),
        decreases n - i,
    {
        let c = s.get_char(i);
        let v = c as u32;
        if v < 0x1_0000 {
            out.push(v as u16);
        } else {
            let w = v - 0x1_0000;
            out.push((0xD800 + w / 0x400) as u16);
            out.push((0xDC00 + w % 0x400) as u16);
        }
        proof {
            let prefix = s@.subrange(0, i + 1);
            assert(prefix.drop_last() =~= s@.subrange(0, i as int));
            assert(prefix.last() == c);
        }
        i = i + 1;
    }
    assert(s@.subrange(0, n as int) =~= s@);
    out.push(0);
    out
}

/// The encoding of a string has one or two units per character.
pub proof fn lemma_utf16_len_bounds(s: Seq<char>)
    ensures
        s.len() <= utf16_encode(s).len() <= 2 * s.len(),
    decreases s.len(),
{
    if s.len() > 0 {
        lemma_utf16_len_bounds(s.drop_last());
    }
}

/// A string of characters below 0x10000 encodes to its code points, one unit each, so the
/// buffer is one unit longer than the string and ends with the only terminator.
pub proof fn lemma_bmp_string_encodes_to_code_points(s: Seq<char>)
    requires
        forall|i: int| 0 <= i < s.len() ==> (#[trigger] s[i] as u32) < 0x1_0000,
    ensures
        utf16_encode(s).len() == s.len(),
        forall|i: int| 0 <= i < s.len() ==> #[trigger] utf16_encode(s)[i] == (s[i] as u32) as u16,
    decreases s.len(),
{
    if s.len() > 0 {
        let t = s.drop_last();
        assert forall|i: int| 0 <= i < t.len() implies (#[trigger] t[i] as u32) < 0x1_0000 by {
            assert(t[i] == s[i]);
        }
        lemma_bmp_string_encodes_to_code_points(t);
        assert(s.last() == s[s.len() - 1]);
        assert(utf16_encode(s) == utf16_encode(t) + utf16_units(s.last()));
        assert forall|i: int| 0 <= i < s.len() implies #[trigger] utf16_encode(s)[i] == (
        s[i] as u32) as u16 by {
            if i < t.len() {
                assert(t[i] == s[i]);
            }
        }
    }
}

/// Only a NUL character encodes to a zero unit: a string without NUL encodes to non-zero
/// units, so the appended terminator is the buffer's first zero.
pub proof fn lemma_no_nul_no_zero_unit(s: Seq<char>)
    requires
        forall|i: int| 0 <= i < s.len() ==> (#[trigger] s[i] as u32) != 0,
    ensures
        forall|j: int| 0 <= j < utf16_encode(s).len() ==> #[trigger] utf16_encode(s)[j] != 0,
    decreases s.len(),
{
    if s.len() > 0 {
        let t = s.drop_last();
        assert forall|i: int| 0 <= i < t.len() implies (#[trigger] t[i] as u32) != 0 by {
            assert(t[i] == s[i]);
        }
        lemma_no_nul_no_zero_unit(t);
        assert(s.last() == s[s.len() - 1]);
        let u = utf16_units(s.last());
        assert(utf16_encode(s) == utf16_encode(t) + u);
        assert forall|k: int| 0 <= k < u.len() implies #[trigger] u[k] != 0 by {
            let v = s.last() as u32;
            char_is_scalar(s.last());
            assert(v != 0);
            if v < 0x1_0000 {
                assert(u[k] == v as u16);
            } else {
                assert(0 <= (v - 0x1_0000) / 0x400 < 0x400);
                assert(0 <= (v - 0x1_0000) % 0x400 < 0x400);
            }
        }
        assert forall|j: int| 0 <= j < utf16_encode(s).len() implies #[trigger] utf16_encode(
            s,
        )[j] != 0 by {
            if j >= utf16_encode(t).len() {
                assert(utf16_encode(s)[j] == u[j - utf16_encode(t).len()]);
            } else {
                assert(utf16_encode(s)[j] == utf16_encode(t)[j]);
            }
        }
    }
}

/// `EFI_FILE_MODE_READ`: open a file for reading.
pub const FILE_MODE_READ: u64 = 0x0000_0000_0000_0001;

/// The next firmware call a file read needs.
#[derive(Clone, Copy, PartialEq, Eq, Structural, Debug)]
pub enum FileAction {
    /// `locate_device_path` for the SimpleFileSystem protocol GUID on the device path.
    LocateFileSystem,
    /// `handle_protocol` for SimpleFileSystem on the located handle.
    OpenFileSystem,
    /// `OpenVolume`, which opens the root directory.
    OpenVolume,
    /// `Open` on the root directory with the machine's encoded path, in `mode` and with
    /// `attributes` (which only apply when a file is created).
    OpenFile { mode: u64, attributes: u64 },
    /// `SetPosition` on the file.
    SetPosition { position: u64 },
    /// `GetPosition` on the file.
    GetPosition,
    /// `Read` on the file into a zeroed buffer of `buffer_size` bytes.
    Read { buffer_size: usize },
    /// `Close` on the file.
    CloseFile,
    /// `Close` on the root directory.
    CloseRoot,
}

/// What the firmware answered to a `FileAction`.
pub struct FileReply {
    /// Raw EFI status of the call (ignored for the two `Close` calls).
    pub status: usize,
    /// The position that `GetPosition` reported (ignored otherwise).
    pub position: u64,
    /// The buffer after `Read` (ignored otherwise).
    pub buffer: Vec<u8>,
    /// The byte count that `Read` reported (ignored otherwise).
    pub read_size: usize,
}

impl FileReply {
    /// The answer to a call that reports only a status.
    pub fn status_only(status: usize) -> (r: Self)
        ensures
            r.status == status,
            r.position == 0,
            r.buffer@.len() == 0,
            r.read_size == 0,
    {
        FileReply { status, position: 0, buffer: Vec::new(), read_size: 0 }
    }
}

/// Where a file read stands: which answer it waits for.
#[derive(Clone, Copy, PartialEq, Eq, Structural, Debug)]
pub enum ReadStage {
    /// Waiting for the partition handle.
    Locating,
    /// Waiting for the SimpleFileSystem protocol on that handle.
    Opening,
    /// Waiting for the root directory.
    OpeningVolume,
    /// Waiting for the file to open.
    OpeningFile,
    /// Waiting for the seek to the end of the file.
    SeekingEnd,
    /// Waiting for the position at the end, which is the file's size.
    Measuring,
    /// Waiting for the seek back to the start; the file holds `size` bytes.
    Rewinding { size: u64 },
    /// Waiting for the read.
    Reading,
    /// Waiting for the file to close.
    ClosingFile,
    /// Waiting for the root directory to close.
    ClosingRoot,
}

/// One step of a file read, with the read's state shown as the stage it waits in and the
/// result it will finish with once its handles are closed.
pub enum ReadStep {
    Perform { stage: ReadStage, pending: Result<Seq<u8>, EfiError>, action: FileAction },
    Finished(Result<Seq<u8>, EfiError>),
}

/// The first `n` bytes of `buffer`, or all of it when it is shorter.
pub open spec fn truncated(buffer: Seq<u8>, n: usize) -> Seq<u8> {
    if n <= buffer.len() {
        buffer.subrange(0, n as int)
    } else {
        buffer
    }
}

/// The handles a file read holds open, and has not yet asked to close, while it waits in
/// `stage`: the root directory from the moment it opened, and the file.
pub open spec fn handles_open(stage: ReadStage) -> nat {
    match stage {
        ReadStage::OpeningFile => 1,
        ReadStage::SeekingEnd => 2,
        ReadStage::Measuring => 2,
        ReadStage::Rewinding { .. } => 2,
        ReadStage::Reading => 2,
        ReadStage::ClosingFile => 1,
        _ => 0,
    }
}

/// The file's contents as a `Result` over byte sequences.
pub open spec fn read_result_view(r: Result<Vec<u8>, EfiError>) -> Result<Seq<u8>, EfiError> {
    match r {
        Ok(v) => Ok(v@),
        Err(e) => Err(e),
    }
}

/// A read of a whole file from a partition's file system, in progress.
pub struct ReadPartitionFile {
    path: Vec<u16>,
    stage: ReadStage,
    pending: Result<Vec<u8>, EfiError>,
}

impl ReadPartitionFile {
    /// The null-terminated UTF-16 path the file is opened with.
    pub closed spec fn encoded_path(self) -> Seq<u16> {
        self.path@
    }

    /// The answer the read waits for.
    pub closed spec fn waits_for(self) -> ReadStage {
        self.stage
    }

    /// The result the read finishes with once its handles are closed.
    pub closed spec fn pending(self) -> Result<Seq<u8>, EfiError> {
        read_result_view(self.pending)
    }

    /// The number of firmware calls still to come, at most.
    pub open spec fn calls_left(self) -> nat {
        match self.waits_for() {
            ReadStage::Locating => 10,
            ReadStage::Opening => 9,
            ReadStage::OpeningVolume => 8,
            ReadStage::OpeningFile => 7,
            ReadStage::SeekingEnd => 6,
            ReadStage::Measuring => 5,
            ReadStage::Rewinding { .. } => 4,
            ReadStage::Reading => 3,
            ReadStage::ClosingFile => 2,
            ReadStage::ClosingRoot => 1,
        }
    }

    /// The encoded path, for the `OpenFile` call.
    pub fn path(&self) -> (p: &Vec<u16>)
        ensures
            p@ == self.encoded_path(),
    {
        &self.path
    }

    /// What the read does with the firmware's answer `reply`. A failure after the root
    /// directory opened is kept as the result while the open handles are closed, file first.
    pub open spec fn step_result(self, reply: FileReply) -> ReadStep {
        read_transition(self.waits_for(), self.pending(), reply)
    }
}

/// What a file read waiting in `stage`, holding the result `pending`, does with the
/// firmware's answer `reply`. A failure after the root directory opened is kept as the result
/// while the open handles are closed, file first.
pub open spec fn read_transition(
    stage: ReadStage,
    pending: Result<Seq<u8>, EfiError>,
    reply: FileReply,
) -> ReadStep {
    let status = reply.status;
    let failed = Err::<Seq<u8>, EfiError>(efi_error_of(status));
    let none = Ok::<Seq<u8>, EfiError>(Seq::empty());
    match stage {
        ReadStage::Locating => if status != EFI_SUCCESS {
            ReadStep::Finished(failed)
        } else {
            ReadStep::Perform {
                stage: ReadStage::Opening,
                pending: none,
                action: FileAction::OpenFileSystem,
            }
        },
        ReadStage::Opening => if status != EFI_SUCCESS {
            ReadStep::Finished(failed)
        } else {
            ReadStep::Perform {
                stage: ReadStage::OpeningVolume,
                pending: none,
                action: FileAction::OpenVolume,
            }
        },
        ReadStage::OpeningVolume => if status != EFI_SUCCESS {
            ReadStep::Finished(failed)
        } else {
            ReadStep::Perform {
                stage: ReadStage::OpeningFile,
                pending: none,
                action: FileAction::OpenFile { mode: FILE_MODE_READ, attributes: 0 },
            }
        },
        ReadStage::OpeningFile => if status != EFI_SUCCESS {
            ReadStep::Perform {
                stage: ReadStage::ClosingRoot,
                pending: failed,
                action: FileAction::CloseRoot,
            }
        } else {
            ReadStep::Perform {
                stage: ReadStage::SeekingEnd,
                pending: none,
                action: FileAction::SetPosition { position: u64::MAX },
            }
        },
        ReadStage::SeekingEnd => if status != EFI_SUCCESS {
            ReadStep::Perform {
                stage: ReadStage::ClosingFile,
                pending: failed,
                action: FileAction::CloseFile,
            }
        } else {
            ReadStep::Perform {
                stage: ReadStage::Measuring,
                pending: none,
                action: FileAction::GetPosition,
            }
        },
        ReadStage::Measuring => if status != EFI_SUCCESS {
            ReadStep::Perform {
                stage: ReadStage::ClosingFile,
                pending: failed,
                action: FileAction::CloseFile,
            }
        } else {
            ReadStep::Perform {
                stage: ReadStage::Rewinding { size: reply.position },
                pending: none,
                action: FileAction::SetPosition { position: 0 },
            }
        },
        ReadStage::Rewinding { size } => if status != EFI_SUCCESS {
            ReadStep::Perform {
                stage: ReadStage::ClosingFile,
                pending: failed,
                action: FileAction::CloseFile,
            }
        } else {
            ReadStep::Perform {
                stage: ReadStage::Reading,
                pending: none,
                action: FileAction::Read { buffer_size: size as usize },
            }
        },
        ReadStage::Reading => if status != EFI_SUCCESS {
            ReadStep::Perform {
                stage: ReadStage::ClosingFile,
                pending: failed,
                action: FileAction::CloseFile,
            }
        } else {
            ReadStep::Perform {
                stage: ReadStage::ClosingFile,
                pending: Ok(truncated(reply.buffer@, reply.read_size)),
                action: FileAction::CloseFile,
            }
        },
        ReadStage::ClosingFile => ReadStep::Perform {
            stage: ReadStage::ClosingRoot,
            pending,
            action: FileAction::CloseRoot,
        },
        ReadStage::ClosingRoot => ReadStep::Finished(pending),
    }
}

impl ReadPartitionFile {
    /// Hands the firmware's answer to the read and gets its next step.
    pub fn step(self, reply: FileReply) -> (r: Next<ReadPartitionFile, FileAction, Vec<u8>>)
        ensures
            read_step(r) == self.step_result(reply),
            self.waits_for() != ReadStage::ClosingFile && self.waits_for() != ReadStage::ClosingRoot
                && reply.status != EFI_SUCCESS ==> match r {
                Next::Perform(m, _) => m.pending() == Err::<Seq<u8>, EfiError>(
                    efi_error_of(reply.status),
                ),
                Next::Finished(res) => res == Err::<Vec<u8>, EfiError>(efi_error_of(reply.status)),
            },
            r matches Next::Perform(m, _) ==> m.encoded_path() == self.encoded_path()
                && m.calls_left() < self.calls_left(),
    {
        let status = reply.status;
        let path = self.path;
        match self.stage {
            ReadStage::Locating => {
                if status != EFI_SUCCESS {
                    return Next::Finished(Err(status_error(status)));
                }
                Next::Perform(
                    ReadPartitionFile { path, stage: ReadStage::Opening, pending: Ok(Vec::new()) },
                    FileAction::OpenFileSystem,
                )
            },
            ReadStage::Opening => {
                if status != EFI_SUCCESS {
                    return Next::Finished(Err(status_error(status)));
                }
                Next::Perform(
                    ReadPartitionFile { path, stage: ReadStage::OpeningVolume, pending: Ok(Vec::new()) },
                    FileAction::OpenVolume,
                )
            },
            ReadStage::OpeningVolume => {
                if status != EFI_SUCCESS {
                    return Next::Finished(Err(status_error(status)));
                }
                Next::Perform(
                    ReadPartitionFile { path, stage: ReadStage::OpeningFile, pending: Ok(Vec::new()) },
                    FileAction::OpenFile { mode: FILE_MODE_READ, attributes: 0 },
                )
            },
            ReadStage::OpeningFile => {
                if status != EFI_SUCCESS {
                    return Next::Perform(
                        ReadPartitionFile {
                            path,
                            stage: ReadStage::ClosingRoot,
                            pending: Err(status_error(status)),
                        },
                        FileAction::CloseRoot,
                    );
                }
                Next::Perform(
                    ReadPartitionFile { path, stage: ReadStage::SeekingEnd, pending: Ok(Vec::new()) },
                    FileAction::SetPosition { position: u64::MAX },
                )
            },
            ReadStage::SeekingEnd => {
                if status != EFI_SUCCESS {
                    return Next::Perform(
                        ReadPartitionFile {
                            path,
                            stage: ReadStage::ClosingFile,
                            pending: Err(status_error(status)),
                        },
                        FileAction::CloseFile,
                    );
                }
                Next::Perform(
                    ReadPartitionFile { path, stage: ReadStage::Measuring, pending: Ok(Vec::new()) },
                    FileAction::GetPosition,
                )
            },
            ReadStage::Measuring => {
                if status != EFI_SUCCESS {
                    return Next::Perform(
                        ReadPartitionFile {
                            path,
                            stage: ReadStage::ClosingFile,
                            pending: Err(status_error(status)),
                        },
                        FileAction::CloseFile,
                    );
                }
                Next::Perform(
                    ReadPartitionFile {
                        path,
                        stage: ReadStage::Rewinding { size: reply.position },
                        pending: Ok(Vec::new()),
                    },
                    FileAction::SetPosition { position: 0 },
                )
            },
            ReadStage::Rewinding { size } => {
                if status != EFI_SUCCESS {
                    return Next::Perform(
                        ReadPartitionFile {
                            path,
                            stage: ReadStage::ClosingFile,
                            pending: Err(status_error(status)),
                        },
                        FileAction::CloseFile,
                    );
                }
                Next::Perform(
                    ReadPartitionFile { path, stage: ReadStage::Reading, pending: Ok(Vec::new()) },
                    FileAction::Read { buffer_size: size as usize },
                )
            },
            ReadStage::Reading => {
                if status != EFI_SUCCESS {
                    return Next::Perform(
                        ReadPartitionFile {
                            path,
                            stage: ReadStage::ClosingFile,
                            pending: Err(status_error(status)),
                        },
                        FileAction::CloseFile,
                    );
                }
                let mut buffer = reply.buffer;
                buffer.truncate(reply.read_size);
                Next::Perform(
                    ReadPartitionFile { path, stage: ReadStage::ClosingFile, pending: Ok(buffer) },
                    FileAction::CloseFile,
                )
            },
            ReadStage::ClosingFile => Next::Perform(
                ReadPartitionFile { path, stage: ReadStage::ClosingRoot, pending: self.pending },
                FileAction::CloseRoot,
            ),
            ReadStage::ClosingRoot => Next::Finished(self.pending),
        }
    }
}

/// A step of a file read, with the read's state shown as its stage and pending result.
pub open spec fn read_step(r: Next<ReadPartitionFile, FileAction, Vec<u8>>) -> ReadStep {
    match r {
        Next::Perform(m, a) => ReadStep::Perform {
            stage: m.waits_for(),
            pending: m.pending(),
            action: a,
        },
        Next::Finished(res) => ReadStep::Finished(read_result_view(res)),
    }
}

/// Starts reading the file at `file_path` (a partition-relative UEFI path such as
/// `\EFI\BOOT\BOOTX64.EFI`): the path is encoded as null-terminated UTF-16, and the first call
/// locates the partition's file system.
pub fn read_partition_file(file_path: &str) -> (r: Next<ReadPartitionFile, FileAction, Vec<u8>>)
    ensures
        r matches Next::Perform(m, FileAction::LocateFileSystem) && m.waits_for()
            == ReadStage::Locating && m.encoded_path() == utf16_encode(file_path@).push(0u16),
{
    let path = encode_ucs2_null_terminated(file_path);
    Next::Perform(
        ReadPartitionFile { path, stage: ReadStage::Locating, pending: Ok(Vec::new()) },
        FileAction::LocateFileSystem,
    )
}

/// The calls a file read waiting in `stage` with result `pending` makes when it is handed
/// `replies` one after the other, and its result if it finished within them.
pub open spec fn read_run(
    stage: ReadStage,
    pending: Result<Seq<u8>, EfiError>,
    replies: Seq<FileReply>,
) -> (Seq<FileAction>, Option<Result<Seq<u8>, EfiError>>)
    decreases replies.len(),
{
    if replies.len() == 0 {
        (Seq::empty(), None)
    } else {
        match read_transition(stage, pending, replies[0]) {
            ReadStep::Perform { stage: next, pending: kept, action } => {
                let rest = read_run(next, kept, replies.drop_first());
                (seq![action] + rest.0, rest.1)
            },
            ReadStep::Finished(r) => (Seq::empty(), Some(r)),
        }
    }
}

/// A file read whose calls all succeed opens the file system, the root directory and the
/// file, measures the file by seeking to its end, seeks back, reads that many bytes, closes
/// the file and then the root directory (whatever the closes answer), and returns the bytes
/// the read reported.
pub proof fn lemma_read_successful_run(replies: Seq<FileReply>)
    requires
        replies.len() == 10,
        forall|i: int| 0 <= i < 8 ==> #[trigger] replies[i].status == EFI_SUCCESS,
    ensures
        read_run(ReadStage::Locating, Ok(Seq::empty()), replies) == (seq![
            FileAction::OpenFileSystem,
            FileAction::OpenVolume,
            FileAction::OpenFile { mode: FILE_MODE_READ, attributes: 0 },
            FileAction::SetPosition { position: u64::MAX },
            FileAction::GetPosition,
            FileAction::SetPosition { position: 0 },
            FileAction::Read { buffer_size: replies[5].position as usize },
            FileAction::CloseFile,
            FileAction::CloseRoot,
        ], Some(Ok::<Seq<u8>, EfiError>(truncated(replies[7].buffer@, replies[7].read_size)))),
{
    let none = Ok::<Seq<u8>, EfiError>(Seq::empty());
    let data = Ok::<Seq<u8>, EfiError>(truncated(replies[7].buffer@, replies[7].read_size));
    let size = replies[5].position;
    let r = |k: int| replies.subrange(k, 10);
    assert forall|k: int| 0 <= k < 10 implies (#[trigger] r(k))[0] == replies[k] && r(k).drop_first() == r(k + 1) by {
        assert(r(k).drop_first() =~= r(k + 1));
    }
    assert(replies =~= r(0));
    assert(replies[0].status == EFI_SUCCESS);
    assert(replies[1].status == EFI_SUCCESS);
    assert(replies[2].status == EFI_SUCCESS);
    assert(replies[3].status == EFI_SUCCESS);
    assert(replies[4].status == EFI_SUCCESS);
    assert(replies[5].status == EFI_SUCCESS);
    assert(replies[6].status == EFI_SUCCESS);
    assert(replies[7].status == EFI_SUCCESS);
    assert(r(9).drop_first() =~= Seq::<FileReply>::empty());
    let tail9 = read_run(ReadStage::ClosingRoot, data, r(9));
    assert(tail9 == (Seq::<FileAction>::empty(), Some(data)));
    let tail8 = read_run(ReadStage::ClosingFile, data, r(8));
    assert(tail8.0 == seq![FileAction::CloseRoot] + tail9.0);
    let tail7 = read_run(ReadStage::Reading, none, r(7));
    assert(tail7.0 == seq![FileAction::CloseFile] + tail8.0);
    let tail6 = read_run(ReadStage::Rewinding { size }, none, r(6));
    assert(tail6.0 == seq![FileAction::Read { buffer_size: size as usize }] + tail7.0);
    let tail5 = read_run(ReadStage::Measuring, none, r(5));
    assert(tail5.0 == seq![FileAction::SetPosition { position: 0 }] + tail6.0);
    let tail4 = read_run(ReadStage::SeekingEnd, none, r(4));
    assert(tail4.0 == seq![FileAction::GetPosition] + tail5.0);
    let tail3 = read_run(ReadStage::OpeningFile, none, r(3));
    assert(tail3.0 == seq![FileAction::SetPosition { position: u64::MAX }] + tail4.0);
    let tail2 = read_run(ReadStage::OpeningVolume, none, r(2));
    assert(tail2.0 == seq![FileAction::OpenFile { mode: FILE_MODE_READ, attributes: 0 }] + tail3.0);
    let tail1 = read_run(ReadStage::Opening, none, r(1));
    assert(tail1.0 == seq![FileAction::OpenVolume] + tail2.0);
    let tail0 = read_run(ReadStage::Locating, none, r(0));
    assert(tail0.0 == seq![FileAction::OpenFileSystem] + tail1.0);
    assert(tail0.1 == Some(data));
    assert(tail0.0 =~= seq![
        FileAction::OpenFileSystem,
        FileAction::OpenVolume,
        FileAction::OpenFile { mode: FILE_MODE_READ, attributes: 0 },
        FileAction::SetPosition { position: u64::MAX },
        FileAction::GetPosition,
        FileAction::SetPosition { position: 0 },
        FileAction::Read { buffer_size: size as usize },
        FileAction::CloseFile,
        FileAction::CloseRoot,
    ]);
}

/// Once a read holds a result to report while closing, it reports exactly that result.
proof fn lemma_closing_keeps_result(
    stage: ReadStage,
    pending: Result<Seq<u8>, EfiError>,
    replies: Seq<FileReply>,
)
    requires
        stage == ReadStage::ClosingFile || stage == ReadStage::ClosingRoot,
    ensures
        read_run(stage, pending, replies).1 matches Some(r) ==> r == pending,
    decreases replies.len(),
{
    if replies.len() > 0 && stage == ReadStage::ClosingFile {
        lemma_closing_keeps_result(ReadStage::ClosingRoot, pending, replies.drop_first());
    }
}

/// A failed call decides a file read's result: whatever the firmware answers afterwards, a
/// read whose call fails in any stage before closing (locate, open, `OpenVolume`, `Open`,
/// either `SetPosition`, `GetPosition` or `Read`) finishes, if at all, with the error for that
/// call's status. So a read finishes `Ok` only if every call through `Read` succeeded.
pub proof fn lemma_read_failure_decides_result(
    stage: ReadStage,
    pending: Result<Seq<u8>, EfiError>,
    reply: FileReply,
    rest: Seq<FileReply>,
)
    requires
        stage != ReadStage::ClosingFile,
        stage != ReadStage::ClosingRoot,
        reply.status != EFI_SUCCESS,
    ensures
        read_run(stage, pending, seq![reply] + rest).1 matches Some(r) ==> r == Err::<
            Seq<u8>,
            EfiError,
        >(efi_error_of(reply.status)),
{
    let replies = seq![reply] + rest;
    assert(replies[0] == reply);
    assert(replies.drop_first() =~= rest);
    match read_transition(stage, pending, reply) {
        ReadStep::Perform { stage: next, pending: kept, .. } => {
            lemma_closing_keeps_result(next, kept, rest);
        },
        ReadStep::Finished(_) => {},
    }
}

/// A failed `GetPosition` ends the read with its error: the file is closed next, with that
/// error kept as the result.
pub proof fn lemma_read_size_failure_closes_with_error(m: ReadPartitionFile, reply: FileReply)
    requires
        m.waits_for() == ReadStage::Measuring,
        reply.status != EFI_SUCCESS,
    ensures
        m.step_result(reply) == (ReadStep::Perform {
            stage: ReadStage::ClosingFile,
            pending: Err(efi_error_of(reply.status)),
            action: FileAction::CloseFile,
        }),
{
}

/// A file read never finishes while it holds a handle: every way out, success or failure,
/// comes after the file and the root directory it opened were closed.
pub proof fn lemma_read_finishes_with_handles_closed(m: ReadPartitionFile, reply: FileReply)
    ensures
        m.step_result(reply) is Finished ==> handles_open(m.waits_for()) == 0,
{
}

/// Handle accounting of a file read: after each answer, the handles it holds are those it
/// held, plus the one that a successful `OpenVolume` or `Open` created, minus the one that the
/// next call asks to close. So every handle it opens is closed exactly once.
pub proof fn lemma_read_handle_accounting(m: ReadPartitionFile, reply: FileReply)
    ensures
        m.step_result(reply) matches ReadStep::Perform { stage, action, .. } ==> handles_open(stage)
            + (if action == FileAction::CloseFile || action == FileAction::CloseRoot { 1int } else { 0int })
            == handles_open(m.waits_for()) + (if reply.status == EFI_SUCCESS && (m.waits_for()
            == ReadStage::OpeningVolume || m.waits_for() == ReadStage::OpeningFile) { 1int } else { 0int }),
{
}

/// A file read succeeds only after it read the file and closed both handles; its contents are
/// the bytes that the read reported, from the start of the file.
pub proof fn lemma_read_ok_only_after_read(m: ReadPartitionFile, reply: FileReply)
    ensures
        m.step_result(reply) matches ReadStep::Perform { stage: ReadStage::ClosingFile, pending: Ok(data), .. }
            ==> m.waits_for() == ReadStage::Reading && reply.status == EFI_SUCCESS
            && data == truncated(reply.buffer@, reply.read_size),
{
}

} // verus!
