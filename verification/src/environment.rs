use std::collections::VecDeque;
use std::time::{Duration, Instant};
use vstd::prelude::*;

use crate::bits::{i32_of, low8, signed32};
use crate::error::ExecutionError;
use crate::memory::{first_nul, padded, spans, Memory};

verus! {

/// `std::time::Instant`: a moment of the host's clock. Nothing is known of
/// what it holds.
#[verifier::external_type_specification]
#[verifier::external_body]
pub struct ExInstant(Instant);

/// The flags of the `open` system call, as the guest passes them.
#[derive(Clone, Copy, Debug, PartialEq, Eq, Structural)]
pub enum OpenFlags {
    OAccMode,
    ORdOnly,
    OWrOnly,
    ORdWr,
    OCreat,
    OExcl,
    ONoCtty,
    OTrunc,
    OAppend,
    ONonBlock,
    ODSync,
    FAsync,
    ODirect,
    OLargeFile,
    ODirectory,
    ONoFollow,
    ONoAtime,
    OCloExec,
    OSync,
    OPath,
    OTmpFile,
}

impl OpenFlags {
    /// The bits that stand for the flag.
    pub open spec fn mask(self) -> u32 {
        match self {
            OpenFlags::OAccMode => 0o00000003,
            OpenFlags::ORdOnly => 0o00000000,
            OpenFlags::OWrOnly => 0o00000001,
            OpenFlags::ORdWr => 0o00000002,
            OpenFlags::OCreat => 0o00000100,
            OpenFlags::OExcl => 0o00000200,
            OpenFlags::ONoCtty => 0o00000400,
            OpenFlags::OTrunc => 0o00001000,
            OpenFlags::OAppend => 0o00002000,
            OpenFlags::ONonBlock => 0o00004000,
            OpenFlags::ODSync => 0o00010000,
            OpenFlags::FAsync => 0o00020000,
            OpenFlags::ODirect => 0o00040000,
            OpenFlags::OLargeFile => 0o00100000,
            OpenFlags::ODirectory => 0o00200000,
            OpenFlags::ONoFollow => 0o00400000,
            OpenFlags::ONoAtime => 0o01000000,
            OpenFlags::OCloExec => 0o02000000,
            OpenFlags::OSync => 0o04000000,
            OpenFlags::OPath => 0o010000000,
            OpenFlags::OTmpFile => 0o020000000,
        }
    }

    /// The bits that stand for the flag.
    pub fn bits(&self) -> (r: u32)
        ensures
            r == self.mask(),
    {
        match self {
            OpenFlags::OAccMode => 0o00000003,
            OpenFlags::ORdOnly => 0o00000000,
            OpenFlags::OWrOnly => 0o00000001,
            OpenFlags::ORdWr => 0o00000002,
            OpenFlags::OCreat => 0o00000100,
            OpenFlags::OExcl => 0o00000200,
            OpenFlags::ONoCtty => 0o00000400,
            OpenFlags::OTrunc => 0o00001000,
            OpenFlags::OAppend => 0o00002000,
            OpenFlags::ONonBlock => 0o00004000,
            OpenFlags::ODSync => 0o00010000,
            OpenFlags::FAsync => 0o00020000,
            OpenFlags::ODirect => 0o00040000,
            OpenFlags::OLargeFile => 0o00100000,
            OpenFlags::ODirectory => 0o00200000,
            OpenFlags::ONoFollow => 0o00400000,
            OpenFlags::ONoAtime => 0o01000000,
            OpenFlags::OCloExec => 0o02000000,
            OpenFlags::OSync => 0o04000000,
            OpenFlags::OPath => 0o010000000,
            OpenFlags::OTmpFile => 0o020000000,
        }
    }
}

/// Whether any bit of `flag` is set in `flags`.
pub fn has_flag(flags: u32, flag: OpenFlags) -> (r: bool)
    ensures
        r == (flags & flag.mask() != 0),
{
    flags & flag.bits() != 0
}

/// A file that the guest has open: its number and the flags that it was
/// opened with. The host keeps the file itself, under the same number.
#[derive(Clone, Copy, Debug, PartialEq, Eq, Structural)]
pub struct FileDescriptor {
    pub fd: u32,
    pub flags: u32,
}

/// The guest's open files. Numbers 0, 1 and 2 are the host's standard
/// streams and are never stored. A closed file's number waits in a queue
/// and is given out again, oldest first, before any new number.
pub struct FileDescriptorTable {
    freed_fds: VecDeque<u32>,
    file_descriptors: Vec<FileDescriptor>,
}

/// The place of the first file numbered `fd` at or after `from`.
pub open spec fn index_of(files: Seq<FileDescriptor>, fd: u32, from: int) -> Option<int>
    decreases files.len() - from,
{
    if from < 0 || from >= files.len() {
        None
    } else if files[from].fd == fd {
        Some(from)
    } else {
        index_of(files, fd, from + 1)
    }
}

/// The number that the next file to be opened gets: the oldest freed one,
/// else the first that was never given out, counted from 3.
pub open spec fn next_number(files: Seq<FileDescriptor>, freed: Seq<u32>) -> Option<u32> {
    if freed.len() > 0 {
        Some(freed[0])
    } else if files.len() + 3 <= i32::MAX {
        Some((files.len() + 3) as u32)
    } else {
        None
    }
}

/// The table's invariant. The numbers that were ever given out are those
/// from 3 on, as many as there are open files and freed numbers together,
/// and all of them fit a signed word. No number stands twice: not for two
/// open files, not twice in the queue, and not both for an open file and
/// in the queue.
pub open spec fn numbers_valid(files: Seq<FileDescriptor>, freed: Seq<u32>) -> bool {
    &&& files.len() + freed.len() + 3 <= i32::MAX + 1
    &&& forall|i: int|
        0 <= i < files.len() ==> 3 <= (#[trigger] files[i]).fd < 3 + files.len() + freed.len()
    &&& forall|i: int|
        0 <= i < freed.len() ==> 3 <= #[trigger] freed[i] < 3 + files.len() + freed.len()
    &&& forall|i: int, j: int|
        0 <= i < j < files.len() ==> (#[trigger] files[i]).fd != (#[trigger] files[j]).fd
    &&& forall|i: int, j: int| 0 <= i < j < freed.len() ==> #[trigger] freed[i] != #[trigger] freed[j]
    &&& forall|i: int, j: int|
        0 <= i < files.len() && 0 <= j < freed.len() ==> (#[trigger] files[i]).fd
            != #[trigger] freed[j]
}

/// The number that the next file gets is not the number of an open file.
pub proof fn next_number_is_new(files: Seq<FileDescriptor>, freed: Seq<u32>)
    requires
        numbers_valid(files, freed),
    ensures
        match next_number(files, freed) {
            Some(fd) => index_of(files, fd, 0) is None && 3 <= fd <= i32::MAX,
            None => true,
        },
{
    if let Some(fd) = next_number(files, freed) {
        index_of_found(files, fd, 0);
    }
}

/// A found place is a place of the table, and the file there has the number.
pub proof fn index_of_found(files: Seq<FileDescriptor>, fd: u32, from: int)
    requires
        0 <= from,
    ensures
        match index_of(files, fd, from) {
            Some(i) => from <= i < files.len() && files[i].fd == fd && forall|j: int|
                from <= j < i ==> files[j].fd != fd,
            None => forall|j: int| from <= j < files.len() ==> files[j].fd != fd,
        },
    decreases files.len() - from,
{
    if from < files.len() && files[from].fd != fd {
        index_of_found(files, fd, from + 1);
    }
}

impl FileDescriptorTable {
    /// The open files, in the order in which the table holds them.
    pub closed spec fn files(&self) -> Seq<FileDescriptor> {
        self.file_descriptors@
    }

    /// The freed numbers, oldest first.
    pub closed spec fn freed(&self) -> Seq<u32> {
        self.freed_fds@
    }

    /// The table's invariant.
    pub open spec fn wf(&self) -> bool {
        numbers_valid(self.files(), self.freed())
    }

    /// A table without files.
    pub fn new() -> (t: FileDescriptorTable)
        ensures
            t.files() == Seq::<FileDescriptor>::empty(),
            t.freed() == Seq::<u32>::empty(),
            t.wf(),
    {
        FileDescriptorTable { freed_fds: VecDeque::new(), file_descriptors: Vec::new() }
    }

    /// The number that the next file to be opened gets, if one is left.
    pub fn next_fd(&self) -> (fd: Option<u32>)
        ensures
            fd == next_number(self.files(), self.freed()),
    {
        if self.freed_fds.len() > 0 {
            Some(self.freed_fds[0])
        } else if self.file_descriptors.len() <= 0x7fff_fffc {
            Some(self.file_descriptors.len() as u32 + 3)
        } else {
            None
        }
    }

    /// Enters a file that the host has opened, under the next number, and
    /// returns the number; -1 where no number is left.
    pub fn open(&mut self, flags: u32) -> (r: i32)
        requires
            old(self).wf(),
        ensures
            final(self).wf(),
            match next_number(old(self).files(), old(self).freed()) {
                Some(fd) => {
                    &&& r == fd
                    &&& final(self).files() == old(self).files().push(FileDescriptor { fd, flags })
                    &&& final(self).freed() == (if old(self).freed().len() > 0 {
                        old(self).freed().drop_first()
                    } else {
                        old(self).freed()
                    })
                },
                None => {
                    &&& r == -1
                    &&& final(self).files() == old(self).files()
                    &&& final(self).freed() == old(self).freed()
                },
            },
    {
        let fd = match self.next_fd() {
            Some(fd) => fd,
            None => { return -1; },
        };
        if self.freed_fds.len() > 0 {
            let _ = self.freed_fds.pop_front();
            assert(self.freed_fds@ =~= old(self).freed().drop_first());
        }
        self.file_descriptors.push(FileDescriptor { fd, flags });
        fd as i32
    }

    /// Forgets the file numbered `fd` and frees the number: 0, or -1 where
    /// no such file is open. The last file of the table takes its place.
    pub fn close(&mut self, fd: u32) -> (r: i32)
        requires
            old(self).wf(),
        ensures
            final(self).wf(),
            match index_of(old(self).files(), fd, 0) {
                Some(i) => {
                    &&& r == 0
                    &&& final(self).files() == old(self).files().update(
                        i,
                        old(self).files().last(),
                    ).drop_last()
                    &&& final(self).freed() == old(self).freed().push(fd)
                },
                None => {
                    &&& r == -1
                    &&& final(self).files() == old(self).files()
                    &&& final(self).freed() == old(self).freed()
                },
            },
    {
        let idx = self.get_idx(fd);
        // if we can't find the file then error
        if idx < 0 {
            return -1;
        }
        let i = idx as usize;
        self.freed_fds.push_back(self.file_descriptors[i].fd);
        let _ = self.file_descriptors.swap_remove(i);
        0
    }

    /// Whether a file numbered `fd` is open.
    pub fn get_file(&self, fd: u32) -> (r: Option<FileDescriptor>)
        requires
            self.wf(),
        ensures
            match index_of(self.files(), fd, 0) {
                Some(i) => r == Some(self.files()[i]),
                None => r is None,
            },
    {
        let idx = self.get_idx(fd);
        if idx < 0 {
            return None;
        }
        Some(self.file_descriptors[idx as usize])
    }

    /// The place of the file numbered `fd`, or -1.
    pub fn get_idx(&self, fd: u32) -> (r: i32)
        requires
            self.wf(),
        ensures
            match index_of(self.files(), fd, 0) {
                Some(i) => r == i && 0 <= i < self.files().len() && self.files()[i].fd == fd,
                None => r == -1,
            },
    {
        proof {
            index_of_found(self.files(), fd, 0);
        }
        let mut i: usize = 0;
        while i < self.file_descriptors.len()
            invariant
                i <= self.files().len() <= i32::MAX,
                index_of(self.files(), fd, 0) == index_of(self.files(), fd, i as int),
            decreases self.files().len() - i,
        {
            if self.file_descriptors[i].fd == fd {
                return i as i32;
            }
            i += 1;
        }
        -1
    }
}

/// What the machine asks of the host before an `ECALL` can be carried out.
#[derive(Clone, Debug, PartialEq, Eq)]
pub enum HostRequest {
    /// Open the file at `path`, creating it where `create` is set, and keep
    /// it under the number `fd`.
    Open { path: Vec<u8>, create: bool, fd: u32 },
    /// Let go of the file kept under `fd`.
    Close { fd: u32 },
    /// Read up to `len` bytes from standard input.
    ReadStdin { len: u32 },
    /// Read up to `len` bytes from the file kept under `fd`.
    ReadFile { fd: u32, len: u32 },
    /// Write the bytes to standard output, and flush it.
    WriteStdout { bytes: Vec<u8> },
    /// Write the bytes to standard error.
    WriteStderr { bytes: Vec<u8> },
    /// Append the bytes to the file kept under `fd`.
    WriteFile { fd: u32, bytes: Vec<u8> },
    /// Wait for so many milliseconds.
    Sleep { millis: u32 },
    /// End the host process with this status.
    Exit { status: u32 },
}

/// A `HostRequest` with its bytes as a sequence.
pub enum RequestView {
    Open { path: Seq<u8>, create: bool, fd: u32 },
    Close { fd: u32 },
    ReadStdin { len: u32 },
    ReadFile { fd: u32, len: u32 },
    WriteStdout { bytes: Seq<u8> },
    WriteStderr { bytes: Seq<u8> },
    WriteFile { fd: u32, bytes: Seq<u8> },
    Sleep { millis: u32 },
    Exit { status: u32 },
}

impl View for HostRequest {
    type V = RequestView;

    open spec fn view(&self) -> RequestView {
        match self {
            HostRequest::Open { path, create, fd } => RequestView::Open {
                path: path@,
                create: *create,
                fd: *fd,
            },
            HostRequest::Close { fd } => RequestView::Close { fd: *fd },
            HostRequest::ReadStdin { len } => RequestView::ReadStdin { len: *len },
            HostRequest::ReadFile { fd, len } => RequestView::ReadFile { fd: *fd, len: *len },
            HostRequest::WriteStdout { bytes } => RequestView::WriteStdout { bytes: bytes@ },
            HostRequest::WriteStderr { bytes } => RequestView::WriteStderr { bytes: bytes@ },
            HostRequest::WriteFile { fd, bytes } => RequestView::WriteFile { fd: *fd, bytes: bytes@ },
            HostRequest::Sleep { millis } => RequestView::Sleep { millis: *millis },
            HostRequest::Exit { status } => RequestView::Exit { status: *status },
        }
    }
}

/// What the host did with a `HostRequest`.
#[derive(Clone, Debug, PartialEq, Eq)]
pub enum HostReply {
    /// The file is open.
    Opened,
    /// The bytes that were read.
    Data(Vec<u8>),
    /// How many bytes were written.
    Written(usize),
    /// The request was carried out and has no result.
    Done,
    /// The host could not do it.
    Failed,
}

/// The view of a request that may be missing.
pub open spec fn request_view(request: Option<HostRequest>) -> Option<RequestView> {
    match request {
        Some(q) => Some(q@),
        None => None,
    }
}

/// The bytes that a read brought, if the host brought any.
pub open spec fn data_of(reply: Option<HostReply>) -> Option<Seq<u8>> {
    match reply {
        Some(HostReply::Data(d)) => Some(d@),
        _ => None,
    }
}

/// The number of bytes that a write took, if the host took any.
pub open spec fn written_of(reply: Option<HostReply>) -> Option<usize> {
    match reply {
        Some(HostReply::Written(n)) => Some(n),
        _ => None,
    }
}

/// A count of bytes as the guest sees it in `A0`: modulo 2^32, and read as
/// two's complement.
pub open spec fn count_result(count: int) -> int {
    signed32((count % 0x1_0000_0000) as u32)
}

/// What the host has to do before the system call `a7` with the arguments
/// `a0`, `a1`, `a2` can be carried out; `None` where the call needs nothing
/// of the host.
pub open spec fn request_of(
    files: Seq<FileDescriptor>,
    freed: Seq<u32>,
    ram: Seq<u8>,
    top: u32,
    a7: u32,
    a0: u32,
    a1: u32,
    a2: u32,
) -> Option<RequestView> {
    if a7 == 56 {
        match (first_nul(ram, a0 as int), next_number(files, freed)) {
            (Some(end), Some(fd)) => Some(
                RequestView::Open {
                    path: ram.subrange(a0 as int, end),
                    create: a1 & OpenFlags::OCreat.mask() != 0,
                    fd,
                },
            ),
            _ => None,
        }
    } else if a7 == 57 {
        if index_of(files, a0, 0) is Some {
            Some(RequestView::Close { fd: a0 })
        } else {
            None
        }
    } else if a7 == 63 {
        if a0 == 0 {
            Some(RequestView::ReadStdin { len: a2 })
        } else if a0 > 2 && index_of(files, a0, 0) is Some {
            Some(RequestView::ReadFile { fd: a0, len: a2 })
        } else {
            None
        }
    } else if a7 == 64 {
        if !spans(ram.len() as int, top, a1, a2) {
            None
        } else if a0 == 1 {
            Some(RequestView::WriteStdout { bytes: ram.subrange(a1 as int, a1 + a2) })
        } else if a0 == 2 {
            Some(RequestView::WriteStderr { bytes: ram.subrange(a1 as int, a1 + a2) })
        } else if a0 > 2 && index_of(files, a0, 0) is Some {
            Some(RequestView::WriteFile { fd: a0, bytes: ram.subrange(a1 as int, a1 + a2) })
        } else {
            None
        }
    } else if a7 == 77 {
        Some(RequestView::Sleep { millis: a0 })
    } else if a7 == 94 {
        Some(RequestView::Exit { status: a0 })
    } else {
        None
    }
}

/// The state that a system call works on: the table of open files and RAM.
pub struct Guest {
    pub files: Seq<FileDescriptor>,
    pub freed: Seq<u32>,
    pub ram: Seq<u8>,
    pub top: u32,
}

/// What the system call `a7` does, given what the host answered to the
/// call's request: `post` is the state after it and `r` what it returns.
/// A call whose request the host did not carry out returns -1.
pub open spec fn syscall_post(
    pre: Guest,
    a7: u32,
    a0: u32,
    a1: u32,
    a2: u32,
    reply: Option<HostReply>,
    post: Guest,
    r: Result<i32, ExecutionError>,
) -> bool {
    let unchanged = post == pre;
    if a7 == 56 {
        // open(char* pathname, int flags)
        match (first_nul(pre.ram, a0 as int), next_number(pre.files, pre.freed)) {
            (None, _) => unchanged && r matches Err(ExecutionError::IOError(_)),
            (Some(_), Some(fd)) => if reply == Some(HostReply::Opened) {
                &&& r == Ok::<i32, ExecutionError>(fd as i32)
                &&& post == Guest {
                    files: pre.files.push(FileDescriptor { fd, flags: a1 }),
                    freed: if pre.freed.len() > 0 {
                        pre.freed.drop_first()
                    } else {
                        pre.freed
                    },
                    ..pre
                }
            } else {
                unchanged && r == Ok::<i32, ExecutionError>(-1i32)
            },
            (Some(_), None) => unchanged && r == Ok::<i32, ExecutionError>(-1i32),
        }
    } else if a7 == 57 {
        match index_of(pre.files, a0, 0) {
            Some(i) => {
                &&& r == Ok::<i32, ExecutionError>(0)
                &&& post == Guest {
                    files: pre.files.update(i, pre.files.last()).drop_last(),
                    freed: pre.freed.push(a0),
                    ..pre
                }
            },
            None => unchanged && r == Ok::<i32, ExecutionError>(-1i32),
        }
    } else if a7 == 63 {
        // read from file descriptor
        // a0: fd, a1: start address, a2: max length to store
        let asked = a0 == 0 || (a0 > 2 && index_of(pre.files, a0, 0) is Some);
        let data = if asked {
            data_of(reply)
        } else {
            None
        };
        if a0 > 2 && !asked {
            unchanged && r == Ok::<i32, ExecutionError>(-1i32)
        } else if !spans(pre.ram.len() as int, pre.top, a1, a2) {
            unchanged && r == Err::<i32, ExecutionError>(ExecutionError::LoadAccessFault(a1))
        } else {
            match data {
                Some(d) => {
                    &&& post == Guest {
                        ram: pre.ram.subrange(0, a1 as int) + padded(d, a2 as int)
                            + pre.ram.subrange(a1 + a2, pre.ram.len() as int),
                        ..pre
                    }
                    &&& r == Ok::<i32, ExecutionError>(
                        count_result(
                            if d.len() < a2 {
                                d.len() as int
                            } else {
                                a2 as int
                            },
                        ) as i32,
                    )
                },
                None => {
                    &&& post == Guest {
                        ram: pre.ram.subrange(0, a1 as int) + padded(Seq::empty(), a2 as int)
                            + pre.ram.subrange(a1 + a2, pre.ram.len() as int),
                        ..pre
                    }
                    &&& r == Ok::<i32, ExecutionError>(-1i32)
                },
            }
        }
    } else if a7 == 64 {
        // write to file descriptor
        let asked = a0 == 1 || a0 == 2 || (a0 > 2 && index_of(pre.files, a0, 0) is Some);
        if !spans(pre.ram.len() as int, pre.top, a1, a2) {
            unchanged && r == Err::<i32, ExecutionError>(ExecutionError::LoadAccessFault(a1))
        } else {
            match written_of(reply) {
                Some(n) if asked => unchanged && r == Ok::<i32, ExecutionError>(
                    count_result(n as int) as i32,
                ),
                _ => unchanged && r == Ok::<i32, ExecutionError>(-1i32),
            }
        }
    } else if a7 == 77 {
        unchanged && r == Ok::<i32, ExecutionError>(0)
    } else if a7 == 78 {
        unchanged && r is Ok
    } else if a7 == 94 {
        unchanged && r == Err::<i32, ExecutionError>(
            ExecutionError::FinishedExecution((a0 % 0x100) as u8),
        )
    } else {
        unchanged && r == Err::<i32, ExecutionError>(ExecutionError::InvalidSyscall(a7))
    }
}

/// `Instant::now`: the moment of the call. Nothing is known of it.
#[verifier::external_body]
fn now() -> Instant {
    Instant::now()
}

/// `Instant::elapsed`: the time since the moment `since`. Nothing is known
/// of it.
#[verifier::external_body]
fn elapsed(since: &Instant) -> Duration {
    since.elapsed()
}

/// `Duration::as_millis`: the whole milliseconds of a span of time.
#[verifier::external_body]
fn whole_millis(span: &Duration) -> u128 {
    span.as_millis()
}

/// A count of bytes or of milliseconds as the guest sees it in `A0`.
pub fn count_as_word(count: u128) -> (r: i32)
    ensures
        r == count_result(count as int),
{
    let low: u32 = (count & 0xffff_ffff) as u32;
    assert(low == count % 0x1_0000_0000) by (bit_vector)
        requires
            low == (count & 0xffff_ffff) as u32,
    ;
    i32_of(low)
}

/// The guest's environment: its open files and the clock that the `time`
/// system call reads.
pub struct Environment {
    fdtable: FileDescriptorTable,
    timer: Instant,
}

impl Environment {
    /// The open files, in the order in which the table holds them.
    pub closed spec fn files(&self) -> Seq<FileDescriptor> {
        self.fdtable.files()
    }

    /// The freed numbers, oldest first.
    pub closed spec fn freed(&self) -> Seq<u32> {
        self.fdtable.freed()
    }

    /// The invariant of the table of open files.
    pub open spec fn wf(&self) -> bool {
        numbers_valid(self.files(), self.freed())
    }

    /// The state that a system call works on.
    pub open spec fn guest(&self, memory: &Memory) -> Guest {
        Guest { files: self.files(), freed: self.freed(), ram: memory@, top: memory.top() }
    }

    /// An environment without open files; its clock starts now.
    pub fn new() -> (e: Environment)
        ensures
            e.files() == Seq::<FileDescriptor>::empty(),
            e.freed() == Seq::<u32>::empty(),
            e.wf(),
    {
        Environment { fdtable: FileDescriptorTable::new(), timer: now() }
    }

    /// Starts the clock of the `time` system call anew.
    pub fn reset_timer(&mut self)
        ensures
            final(self).files() == old(self).files(),
            final(self).freed() == old(self).freed(),
    {
        self.timer = now();
    }

    /// Whether `fd` names a file of the table.
    fn is_open(&self, fd: u32) -> (r: bool)
        requires
            self.wf(),
        ensures
            r == (index_of(self.files(), fd, 0) is Some),
    {
        self.fdtable.get_idx(fd) >= 0
    }

    /// What the host has to do before `syscall` is called with the same
    /// arguments; its answer is that call's `reply`.
    pub fn request(&self, a7: u32, a0: u32, a1: u32, a2: u32, memory: &Memory) -> (r: Option<
        HostRequest,
    >)
        requires
            self.wf(),
        ensures
            request_view(r) == request_of(
                self.files(),
                self.freed(),
                memory@,
                memory.top(),
                a7,
                a0,
                a1,
                a2,
            ),
    {
        match a7 {
            56 => {
                let end = match memory.find_nul(a0) {
                    Some(end) => end,
                    None => { return None; },
                };
                let fd = match self.fdtable.next_fd() {
                    Some(fd) => fd,
                    None => { return None; },
                };
                proof {
                    first_nul_bounds(memory@, a0 as int);
                }
                let path = memory.read_range(a0 as usize, end);
                Some(HostRequest::Open { path, create: has_flag(a1, OpenFlags::OCreat), fd })
            },
            57 => if self.is_open(a0) {
                Some(HostRequest::Close { fd: a0 })
            } else {
                None
            },
            63 => if a0 == 0 {
                Some(HostRequest::ReadStdin { len: a2 })
            } else if a0 > 2 && self.is_open(a0) {
                Some(HostRequest::ReadFile { fd: a0, len: a2 })
            } else {
                None
            },
            64 => if !memory.spans(a1, a2) {
                None
            } else if a0 == 1 {
                Some(HostRequest::WriteStdout { bytes: memory.read_bytes(a1, a2) })
            } else if a0 == 2 {
                Some(HostRequest::WriteStderr { bytes: memory.read_bytes(a1, a2) })
            } else if a0 > 2 && self.is_open(a0) {
                Some(HostRequest::WriteFile { fd: a0, bytes: memory.read_bytes(a1, a2) })
            } else {
                None
            },
            77 => Some(HostRequest::Sleep { millis: a0 }),
            94 => Some(HostRequest::Exit { status: a0 }),
            _ => None,
        }
    }

    /// Carries out the system call `a7` with the arguments `a0`, `a1`, `a2`,
    /// given the host's answer to `request`, and returns what the guest
    /// finds in `A0`.
    pub fn syscall(
        &mut self,
        a7: u32,
        a0: u32,
        a1: u32,
        a2: u32,
        memory: &mut Memory,
        reply: Option<HostReply>,
    ) -> (r: Result<i32, ExecutionError>)
        requires
            old(self).wf(),
        ensures
            final(self).wf(),
            syscall_post(
                old(self).guest(old(memory)),
                a7,
                a0,
                a1,
                a2,
                reply,
                final(self).guest(final(memory)),
                r,
            ),
    {
        match a7 {
            56 => {
                if memory.find_nul(a0).is_none() {
                    return Err(ExecutionError::IOError(String::from_str("Failed to read filename")));
                }
                if self.fdtable.next_fd().is_none() {
                    return Ok(-1);
                }
                match reply {
                    Some(HostReply::Opened) => Ok(self.fdtable.open(a1)),
                    _ => Ok(-1),
                }
            },
            57 => Ok(self.fdtable.close(a0)),
            63 => {
                let asked = a0 == 0 || (a0 > 2 && self.is_open(a0));
                if a0 > 2 && !asked {
                    return Ok(-1);
                }
                if !memory.spans(a1, a2) {
                    return Err(ExecutionError::LoadAccessFault(a1));
                }
                match reply {
                    Some(HostReply::Data(data)) if asked => {
                        memory.fill(a1, a2, data.as_slice());
                        let count = if data.len() < a2 as usize {
                            data.len()
                        } else {
                            a2 as usize
                        };
                        Ok(count_as_word(count as u128))
                    },
                    _ => {
                        let nothing: Vec<u8> = Vec::new();
                        memory.fill(a1, a2, nothing.as_slice());
                        Ok(-1)
                    },
                }
            },
            64 => {
                if !memory.spans(a1, a2) {
                    return Err(ExecutionError::LoadAccessFault(a1));
                }
                let asked = a0 == 1 || a0 == 2 || (a0 > 2 && self.is_open(a0));
                match reply {
                    Some(HostReply::Written(n)) if asked => Ok(count_as_word(n as u128)),
                    _ => Ok(-1),
                }
            },
            // sleep
            77 => Ok(0),
            // return time elapsed
            78 => {
                let span = elapsed(&self.timer);
                Ok(count_as_word(whole_millis(&span)))
            },
            // exit
            94 => Err(ExecutionError::FinishedExecution(low8(a0))),
            _ => Err(ExecutionError::InvalidSyscall(a7)),
        }
    }
}

/// A found zero byte lies at or after the start, and in the array.
pub proof fn first_nul_bounds(bytes: Seq<u8>, start: int)
    ensures
        first_nul(bytes, start) matches Some(end) ==> 0 <= start <= end < bytes.len(),
    decreases bytes.len() - start,
{
    if 0 <= start < bytes.len() && bytes[start] != 0 {
        first_nul_bounds(bytes, start + 1);
    }
}

} // verus!
