//! The dispatch table: one entry address per runtime operation, written
//! once by the install routine and read by everyone after it.
use vstd::prelude::*;

verus! {

/// The only table layout version this runtime accepts.
pub const SUPPORTED_VERSION: u64 = 1;

/// How many operations the table carries.
pub const SLOT_COUNT: usize = 46;

/// The operations of the table, in slot order, grouped by subsystem: the
/// loader hook and the log relay, memory, time, futexes, thread-local
/// storage, threads, and the filesystem.
#[derive(Clone, Copy, Debug, PartialEq, Eq, Structural)]
pub enum Op {
    LoadVdso,
    LogToKernel,
    Alloc,
    AllocZeroed,
    Dealloc,
    Realloc,
    TimeInstantNow,
    TimeTicksToNanos,
    TimeNanosToTicks,
    TimeTicksInSec,
    TimeAbsTicksToNanos,
    FutexWait,
    FutexWake,
    FutexWakeAll,
    TlsCreate,
    TlsSet,
    TlsGet,
    TlsDestroy,
    ThreadSpawn,
    ThreadYield,
    ThreadSleep,
    ThreadSetName,
    ThreadJoin,
    FsOpen,
    FsClose,
    FsGetFileAttr,
    FsFsync,
    FsDatasync,
    FsTruncate,
    FsRead,
    FsWrite,
    FsSeek,
    FsMkdir,
    FsUnlink,
    FsRename,
    FsRmdir,
    FsRmdirAll,
    FsSetPerm,
    FsStat,
    FsCanonicalize,
    FsCopy,
    FsOpendir,
    FsClosedir,
    FsReaddir,
    FsGetcwd,
    FsChdir,
}

/// The slot that carries `op`.
pub open spec fn op_index(op: Op) -> nat {
    match op {
        Op::LoadVdso => 0,
        Op::LogToKernel => 1,
        Op::Alloc => 2,
        Op::AllocZeroed => 3,
        Op::Dealloc => 4,
        Op::Realloc => 5,
        Op::TimeInstantNow => 6,
        Op::TimeTicksToNanos => 7,
        Op::TimeNanosToTicks => 8,
        Op::TimeTicksInSec => 9,
        Op::TimeAbsTicksToNanos => 10,
        Op::FutexWait => 11,
        Op::FutexWake => 12,
        Op::FutexWakeAll => 13,
        Op::TlsCreate => 14,
        Op::TlsSet => 15,
        Op::TlsGet => 16,
        Op::TlsDestroy => 17,
        Op::ThreadSpawn => 18,
        Op::ThreadYield => 19,
        Op::ThreadSleep => 20,
        Op::ThreadSetName => 21,
        Op::ThreadJoin => 22,
        Op::FsOpen => 23,
        Op::FsClose => 24,
        Op::FsGetFileAttr => 25,
        Op::FsFsync => 26,
        Op::FsDatasync => 27,
        Op::FsTruncate => 28,
        Op::FsRead => 29,
        Op::FsWrite => 30,
        Op::FsSeek => 31,
        Op::FsMkdir => 32,
        Op::FsUnlink => 33,
        Op::FsRename => 34,
        Op::FsRmdir => 35,
        Op::FsRmdirAll => 36,
        Op::FsSetPerm => 37,
        Op::FsStat => 38,
        Op::FsCanonicalize => 39,
        Op::FsCopy => 40,
        Op::FsOpendir => 41,
        Op::FsClosedir => 42,
        Op::FsReaddir => 43,
        Op::FsGetcwd => 44,
        Op::FsChdir => 45,
    }
}

impl Op {
    /// The slot that carries this operation.
    pub fn index(&self) -> (r: usize)
        ensures
            r == op_index(*self),
            r < SLOT_COUNT,
    {
        match self {
            Op::LoadVdso => 0,
            Op::LogToKernel => 1,
            Op::Alloc => 2,
            Op::AllocZeroed => 3,
            Op::Dealloc => 4,
            Op::Realloc => 5,
            Op::TimeInstantNow => 6,
            Op::TimeTicksToNanos => 7,
            Op::TimeNanosToTicks => 8,
            Op::TimeTicksInSec => 9,
            Op::TimeAbsTicksToNanos => 10,
            Op::FutexWait => 11,
            Op::FutexWake => 12,
            Op::FutexWakeAll => 13,
            Op::TlsCreate => 14,
            Op::TlsSet => 15,
            Op::TlsGet => 16,
            Op::TlsDestroy => 17,
            Op::ThreadSpawn => 18,
            Op::ThreadYield => 19,
            Op::ThreadSleep => 20,
            Op::ThreadSetName => 21,
            Op::ThreadJoin => 22,
            Op::FsOpen => 23,
            Op::FsClose => 24,
            Op::FsGetFileAttr => 25,
            Op::FsFsync => 26,
            Op::FsDatasync => 27,
            Op::FsTruncate => 28,
            Op::FsRead => 29,
            Op::FsWrite => 30,
            Op::FsSeek => 31,
            Op::FsMkdir => 32,
            Op::FsUnlink => 33,
            Op::FsRename => 34,
            Op::FsRmdir => 35,
            Op::FsRmdirAll => 36,
            Op::FsSetPerm => 37,
            Op::FsStat => 38,
            Op::FsCanonicalize => 39,
            Op::FsCopy => 40,
            Op::FsOpendir => 41,
            Op::FsClosedir => 42,
            Op::FsReaddir => 43,
            Op::FsGetcwd => 44,
            Op::FsChdir => 45,
        }
    }
}

/// Why an install was refused. Each is fatal to the process.
#[derive(Clone, Copy, Debug, PartialEq, Eq, Structural)]
pub enum InstallError {
    /// The caller asked for a layout version other than the supported one.
    VersionMismatch,
    /// The table's entry-address slot does not name the install routine:
    /// the loader did not prepare this table.
    NotPrepared,
    /// The table was installed already.
    AlreadyInstalled,
}

/// What the table is, as mathematics.
pub struct DispatchModel {
    /// The install routine's address, as the loader wrote it.
    pub entry: u64,
    pub slots: Seq<u64>,
    /// Whether the install routine has published the slots.
    pub ready: bool,
}

impl DispatchModel {
    pub open spec fn wf(self) -> bool {
        self.slots.len() == SLOT_COUNT
    }

    /// What an install with `version`, run from `self_addr`, answers.
    pub open spec fn install_result(self, version: u64, self_addr: u64) -> Result<(), InstallError> {
        if version != SUPPORTED_VERSION {
            Err(InstallError::VersionMismatch)
        } else if self.entry != self_addr {
            Err(InstallError::NotPrepared)
        } else if self.ready {
            Err(InstallError::AlreadyInstalled)
        } else {
            Ok(())
        }
    }

    pub open spec fn after_install(self, entries: Seq<u64>) -> DispatchModel {
        DispatchModel { entry: self.entry, slots: entries, ready: true }
    }

    /// What a reader finds in the slot of `op`: nothing before the table is
    /// published.
    pub open spec fn read(self, op: Op) -> Option<u64> {
        if self.ready {
            Some(self.slots[op_index(op) as int])
        } else {
            None
        }
    }
}

/// The table of entry addresses that the loader prepares and the runtime
/// fills.
pub struct DispatchTable {
    entry: u64,
    slots: Vec<u64>,
    ready: bool,
}

impl View for DispatchTable {
    type V = DispatchModel;

    closed spec fn view(&self) -> DispatchModel {
        DispatchModel { entry: self.entry, slots: self.slots@, ready: self.ready }
    }
}

impl DispatchTable {
    /// A table as the loader leaves it: every slot empty, and the entry
    /// slot naming the install routine at `entry`.
    pub fn prepared(entry: u64) -> (r: Self)
        ensures
            r@.wf(),
            r@.entry == entry,
            !r@.ready,
            forall|i: int| 0 <= i < SLOT_COUNT ==> r@.slots[i] == 0,
    {
        let mut slots: Vec<u64> = Vec::new();
        let mut i: usize = 0;
        while i < SLOT_COUNT
            invariant
                i <= SLOT_COUNT,
                slots@.len() == i,
                forall|k: int| 0 <= k < i ==> slots@[k] == 0,
            decreases SLOT_COUNT - i,
        {
            slots.push(0);
            i = i + 1;
        }
        DispatchTable { entry, slots, ready: false }
    }

    /// The install routine's address, as the loader wrote it.
    pub fn entry(&self) -> (r: u64)
        ensures
            r == self@.entry,
    {
        self.entry
    }

    /// Whether the slots have been published.
    pub fn is_ready(&self) -> (r: bool)
        ensures
            r == self@.ready,
    {
        self.ready
    }

    /// Installs the runtime: checks the layout version and that the loader
    /// prepared the table for the routine at `self_addr`, writes every slot
    /// from `entries` (in slot order) and publishes them last. Refused, with
    /// the table unchanged, where a check fails or the table is installed.
    pub fn install(&mut self, version: u64, self_addr: u64, entries: &[u64; SLOT_COUNT]) -> (r: Result<(), InstallError>)
        requires
            old(self)@.wf(),
        ensures
            final(self)@.wf(),
            r == old(self)@.install_result(version, self_addr),
            r is Ok ==> final(self)@ == old(self)@.after_install(entries@),
            r is Err ==> final(self)@ == old(self)@,
    {
        if version != SUPPORTED_VERSION {
            return Err(InstallError::VersionMismatch);
        }
        if self.entry != self_addr {
            return Err(InstallError::NotPrepared);
        }
        if self.ready {
            return Err(InstallError::AlreadyInstalled);
        }
        let mut i: usize = 0;
        while i < SLOT_COUNT
            invariant
                i <= SLOT_COUNT,
                self.slots@.len() == SLOT_COUNT,
                entries@.len() == SLOT_COUNT,
                self.entry == old(self)@.entry,
                !self.ready,
                forall|k: int| 0 <= k < i ==> self.slots@[k] == entries@[k],
            decreases SLOT_COUNT - i,
        {
            self.slots.set(i, entries[i]);
            i = i + 1;
        }
        self.ready = true;
        proof {
            assert(self.slots@ =~= entries@);
        }
        Ok(())
    }

    /// The address in the slot of `op`; `None` until the table is published.
    pub fn read(&self, op: Op) -> (r: Option<u64>)
        requires
            self@.wf(),
        ensures
            r == self@.read(op),
    {
        if self.ready {
            Some(self.slots[op.index()])
        } else {
            None
        }
    }
}

/// The table installs at most once: after an install succeeds, every later
/// install is refused, and before it every slot reads as nothing.
pub proof fn law_install_once(t: DispatchModel, version: u64, self_addr: u64, entries: Seq<u64>, again: u64, op: Op)
    requires
        t.wf(),
        !t.ready,
        entries.len() == SLOT_COUNT,
    ensures
        t.read(op) is None,
        t.install_result(version, self_addr) is Ok ==> t.after_install(entries).install_result(again, self_addr) is Err,
        t.install_result(version, self_addr) is Ok ==> t.after_install(entries).read(op) == Some(entries[op_index(op) as int]),
{
    assert(op_index(op) < SLOT_COUNT);
}

} // verus!
