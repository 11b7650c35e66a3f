//! The capability interface that every resource object answers, and the
//! POSIX-shaped entry points that resolve a handle and call through it.
use crate::descriptors::{Descriptors, Released};
use crate::{ErrorCode, RtFd, E_BAD_HANDLE, E_INVALID_ARGUMENT, E_OK, E_OUT_OF_MEMORY};
use moto_rt::poll::{Interests, Token};
use vstd::prelude::*;

verus! {

/// The operations that a resource object offers. Each has a default that
/// refuses it, so a variant implements only what it supports.
pub trait PosixFile {
    /// Reads into `buf`; the count is of bytes written into it.
    fn read(&self, buf: &mut [u8]) -> (r: Result<usize, ErrorCode>)
        ensures
            r is Ok ==> r->Ok_0 <= old(buf)@.len(),
        default_ensures
            r == Err::<usize, ErrorCode>(E_BAD_HANDLE),
    {
        Err(E_BAD_HANDLE)
    }

    /// Writes from `buf`; the count is of bytes taken from it.
    fn write(&self, buf: &[u8]) -> (r: Result<usize, ErrorCode>)
        ensures
            r is Ok ==> r->Ok_0 <= buf@.len(),
        default_ensures
            r == Err::<usize, ErrorCode>(E_BAD_HANDLE),
    {
        Err(E_BAD_HANDLE)
    }

    /// Pushes out whatever the object still buffers.
    fn flush(&self) -> (r: Result<(), ErrorCode>)
        default_ensures
            r == Err::<(), ErrorCode>(E_BAD_HANDLE),
    {
        Err(E_BAD_HANDLE)
    }

    /// Called once, when the table lets go of the object's last handle.
    fn close(&self) -> (r: Result<(), ErrorCode>)
        default_ensures
            r == Err::<(), ErrorCode>(E_BAD_HANDLE),
    {
        Err(E_BAD_HANDLE)
    }

    /// Joins the polling group `poll_fd` under `token`, watching `interests`.
    fn poll_add(&self, poll_fd: RtFd, token: Token, interests: Interests) -> (r: Result<(), ErrorCode>)
        default_ensures
            r == Err::<(), ErrorCode>(E_INVALID_ARGUMENT),
    {
        Err(E_INVALID_ARGUMENT)
    }

    /// Changes the object's membership in the polling group `poll_fd`.
    fn poll_set(&self, poll_fd: RtFd, token: Token, interests: Interests) -> (r: Result<(), ErrorCode>)
        default_ensures
            r == Err::<(), ErrorCode>(E_INVALID_ARGUMENT),
    {
        Err(E_INVALID_ARGUMENT)
    }

    /// Leaves the polling group `poll_fd`.
    fn poll_del(&self, poll_fd: RtFd) -> (r: Result<(), ErrorCode>)
        default_ensures
            r == Err::<(), ErrorCode>(E_INVALID_ARGUMENT),
    {
        Err(E_INVALID_ARGUMENT)
    }
}

/// A transfer's outcome as one signed number: the count, or the negated
/// error code.
pub open spec fn transfer_status(r: Result<usize, ErrorCode>) -> i64 {
    match r {
        Ok(n) => n as i64,
        Err(e) => (-(e as int)) as i64,
    }
}

/// An operation's outcome as one code: `E_OK`, or the object's own error.
pub open spec fn op_status(r: Result<(), ErrorCode>) -> ErrorCode {
    match r {
        Ok(()) => E_OK,
        Err(e) => e,
    }
}

/// Folds a transfer's outcome into one signed number, passing the object's
/// error code through unchanged.
pub fn transfer_result(r: Result<usize, ErrorCode>) -> (s: i64)
    requires
        r is Ok ==> r->Ok_0 <= i64::MAX,
    ensures
        s == transfer_status(r),
        r is Ok ==> s >= 0,
        r is Err ==> s <= 0,
{
    match r {
        Ok(n) => n as i64,
        Err(e) => -(e as i64),
    }
}

/// Folds an operation's outcome into one code.
pub fn op_result(r: Result<(), ErrorCode>) -> (c: ErrorCode)
    ensures
        c == op_status(r),
{
    match r {
        Ok(()) => E_OK,
        Err(e) => e,
    }
}

/// What a handle that names no object answers to a transfer.
pub const BAD_HANDLE_STATUS: i64 = -17;

/// What a handle request answers where no handle could be given out.
pub const NO_HANDLE: RtFd = -8;

/// Reads through the object that a handle resolved to (`None`: it named
/// none). The result is the count read, or the negated error code.
pub fn posix_read<F: PosixFile>(file: Option<&F>, buf: &mut [u8]) -> (r: i64)
    requires
        old(buf)@.len() <= i64::MAX,
    ensures
        file is None ==> r == BAD_HANDLE_STATUS && final(buf)@ == old(buf)@,
        file is Some ==> exists|x: Result<usize, ErrorCode>|
            r == transfer_status(x) && (x is Ok ==> x->Ok_0 <= old(buf)@.len()),
        r >= 0 ==> r <= old(buf)@.len(),
{
    match file {
        None => BAD_HANDLE_STATUS,
        Some(f) => {
            let x = f.read(buf);
            transfer_result(x)
        },
    }
}

/// Writes through the object that a handle resolved to (`None`: it named
/// none). The result is the count written, or the negated error code.
pub fn posix_write<F: PosixFile>(file: Option<&F>, buf: &[u8]) -> (r: i64)
    requires
        buf@.len() <= i64::MAX,
    ensures
        file is None ==> r == BAD_HANDLE_STATUS,
        file is Some ==> exists|x: Result<usize, ErrorCode>|
            r == transfer_status(x) && (x is Ok ==> x->Ok_0 <= buf@.len()),
        r >= 0 ==> r <= buf@.len(),
{
    match file {
        None => BAD_HANDLE_STATUS,
        Some(f) => {
            let x = f.write(buf);
            transfer_result(x)
        },
    }
}

/// Flushes the object that a handle resolved to (`None`: it named none).
pub fn posix_flush<F: PosixFile>(file: Option<&F>) -> (r: ErrorCode)
    ensures
        file is None ==> r == E_BAD_HANDLE,
        file is Some ==> exists|x: Result<(), ErrorCode>| r == op_status(x),
{
    match file {
        None => E_BAD_HANDLE,
        Some(f) => op_result(f.flush()),
    }
}

/// Finishes a release: closes the object where the release let go of its
/// last handle, and only then. `None`: the handle named no object.
pub fn posix_close<F: PosixFile>(released: Option<Released<F>>) -> (r: ErrorCode)
    ensures
        released is None ==> r == E_BAD_HANDLE,
        released is Some && !released->0.last ==> r == E_OK,
        released is Some && released->0.last ==> exists|x: Result<(), ErrorCode>| r == op_status(x),
{
    match released {
        None => E_BAD_HANDLE,
        Some(rel) => {
            if rel.last {
                op_result(rel.file.close())
            } else {
                E_OK
            }
        },
    }
}

/// A second handle for the object under `rt_fd`; `-E_BAD_HANDLE` where it
/// holds none, `NO_HANDLE` where no handle can be given out.
pub fn posix_duplicate<F: PosixFile + Clone>(table: &mut Descriptors<F>, rt_fd: RtFd) -> (r: RtFd)
    requires
        old(table)@.wf(),
    ensures
        final(table)@.wf(),
        !old(table)@.is_live(rt_fd as int) ==> r == -(E_BAD_HANDLE as int) && final(table)@ == old(table)@,
        old(table)@.is_live(rt_fd as int) && !old(table)@.can_reserve() ==> r == NO_HANDLE
            && final(table)@ == old(table)@,
        old(table)@.is_live(rt_fd as int) && old(table)@.can_reserve() ==> r == old(table)@.next_handle()
            && exists|f: F|
            cloned(old(table)@.lookup(rt_fd as int)->0, f) && final(table)@
                == old(table)@.after_reserve().after_fill(r as int, old(table)@.object(rt_fd as int)->0, f),
{
    if table.get(rt_fd).is_none() {
        return -(E_BAD_HANDLE as RtFd);
    }
    match table.duplicate(rt_fd) {
        Some(h) => h,
        None => NO_HANDLE,
    }
}

/// Gives `constructor`'s object a handle; `constructor` learns the handle
/// first. `NO_HANDLE` where none can be given out.
pub fn new_file<F, Constructor: FnOnce(RtFd) -> F>(table: &mut Descriptors<F>, constructor: Constructor) -> (r: RtFd)
    requires
        old(table)@.wf(),
        forall|fd: RtFd| constructor.requires((fd,)),
    ensures
        final(table)@.wf(),
        !old(table)@.can_reserve() ==> r == NO_HANDLE && final(table)@ == old(table)@,
        old(table)@.can_reserve() ==> r == old(table)@.next_handle() && exists|f: F|
            constructor.ensures((r,), f) && final(table)@ == old(table)@.after_reserve().after_fill(
                r as int,
                old(table)@.next_id as u64,
                f,
            ),
{
    match table.insert(constructor) {
        Some(fd) => fd,
        None => NO_HANDLE,
    }
}

/// Gives `val` a handle. `NO_HANDLE` where none can be given out.
pub fn push_file<F>(table: &mut Descriptors<F>, val: F) -> (r: RtFd)
    requires
        old(table)@.wf(),
    ensures
        final(table)@.wf(),
        !old(table)@.can_reserve() ==> r == NO_HANDLE && final(table)@ == old(table)@,
        old(table)@.can_reserve() ==> r == old(table)@.next_handle() && final(table)@
            == old(table)@.after_reserve().after_fill(r as int, old(table)@.next_id as u64, val),
{
    match table.get_free_fd() {
        Some(fd) => {
            table.fill(fd, val);
            fd
        },
        None => NO_HANDLE,
    }
}

/// The object under `fd`, if it holds one.
pub fn get_file<F>(table: &Descriptors<F>, fd: RtFd) -> (r: Option<&F>)
    ensures
        match r {
            Some(f) => table@.lookup(fd as int) == Some(*f),
            None => table@.lookup(fd as int) is None,
        },
{
    table.get(fd)
}

/// Takes the object out of `fd`, freeing the handle.
pub fn pop_file<F>(table: &mut Descriptors<F>, fd: RtFd) -> (r: Option<Released<F>>)
    requires
        old(table)@.wf(),
    ensures
        final(table)@.wf(),
        final(table)@ == old(table)@.after_release(fd as int),
        r is Some <==> old(table)@.is_live(fd as int),
        r is Some ==> Some(r->0.file) == old(table)@.lookup(fd as int)
            && r->0.last == old(table)@.is_last(fd as int),
{
    table.pop(fd)
}

} // verus!
