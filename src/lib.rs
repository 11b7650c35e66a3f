//! Core of a userspace runtime bridge: the write-once dispatch table that a
//! loader hands to the runtime, and the table of small-integer handles that
//! maps POSIX-style descriptors onto shared resource objects.
use vstd::prelude::*;

pub mod descriptors;
pub mod logger;
pub mod posix;
pub mod vtable;

verus! {

/// Status code carried across the runtime boundary.
pub type ErrorCode = u16;

/// A POSIX-style descriptor: non-negative when valid.
pub type RtFd = i32;

/// Success.
pub const E_OK: ErrorCode = 0;

/// The argument is not acceptable to the object.
pub const E_INVALID_ARGUMENT: ErrorCode = 7;

/// The handle names no live object, or the object does not offer the operation.
pub const E_BAD_HANDLE: ErrorCode = 17;

/// No handle could be given out.
pub const E_OUT_OF_MEMORY: ErrorCode = 8;

} // verus!
