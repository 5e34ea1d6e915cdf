//! Error kinds surfaced by segment operations, and the classification of
//! raw OS error codes reported by a failed acquisition call.

use vstd::prelude::*;

verus! {

/// `errno` value for "operation not permitted", as Linux defines it.
pub const ERRNO_PERM: i32 = 1;

/// `errno` value for "no such file or directory", as Linux defines it.
pub const ERRNO_NOENT: i32 = 2;

/// `errno` value for "out of memory", as Linux defines it.
pub const ERRNO_NOMEM: i32 = 12;

/// `errno` value for "permission denied", as Linux defines it.
pub const ERRNO_ACCES: i32 = 13;

/// `errno` value for "file exists", as Linux defines it.
pub const ERRNO_EXIST: i32 = 17;

/// `errno` value for "invalid argument", as Linux defines it.
pub const ERRNO_INVAL: i32 = 22;

/// `errno` value for "file table overflow", as Linux defines it.
pub const ERRNO_NFILE: i32 = 23;

/// `errno` value for "too many open files", as Linux defines it.
pub const ERRNO_MFILE: i32 = 24;

/// `errno` value for "no space left on device", as Linux defines it.
pub const ERRNO_NOSPC: i32 = 28;

/// Every way a segment operation can fail.
#[derive(Clone, Copy, Debug, PartialEq, Eq, Structural)]
pub enum ShmError {
    /// An exclusive create found the name already taken.
    AlreadyExists,
    /// An open found no object under the requested name.
    NotFound,
    /// The OS denied access to the named object.
    PermissionDenied,
    /// The OS ran out of descriptors, memory, or backing space.
    ResourceExhausted,
    /// A requested capacity is not positive, or a buffer has the wrong length.
    InvalidArgument,
    /// A write payload exceeds the segment capacity.
    TooLarge,
    /// Any other OS failure, carried by its raw error code.
    Os(i32),
}

/// The error kind a raw OS error code stands for.
pub open spec fn classify_errno_spec(code: i32) -> ShmError {
    if code == ERRNO_EXIST {
        ShmError::AlreadyExists
    } else if code == ERRNO_NOENT {
        ShmError::NotFound
    } else if code == ERRNO_ACCES || code == ERRNO_PERM {
        ShmError::PermissionDenied
    } else if code == ERRNO_NOMEM || code == ERRNO_NFILE || code == ERRNO_MFILE
        || code == ERRNO_NOSPC {
        ShmError::ResourceExhausted
    } else if code == ERRNO_INVAL {
        ShmError::InvalidArgument
    } else {
        ShmError::Os(code)
    }
}

/// Classifies the raw error code of a failed OS call into the library's
/// error kinds; an unrecognized code is propagated unmodified.
pub fn classify_errno(code: i32) -> (e: ShmError)
    ensures
        e == classify_errno_spec(code),
{
    if code == ERRNO_EXIST {
        ShmError::AlreadyExists
    } else if code == ERRNO_NOENT {
        ShmError::NotFound
    } else if code == ERRNO_ACCES || code == ERRNO_PERM {
        ShmError::PermissionDenied
    } else if code == ERRNO_NOMEM || code == ERRNO_NFILE || code == ERRNO_MFILE
        || code == ERRNO_NOSPC {
        ShmError::ResourceExhausted
    } else if code == ERRNO_INVAL {
        ShmError::InvalidArgument
    } else {
        ShmError::Os(code)
    }
}

} // verus!
