//! Error values and the classification of kernel error codes.
//!
//! The library produces two sorts of failures: inputs it rejects itself
//! (over-long paths, a zero timeout, a foreign descriptor) and error codes
//! propagated verbatim from the kernel.  Classification into semantic
//! kinds is derived, never stored; in particular the two "would have
//! blocked" outcomes — `WouldBlock` and `TimedOut` — are made explicitly
//! interchangeable through [`SockError::is_would_block`].

use vstd::prelude::*;

verus! {

/// Kernel code for an operation not permitted error.
pub const EPERM: i32 = 1;
/// Kernel code for a missing filesystem entry.
pub const ENOENT: i32 = 2;
/// Kernel code for an operation that would block.
pub const EAGAIN: i32 = 11;
/// Kernel code for a permission denied error.
pub const EACCES: i32 = 13;
/// Kernel code for an address already in use.
pub const EADDRINUSE: i32 = 98;
/// Kernel code for a timed-out operation.
pub const ETIMEDOUT: i32 = 110;
/// Kernel code for a refused connection.
pub const ECONNREFUSED: i32 = 111;

/// A failure reported by the library or propagated from the kernel.
///
/// The first four variants are produced by the library itself and all
/// classify as invalid input; `Os` carries a kernel error code verbatim.
#[derive(Clone, Copy, Debug, PartialEq, Eq, Structural)]
pub enum SockError {
    /// An abstract name longer than the path field can hold.
    PathTooLongAbstract,
    /// A pathname too long to keep its terminating null in the path field.
    PathTooLong,
    /// A zero-valued timeout, which the kernel would read as "no timeout".
    ZeroTimeout,
    /// A descriptor that does not belong to a Unix-family socket.
    NotUnixSocket,
    /// A raw kernel error code.
    Os(i32),
}

/// The semantic kind of a [`SockError`].
#[derive(Clone, Copy, Debug, PartialEq, Eq, Structural)]
pub enum ErrorKind {
    /// The caller's input was rejected by the library.
    InvalidInput,
    /// The non-blocking flag prevented completion.
    WouldBlock,
    /// A timeout expired before completion.
    TimedOut,
    /// The peer refused the connection.
    ConnectionRefused,
    /// The named path does not exist.
    NotFound,
    /// Access to the named path was denied.
    PermissionDenied,
    /// The address is already bound.
    AddrInUse,
    /// Any other kernel failure.
    Other,
}

/// The kind that classification assigns to an error.
pub open spec fn spec_kind(e: SockError) -> ErrorKind {
    match e {
        SockError::PathTooLongAbstract => ErrorKind::InvalidInput,
        SockError::PathTooLong => ErrorKind::InvalidInput,
        SockError::ZeroTimeout => ErrorKind::InvalidInput,
        SockError::NotUnixSocket => ErrorKind::InvalidInput,
        SockError::Os(code) => {
            if code == EAGAIN {
                ErrorKind::WouldBlock
            } else if code == ETIMEDOUT {
                ErrorKind::TimedOut
            } else if code == ECONNREFUSED {
                ErrorKind::ConnectionRefused
            } else if code == ENOENT {
                ErrorKind::NotFound
            } else if code == EPERM || code == EACCES {
                ErrorKind::PermissionDenied
            } else if code == EADDRINUSE {
                ErrorKind::AddrInUse
            } else {
                ErrorKind::Other
            }
        },
    }
}

impl SockError {
    /// The semantic kind of this error.
    pub fn kind(&self) -> (k: ErrorKind)
        ensures
            k == spec_kind(*self),
    {
        match *self {
            SockError::Os(code) => {
                if code == EAGAIN {
                    ErrorKind::WouldBlock
                } else if code == ETIMEDOUT {
                    ErrorKind::TimedOut
                } else if code == ECONNREFUSED {
                    ErrorKind::ConnectionRefused
                } else if code == ENOENT {
                    ErrorKind::NotFound
                } else if code == EPERM || code == EACCES {
                    ErrorKind::PermissionDenied
                } else if code == EADDRINUSE {
                    ErrorKind::AddrInUse
                } else {
                    ErrorKind::Other
                }
            },
            _ => ErrorKind::InvalidInput,
        }
    }

    /// True exactly when the error means "no progress was possible yet":
    /// the non-blocking flag and an expired timeout are interchangeable
    /// outcomes to callers.
    pub fn is_would_block(&self) -> (r: bool)
        ensures
            r == (spec_kind(*self) == ErrorKind::WouldBlock || spec_kind(*self)
                == ErrorKind::TimedOut),
    {
        let k = self.kind();
        k == ErrorKind::WouldBlock || k == ErrorKind::TimedOut
    }

    /// The message attached to errors the library produces itself.
    pub fn message(&self) -> (r: &'static str)
        ensures
            *self == SockError::PathTooLongAbstract ==> r@ == "path must be no longer than SUN_LEN"@,
            *self == SockError::PathTooLong ==> r@ == "path must be shorter than SUN_LEN"@,
            *self == SockError::ZeroTimeout ==> r@ == "cannot set a 0 duration timeout"@,
            *self == SockError::NotUnixSocket ==> r@
                == "file descriptor did not correspond to a Unix socket"@,
            (*self matches SockError::Os(_)) ==> r@ == "os error"@,
    {
        match *self {
            SockError::PathTooLongAbstract => "path must be no longer than SUN_LEN",
            SockError::PathTooLong => "path must be shorter than SUN_LEN",
            SockError::ZeroTimeout => "cannot set a 0 duration timeout",
            SockError::NotUnixSocket => "file descriptor did not correspond to a Unix socket",
            SockError::Os(_) => "os error",
        }
    }
}

/// Turns the integer result of a kernel call into a `Result`: a negative
/// return means failure, reported through the error code the kernel left
/// behind.
pub fn cvt(ret: i32, errno: i32) -> (r: Result<i32, SockError>)
    ensures
        ret < 0 ==> r == Result::<i32, SockError>::Err(SockError::Os(errno)),
        ret >= 0 ==> r == Result::<i32, SockError>::Ok(ret),
{
    if ret < 0 {
        Err(SockError::Os(errno))
    } else {
        Ok(ret)
    }
}

/// As [`cvt`], for kernel calls that return a byte count.
pub fn cvt_s(ret: i64, errno: i32) -> (r: Result<i64, SockError>)
    ensures
        ret < 0 ==> r == Result::<i64, SockError>::Err(SockError::Os(errno)),
        ret >= 0 ==> r == Result::<i64, SockError>::Ok(ret),
{
    if ret < 0 {
        Err(SockError::Os(errno))
    } else {
        Ok(ret)
    }
}

/// The decision inside reading the pending asynchronous socket error:
/// a zero code means no error is pending; any other code is the pending
/// error, reported verbatim.
pub fn pending_error(code: i32) -> (r: Option<SockError>)
    ensures
        code == 0 ==> r is None,
        code != 0 ==> r == Option::<SockError>::Some(SockError::Os(code)),
{
    if code == 0 {
        None
    } else {
        Some(SockError::Os(code))
    }
}

} // verus!
