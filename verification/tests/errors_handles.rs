//! Error classification, kernel-result conversion, and the descriptor
//! ownership discipline.

use unix_socket::error::cvt;
use unix_socket::error::cvt_s;
use unix_socket::error::pending_error;
use unix_socket::error::ErrorKind;
use unix_socket::error::SockError;
use unix_socket::error::EACCES;
use unix_socket::error::EADDRINUSE;
use unix_socket::error::EAGAIN;
use unix_socket::error::ECONNREFUSED;
use unix_socket::error::ENOENT;
use unix_socket::error::EPERM;
use unix_socket::error::ETIMEDOUT;
use unix_socket::handle::Descriptor;
use unix_socket::incoming::incoming_item;
use unix_socket::incoming::incoming_size_hint;
use unix_socket::sockopt::Shutdown;

#[test]
fn errno_classification() {
    assert_eq!(SockError::Os(EAGAIN).kind(), ErrorKind::WouldBlock);
    assert_eq!(SockError::Os(ETIMEDOUT).kind(), ErrorKind::TimedOut);
    assert_eq!(SockError::Os(ECONNREFUSED).kind(), ErrorKind::ConnectionRefused);
    assert_eq!(SockError::Os(ENOENT).kind(), ErrorKind::NotFound);
    assert_eq!(SockError::Os(EPERM).kind(), ErrorKind::PermissionDenied);
    assert_eq!(SockError::Os(EACCES).kind(), ErrorKind::PermissionDenied);
    assert_eq!(SockError::Os(EADDRINUSE).kind(), ErrorKind::AddrInUse);
    assert_eq!(SockError::Os(7777).kind(), ErrorKind::Other);
    assert_eq!(SockError::ZeroTimeout.kind(), ErrorKind::InvalidInput);
    assert_eq!(SockError::PathTooLong.kind(), ErrorKind::InvalidInput);
}

#[test]
fn would_block_and_timed_out_interchangeable() {
    assert!(SockError::Os(EAGAIN).is_would_block());
    assert!(SockError::Os(ETIMEDOUT).is_would_block());
    assert!(!SockError::Os(ECONNREFUSED).is_would_block());
    assert!(!SockError::ZeroTimeout.is_would_block());
}

#[test]
fn kernel_results_convert() {
    assert_eq!(cvt(3, 0), Ok(3));
    assert_eq!(cvt(0, 0), Ok(0));
    assert_eq!(cvt(-1, ECONNREFUSED), Err(SockError::Os(ECONNREFUSED)));
    assert_eq!(cvt_s(11, 0), Ok(11));
    assert_eq!(cvt_s(-1, EAGAIN), Err(SockError::Os(EAGAIN)));
}

#[test]
fn pending_error_reads_and_maps() {
    assert_eq!(pending_error(0), None);
    assert_eq!(pending_error(ECONNREFUSED), Some(SockError::Os(ECONNREFUSED)));
}

#[test]
fn shutdown_codes() {
    assert_eq!(Shutdown::Read.how_code(), 0);
    assert_eq!(Shutdown::Write.how_code(), 1);
    assert_eq!(Shutdown::Both.how_code(), 2);
}

#[test]
fn release_suppresses_close() {
    let mut d = Descriptor::adopt(5);
    assert_eq!(d.raw(), 5);
    assert!(d.needs_close());
    let fd = d.release();
    assert_eq!(fd, 5);
    assert!(!d.needs_close());
}

#[test]
fn fresh_handle_owes_one_close() {
    let d = Descriptor::adopt(0);
    assert!(d.needs_close());
}

#[test]
fn incoming_never_ends() {
    let item = incoming_item(Ok::<u32, SockError>(7));
    assert_eq!(item, Some(Ok(7)));
    // a failed accept is an item, not the end of the stream
    let item = incoming_item(Err::<u32, SockError>(SockError::Os(EAGAIN)));
    assert_eq!(item, Some(Err(SockError::Os(EAGAIN))));
    let hint = incoming_size_hint();
    assert_eq!(hint, (usize::MAX, None));
}
