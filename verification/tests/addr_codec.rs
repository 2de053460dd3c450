//! The address codec and classifier on concrete inputs.

use unix_socket::addr::AddressKind;
use unix_socket::addr::SocketAddr;
use unix_socket::addr::SocketAddrExt;
use unix_socket::addr::AF_UNIX;
use unix_socket::addr::SOCKADDR_UN_SIZE;
use unix_socket::addr::SUN_MAX;
use unix_socket::addr::SUN_PATH_OFFSET;
use unix_socket::codec::encode;
use unix_socket::error::ErrorKind;
use unix_socket::error::SockError;

fn encoded(path: &[u8]) -> SocketAddr {
    encode(&path.to_vec()).unwrap()
}

#[test]
fn pathname_round_trip() {
    let path = b"/tmp/unix_socket/sock";
    let a = encoded(path);
    assert_eq!(a.raw_len(), SUN_PATH_OFFSET + path.len() + 1);
    assert_eq!(a.address_kind(true), AddressKind::Pathname);
    assert_eq!(a.as_pathname(), Some(path.to_vec()));
    assert_eq!(a.as_abstract(), None);
    assert!(!a.is_unnamed());
}

#[test]
fn pathname_keeps_terminating_null() {
    let path = b"/x";
    let a = encoded(path);
    assert_eq!(a.raw_len(), SUN_PATH_OFFSET + 3);
    assert_eq!(a.raw_path()[0], b'/');
    assert_eq!(a.raw_path()[1], b'x');
    assert_eq!(a.raw_path()[2], 0);
    assert_eq!(a.raw_path().len(), SUN_MAX);
}

#[test]
fn abstract_round_trip() {
    let a = encoded(b"\0the path");
    assert_eq!(a.raw_len(), SUN_PATH_OFFSET + 9);
    assert_eq!(a.address_kind(true), AddressKind::Abstract);
    assert_eq!(a.as_abstract(), Some(b"the path".to_vec()));
    assert_eq!(a.as_pathname(), None);
    assert!(!a.is_unnamed());
}

#[test]
fn empty_path_is_unnamed() {
    let a = encoded(b"");
    assert_eq!(a.raw_len(), SUN_PATH_OFFSET);
    assert_eq!(a.address_kind(true), AddressKind::Unnamed);
    assert!(a.is_unnamed());
    assert_eq!(a.as_pathname(), None);
    assert_eq!(a.as_abstract(), None);
}

#[test]
fn long_path() {
    let dir = b"/tmp/unix_socket/".to_vec();
    let name = b"asdfasdfasdfasdfasdfasdfasdfasdfasdfasdfasdfasdfasdfasdfasdfa\
sasdfasdfasdasdfasdfasdfadfasdfasdfasdfasdfasdf";
    let mut path = dir;
    path.extend_from_slice(name);
    assert!(path.len() >= SUN_MAX);
    match encode(&path) {
        Err(e) if e.kind() == ErrorKind::InvalidInput => {}
        Err(e) => panic!("unexpected error {:?}", e),
        Ok(_) => panic!("unexpected success"),
    }
}

#[test]
fn pathname_at_capacity_rejected() {
    // One byte short of the field fits (with its null); the field's
    // exact size does not.
    let fits = vec![b'a'; SUN_MAX - 1];
    let a = encoded(&fits);
    assert_eq!(a.as_pathname(), Some(fits));
    assert_eq!(a.raw_len(), SOCKADDR_UN_SIZE);

    let too_long = vec![b'a'; SUN_MAX];
    let e = encode(&too_long).unwrap_err();
    assert_eq!(e, SockError::PathTooLong);
    assert_eq!(e.kind(), ErrorKind::InvalidInput);
    assert_eq!(e.message(), "path must be shorter than SUN_LEN");
}

#[test]
fn abstract_at_capacity_rejected() {
    // A name of exactly the field's size is conservatively rejected,
    // one beyond it with the abstract-specific error.
    let mut equal = vec![0u8; 1];
    equal.extend_from_slice(&vec![b'n'; SUN_MAX - 1]);
    assert_eq!(equal.len(), SUN_MAX);
    let e = encode(&equal).unwrap_err();
    assert_eq!(e, SockError::PathTooLong);

    let mut beyond = vec![0u8; 1];
    beyond.extend_from_slice(&vec![b'n'; SUN_MAX]);
    let e = encode(&beyond).unwrap_err();
    assert_eq!(e, SockError::PathTooLongAbstract);
    assert_eq!(e.kind(), ErrorKind::InvalidInput);
    assert_eq!(e.message(), "path must be no longer than SUN_LEN");
}

#[test]
fn abstract_name_just_fits() {
    let mut input = vec![0u8; 1];
    input.extend_from_slice(&vec![b'n'; SUN_MAX - 2]);
    let a = encoded(&input);
    assert_eq!(a.as_abstract(), Some(vec![b'n'; SUN_MAX - 2]));
}

#[test]
fn kernel_report_zero_length_is_unnamed() {
    let a = SocketAddr::from_parts(0, vec![0u8; SUN_MAX], 0).unwrap();
    assert!(a.is_unnamed());
    assert_eq!(a.raw_len(), SUN_PATH_OFFSET);
}

#[test]
fn kernel_report_foreign_family_rejected() {
    let e = SocketAddr::from_parts(2, vec![0u8; SUN_MAX], 16).unwrap_err();
    assert_eq!(e, SockError::NotUnixSocket);
    assert_eq!(e.kind(), ErrorKind::InvalidInput);
    assert_eq!(
        e.message(),
        "file descriptor did not correspond to a Unix socket"
    );
}

#[test]
fn kernel_report_pathname_classifies() {
    let mut path = vec![0u8; SUN_MAX];
    path[0] = b'/';
    path[1] = b'a';
    // valid length covers "/a" and its null terminator
    let a = SocketAddr::from_parts(AF_UNIX, path, SUN_PATH_OFFSET + 3).unwrap();
    assert_eq!(a.as_pathname(), Some(b"/a".to_vec()));
}

#[test]
fn zeroed_report_reads_by_namespace() {
    // Some kernels report unnamed peers with a non-trivial length and a
    // zeroed path.  Where the abstract namespace exists that buffer is
    // an abstract name; where it does not, it must read as unnamed.
    let a = SocketAddr::from_parts(AF_UNIX, vec![0u8; SUN_MAX], 16).unwrap();
    assert_eq!(a.address_kind(true), AddressKind::Abstract);
    assert_eq!(a.address_kind(false), AddressKind::Unnamed);
    assert_eq!(a.as_abstract(), Some(vec![0u8; 16 - SUN_PATH_OFFSET - 1]));
}
