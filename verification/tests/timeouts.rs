//! The timeout codec on concrete values.

use unix_socket::sockopt::decode_timeout;
use unix_socket::sockopt::encode_timeout;
use unix_socket::sockopt::Duration;
use unix_socket::sockopt::Timeval;
use unix_socket::sockopt::TIME_T_MAX;
use unix_socket::error::ErrorKind;
use unix_socket::error::SockError;

#[test]
fn timeouts() {
    let dur = Duration::new(15410, 0);

    // nothing set: the kernel pair is all zero and reads back as None
    let cleared = encode_timeout(None).unwrap();
    assert_eq!(cleared, Timeval { sec: 0, usec: 0 });
    assert_eq!(decode_timeout(cleared), None);

    // a set timeout reads back as the duration that was set
    let tv = encode_timeout(Some(dur)).unwrap();
    assert_eq!(tv, Timeval { sec: 15410, usec: 0 });
    assert_eq!(decode_timeout(tv), Some(dur));

    // clearing it again reads back as None
    let tv = encode_timeout(None).unwrap();
    assert_eq!(decode_timeout(tv), None);
}

#[test]
fn fractional_timeout_round_trip() {
    let dur = Duration::new(1, 250_000_000);
    let tv = encode_timeout(Some(dur)).unwrap();
    assert_eq!(tv, Timeval { sec: 1, usec: 250_000 });
    assert_eq!(decode_timeout(tv), Some(dur));
}

#[test]
fn zero_timeout_rejected() {
    let e = encode_timeout(Some(Duration::new(0, 0))).unwrap_err();
    assert_eq!(e, SockError::ZeroTimeout);
    assert_eq!(e.kind(), ErrorKind::InvalidInput);
    assert_eq!(e.message(), "cannot set a 0 duration timeout");
}

#[test]
fn sub_microsecond_nudged_up() {
    // Too fine for the kernel's resolution: nudged to one microsecond
    // rather than truncated to "no timeout".
    let tv = encode_timeout(Some(Duration::new(0, 999))).unwrap();
    assert_eq!(tv, Timeval { sec: 0, usec: 1 });
    assert_eq!(decode_timeout(tv), Some(Duration::new(0, 1_000)));
}

#[test]
fn sub_microsecond_precision_truncated() {
    let tv = encode_timeout(Some(Duration::new(3, 1_999))).unwrap();
    assert_eq!(tv, Timeval { sec: 3, usec: 1 });
}

#[test]
fn oversized_seconds_clamped() {
    let tv = encode_timeout(Some(Duration::new(u64::MAX, 0))).unwrap();
    assert_eq!(
        tv,
        Timeval {
            sec: TIME_T_MAX,
            usec: 999_999
        }
    );
}

#[test]
fn largest_representable_seconds_kept() {
    let dur = Duration::new(TIME_T_MAX as u64, 0);
    let tv = encode_timeout(Some(dur)).unwrap();
    assert_eq!(
        tv,
        Timeval {
            sec: TIME_T_MAX,
            usec: 0
        }
    );
    assert_eq!(decode_timeout(tv), Some(dur));
}
