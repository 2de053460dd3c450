//! The human debug rendering of addresses.

use unix_socket::codec::encode;

fn rendered(path: &[u8]) -> Vec<u8> {
    encode(&path.to_vec()).unwrap().render()
}

#[test]
fn render_unnamed() {
    assert_eq!(rendered(b""), b"(unnamed)".to_vec());
}

#[test]
fn render_pathname() {
    assert_eq!(rendered(b"/tmp/sock"), b"\"/tmp/sock\" (pathname)".to_vec());
}

#[test]
fn render_abstract() {
    assert_eq!(rendered(b"\0the path"), b"\"the path\" (abstract)".to_vec());
}

#[test]
fn render_escapes_bytes() {
    // named escapes, a printable byte, and the hexadecimal form
    assert_eq!(
        rendered(b"\0a\t\\\x01\xff"),
        b"\"a\\t\\\\\\x01\\xff\" (abstract)".to_vec()
    );
    assert_eq!(rendered(b"\0\"\n"), b"\"\\\"\\n\" (abstract)".to_vec());
}
