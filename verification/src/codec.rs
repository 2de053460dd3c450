//! Marshaling caller paths into the kernel address layout.
//!
//! Encoding zero-fills the path field, copies the input verbatim, and
//! computes the valid length.  A leading null byte selects the abstract
//! namespace, which needs no terminating null; any other non-empty input
//! is a filesystem pathname, whose terminating null is already present
//! thanks to the zero fill and is counted into the valid length.  The
//! length policy is conservative: every input must be strictly shorter
//! than the path field, so that a pathname always keeps room for its
//! terminating null (an abstract name of exactly the field's size, which
//! the kernel itself would take, is rejected as well).

use vstd::prelude::*;

use crate::addr::AddressKind;
use crate::addr::SocketAddr;
use crate::addr::ABSTRACT_NAMESPACE;
use crate::addr::SUN_MAX;
use crate::addr::SUN_PATH_OFFSET;
use crate::addr::spec_abstract_of;
use crate::addr::spec_kind_of;
use crate::addr::spec_pathname_of;
use crate::error::ErrorKind;
use crate::error::SockError;
use crate::error::spec_kind;

verus! {

/// Whether the input selects the abstract namespace: a leading null
/// byte.
pub open spec fn spec_is_abstract_input(p: Seq<u8>) -> bool {
    p.len() > 0 && p[0] == 0
}

/// Whether the input is an ordinary filesystem pathname: non-empty and
/// without a leading null byte.
pub open spec fn spec_is_pathname_input(p: Seq<u8>) -> bool {
    p.len() > 0 && p[0] != 0
}

/// The length policy: an abstract name may not be longer than the path
/// field, and every other input must leave room for the terminating
/// null.  `None` means the input is accepted.
pub open spec fn spec_encode_err(p: Seq<u8>) -> Option<SockError> {
    if spec_is_abstract_input(p) && p.len() > SUN_MAX {
        Option::Some(SockError::PathTooLongAbstract)
    } else if p.len() >= SUN_MAX {
        Option::Some(SockError::PathTooLong)
    } else {
        Option::None
    }
}

/// The marshaled path field of an accepted input: the input verbatim,
/// zero fill behind it up to the field's capacity.
pub open spec fn spec_encoded_path(p: Seq<u8>) -> Seq<u8> {
    p + Seq::new((SUN_MAX - p.len()) as nat, |i: int| 0u8)
}

/// The valid length of an accepted input: the path offset plus the input
/// length, plus one for the terminating null of a pathname.
pub open spec fn spec_encoded_len(p: Seq<u8>) -> int {
    SUN_PATH_OFFSET + p.len() + if spec_is_pathname_input(p) {
        1int
    } else {
        0int
    }
}

/// Encodes a caller path into a kernel address.  The two rejections are
/// exactly those of the length policy; everything accepted is marshaled
/// as [`spec_encoded_path`] and [`spec_encoded_len`] describe.
pub fn encode(path: &Vec<u8>) -> (r: Result<SocketAddr, SockError>)
    ensures
        spec_encode_err(path@) matches Some(e) ==> r == Result::<SocketAddr, SockError>::Err(e),
        spec_encode_err(path@) is None ==> (r matches Ok(a) && a.spec_path() == spec_encoded_path(
            path@,
        ) && a.spec_len() == spec_encoded_len(path@)),
{
    let n = path.len();
    if n > 0 && path[0] == 0 {
        if n > SUN_MAX {
            return Err(SockError::PathTooLongAbstract);
        }
    }
    if n >= SUN_MAX {
        return Err(SockError::PathTooLong);
    }
    let mut buf: Vec<u8> = Vec::new();
    let mut i: usize = 0;
    while i < n
        invariant
            n == path@.len() < SUN_MAX,
            0 <= i <= n,
            buf@ == path@.subrange(0, i as int),
        decreases n - i,
    {
        buf.push(path[i]);
        proof {
            assert(buf@ =~= path@.subrange(0, i as int + 1));
        }
        i = i + 1;
    }
    assert(buf@ =~= path@);
    while buf.len() < SUN_MAX
        invariant
            n == path@.len() < SUN_MAX,
            n <= buf@.len() <= SUN_MAX,
            buf@ == path@ + Seq::new((buf@.len() - n) as nat, |j: int| 0u8),
        decreases SUN_MAX - buf@.len(),
    {
        buf.push(0);
        proof {
            assert(buf@ =~= path@ + Seq::new((buf@.len() - n) as nat, |j: int| 0u8));
        }
    }
    assert(buf@ =~= spec_encoded_path(path@));
    let mut len = SUN_PATH_OFFSET + n;
    if n > 0 && path[0] != 0 {
        len = len + 1;
    }
    Ok(SocketAddr::from_encoded(buf, len))
}

/// Pathname round trip: a non-empty path without a leading null byte and
/// strictly shorter than the path field is accepted, its encoding
/// classifies as a pathname on every platform, its valid length fits the
/// kernel structure and covers a terminating null byte, and the pathname
/// read back from the encoding is the input itself.
pub proof fn lemma_pathname_round_trip(p: Seq<u8>, abstract_ns: bool)
    requires
        0 < p.len() < SUN_MAX,
        p[0] != 0,
    ensures
        spec_encode_err(p) is None,
        spec_kind_of(spec_encoded_path(p), spec_encoded_len(p), abstract_ns)
            == AddressKind::Pathname,
        spec_pathname_of(spec_encoded_path(p), spec_encoded_len(p)) == p,
        SUN_PATH_OFFSET < spec_encoded_len(p) <= SUN_PATH_OFFSET + SUN_MAX,
        spec_encoded_path(p)[spec_encoded_len(p) - SUN_PATH_OFFSET - 1] == 0,
{
    assert(spec_pathname_of(spec_encoded_path(p), spec_encoded_len(p)) =~= p);
    assert(spec_encoded_path(p)[p.len() as int] == 0);
}

/// Abstract round trip, on a platform with the abstract namespace: a
/// name that fits the path field together with its leading null byte is
/// accepted, its encoding classifies as abstract, and the name read back
/// from the encoding is the input itself.
pub proof fn lemma_abstract_round_trip(name: Seq<u8>)
    requires
        name.len() + 1 < SUN_MAX,
    ensures
        spec_encode_err(seq![0u8] + name) is None,
        spec_kind_of(
            spec_encoded_path(seq![0u8] + name),
            spec_encoded_len(seq![0u8] + name),
            ABSTRACT_NAMESPACE,
        ) == AddressKind::Abstract,
        spec_abstract_of(spec_encoded_path(seq![0u8] + name), spec_encoded_len(seq![0u8] + name))
            == name,
        SUN_PATH_OFFSET < spec_encoded_len(seq![0u8] + name) <= SUN_PATH_OFFSET + SUN_MAX,
{
    let p = seq![0u8] + name;
    assert(p[0] == 0);
    assert(spec_abstract_of(spec_encoded_path(p), spec_encoded_len(p)) =~= name);
}

/// Length policy: the codec rejects an input exactly when it does not
/// fit the path field with room to spare — a pathname of the field's
/// size or beyond, or an abstract name beyond it (one of exactly the
/// field's size is conservatively rejected too) — and every rejection
/// is invalid input.  Connect and bind of every socket type encode the
/// caller's path before anything reaches the kernel, so they all fail
/// alike on such inputs.
pub proof fn lemma_length_policy(p: Seq<u8>)
    ensures
        spec_encode_err(p) is Some <==> p.len() >= SUN_MAX,
        spec_encode_err(p) matches Some(e) ==> spec_kind(e) == ErrorKind::InvalidInput,
{
}

} // verus!
