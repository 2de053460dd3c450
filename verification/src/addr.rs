//! Unix socket addresses: the raw kernel buffer and its classification.
//!
//! A [`SocketAddr`] is the pair of the kernel's path field and the valid
//! length of the whole address.  Its classification into unnamed,
//! pathname and abstract values is derived from the bytes, never stored.
//! One platform quirk is part of the classifier and is kept explicit
//! through the `abstract_ns` parameter: on platforms without the abstract
//! namespace, some kernels report unnamed peers with a non-trivial length
//! and a zeroed path, which must read as unnamed and not as an abstract
//! name.

use vstd::prelude::*;

use crate::error::SockError;

verus! {

/// Capacity in bytes of the path field of the kernel address structure.
pub const SUN_MAX: usize = 108;

/// Offset in bytes of the path field inside the kernel address
/// structure; the family tag lies in front of it.
pub const SUN_PATH_OFFSET: usize = 2;

/// Size in bytes of the whole kernel address structure.
pub const SOCKADDR_UN_SIZE: usize = 110;

/// The address family tag of Unix-domain sockets.
pub const AF_UNIX: u16 = 1;

/// Whether the platform this library is built for provides the abstract
/// namespace; Linux does.
pub const ABSTRACT_NAMESPACE: bool = true;

/// The three kinds of Unix socket address.
#[derive(Clone, Copy, Debug, PartialEq, Eq, Structural)]
pub enum AddressKind {
    /// No name at all: a socket that was never bound, or an anonymous
    /// peer.
    Unnamed,
    /// A path on the filesystem, null-terminated in the buffer.
    Pathname,
    /// A name in the abstract namespace, marked by a leading null byte.
    Abstract,
}

/// The kind that the classifier assigns to a path buffer of valid path
/// length `len - SUN_PATH_OFFSET`: no path bytes mean unnamed, a leading
/// null byte means abstract where the platform has that namespace and
/// absorbs the unnamed-peer quirk where it does not, and anything else is
/// a pathname.
pub open spec fn spec_kind_of(path: Seq<u8>, len: int, abstract_ns: bool) -> AddressKind {
    if len - SUN_PATH_OFFSET == 0 || (!abstract_ns && path[0] == 0) {
        AddressKind::Unnamed
    } else if path[0] == 0 {
        AddressKind::Abstract
    } else {
        AddressKind::Pathname
    }
}

/// The filesystem path carried by a pathname address: every path byte up
/// to but excluding the trailing null.
pub open spec fn spec_pathname_of(path: Seq<u8>, len: int) -> Seq<u8> {
    path.subrange(0, len - SUN_PATH_OFFSET - 1)
}

/// The name carried by an abstract address: every path byte after the
/// leading null.
pub open spec fn spec_abstract_of(path: Seq<u8>, len: int) -> Seq<u8> {
    path.subrange(1, len - SUN_PATH_OFFSET)
}

/// An address associated with a Unix socket.
#[derive(Debug)]
pub struct SocketAddr {
    path: Vec<u8>,
    len: usize,
}

impl SocketAddr {
    /// The raw path field, always `SUN_MAX` bytes.
    pub closed spec fn spec_path(self) -> Seq<u8> {
        self.path@
    }

    /// The valid length of the address, family tag included.
    pub closed spec fn spec_len(self) -> int {
        self.len as int
    }

    #[verifier::type_invariant]
    spec fn wf(self) -> bool {
        &&& self.path@.len() == SUN_MAX
        &&& SUN_PATH_OFFSET <= self.len <= SOCKADDR_UN_SIZE
    }

    /// An address from an already-marshaled path field and valid length;
    /// the codec is the one caller.
    pub(crate) fn from_encoded(path: Vec<u8>, len: usize) -> (a: SocketAddr)
        requires
            path@.len() == SUN_MAX,
            SUN_PATH_OFFSET <= len <= SOCKADDR_UN_SIZE,
        ensures
            a.spec_path() == path@,
            a.spec_len() == len,
    {
        SocketAddr { path, len }
    }

    /// An address as the kernel reported it: the family tag, the path
    /// field and the valid length the kernel wrote back.
    ///
    /// A zero length is how some kernels report the unnamed peer of a
    /// datagram; it is normalized to the shortest valid length, which
    /// classifies as unnamed.  Any other report must carry the Unix
    /// family tag, or the descriptor the report came from is no Unix
    /// socket.
    pub fn from_parts(family: u16, path: Vec<u8>, len: usize) -> (r: Result<SocketAddr, SockError>)
        requires
            path@.len() == SUN_MAX,
            len == 0 || SUN_PATH_OFFSET <= len <= SOCKADDR_UN_SIZE,
        ensures
            r is Ok <==> (len == 0 || family == AF_UNIX),
            r matches Ok(a) ==> a.spec_path() == path@ && a.spec_len() == (
            if len == 0 {
                SUN_PATH_OFFSET as int
            } else {
                len as int
            }),
            r matches Err(e) ==> e == SockError::NotUnixSocket,
    {
        if len == 0 {
            Ok(SocketAddr { path, len: SUN_PATH_OFFSET })
        } else if family != AF_UNIX {
            Err(SockError::NotUnixSocket)
        } else {
            Ok(SocketAddr { path, len })
        }
    }

    /// The raw path field, for handing the address back to the kernel.
    pub fn raw_path(&self) -> (r: &Vec<u8>)
        ensures
            r@ == self.spec_path(),
            r@.len() == SUN_MAX,
    {
        proof {
            use_type_invariant(self);
        }
        &self.path
    }

    /// The valid length of the address, for handing it back to the
    /// kernel.
    pub fn raw_len(&self) -> (r: usize)
        ensures
            r == self.spec_len(),
            SUN_PATH_OFFSET <= r <= SOCKADDR_UN_SIZE,
    {
        proof {
            use_type_invariant(self);
        }
        self.len
    }

    /// Classifies this address on a platform with or without the
    /// abstract namespace.
    pub fn address_kind(&self, abstract_ns: bool) -> (k: AddressKind)
        ensures
            k == spec_kind_of(self.spec_path(), self.spec_len(), abstract_ns),
    {
        proof {
            use_type_invariant(self);
        }
        let plen = self.len - SUN_PATH_OFFSET;
        if plen == 0 || (!abstract_ns && self.path[0] == 0) {
            AddressKind::Unnamed
        } else if self.path[0] == 0 {
            AddressKind::Abstract
        } else {
            AddressKind::Pathname
        }
    }

    /// True iff the address is unnamed.
    pub fn is_unnamed(&self) -> (r: bool)
        ensures
            r == (spec_kind_of(self.spec_path(), self.spec_len(), ABSTRACT_NAMESPACE)
                == AddressKind::Unnamed),
    {
        self.address_kind(ABSTRACT_NAMESPACE) == AddressKind::Unnamed
    }

    /// The contents of this address if it is a pathname address: the
    /// path bytes without the trailing null.
    pub fn as_pathname(&self) -> (r: Option<Vec<u8>>)
        ensures
            spec_kind_of(self.spec_path(), self.spec_len(), ABSTRACT_NAMESPACE)
                == AddressKind::Pathname ==> (r matches Some(p) && p@ == spec_pathname_of(
                self.spec_path(),
                self.spec_len(),
            )),
            spec_kind_of(self.spec_path(), self.spec_len(), ABSTRACT_NAMESPACE)
                != AddressKind::Pathname ==> r is None,
    {
        proof {
            use_type_invariant(self);
        }
        if self.address_kind(ABSTRACT_NAMESPACE) != AddressKind::Pathname {
            return None;
        }
        let plen = self.len - SUN_PATH_OFFSET;
        let mut out: Vec<u8> = Vec::new();
        let mut i: usize = 0;
        while i < plen - 1
            invariant
                self.wf(),
                AddressKind::Pathname == spec_kind_of(
                    self.spec_path(),
                    self.spec_len(),
                    ABSTRACT_NAMESPACE,
                ),
                plen == self.spec_len() - SUN_PATH_OFFSET,
                1 <= plen <= SUN_MAX,
                0 <= i <= plen - 1,
                out@ == self.spec_path().subrange(0, i as int),
            decreases plen - 1 - i,
        {
            out.push(self.path[i]);
            proof {
                assert(out@ =~= self.spec_path().subrange(0, i as int + 1));
            }
            i = i + 1;
        }
        assert(out@ =~= spec_pathname_of(self.spec_path(), self.spec_len()));
        Some(out)
    }
}

impl Clone for SocketAddr {
    /// A clone carries the same path buffer and valid length.
    fn clone(&self) -> (r: Self)
        ensures
            r.spec_path() == self.spec_path(),
            r.spec_len() == self.spec_len(),
    {
        proof {
            use_type_invariant(self);
        }
        let path = self.path.clone();
        assert(path@ =~= self.path@);
        SocketAddr { path, len: self.len }
    }
}

/// Extensions for platforms that provide the abstract namespace.
pub trait SocketAddrExt {
    /// The name an abstract address carries, if this is one.
    spec fn spec_as_abstract(&self) -> Option<Seq<u8>>;

    /// Returns the contents of this address (without the leading null
    /// byte) if it is an abstract address.
    fn as_abstract(&self) -> (r: Option<Vec<u8>>)
        ensures
            r matches Some(v) ==> (self.spec_as_abstract() matches Some(s) && v@ == s),
            r is None <==> self.spec_as_abstract() is None,
    ;
}

impl SocketAddrExt for SocketAddr {
    /// The path bytes after the leading null, for an abstract address;
    /// nothing for the other kinds.
    open spec fn spec_as_abstract(&self) -> Option<Seq<u8>> {
        if spec_kind_of(self.spec_path(), self.spec_len(), ABSTRACT_NAMESPACE)
            == AddressKind::Abstract {
            Option::Some(spec_abstract_of(self.spec_path(), self.spec_len()))
        } else {
            Option::None
        }
    }

    fn as_abstract(&self) -> (r: Option<Vec<u8>>) {
        proof {
            use_type_invariant(self);
        }
        if self.address_kind(ABSTRACT_NAMESPACE) != AddressKind::Abstract {
            return None;
        }
        let plen = self.len - SUN_PATH_OFFSET;
        let mut out: Vec<u8> = Vec::new();
        let mut i: usize = 1;
        while i < plen
            invariant
                self.wf(),
                AddressKind::Abstract == spec_kind_of(
                    self.spec_path(),
                    self.spec_len(),
                    ABSTRACT_NAMESPACE,
                ),
                plen == self.spec_len() - SUN_PATH_OFFSET,
                1 <= plen <= SUN_MAX,
                1 <= i <= plen,
                out@ == self.spec_path().subrange(1, i as int),
            decreases plen - i,
        {
            out.push(self.path[i]);
            proof {
                assert(out@ =~= self.spec_path().subrange(1, i as int + 1));
            }
            i = i + 1;
        }
        assert(out@ =~= spec_abstract_of(self.spec_path(), self.spec_len()));
        Some(out)
    }
}

} // verus!
