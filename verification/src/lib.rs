//! Core logic of a Unix-domain socket library.
//!
//! The kernel-facing half of such a library — socket creation, connect,
//! bind, send and receive — is system calls; what stands here is every
//! part that can be reasoned about as pure computation:
//!
//! * marshaling caller paths into the `sockaddr_un` wire layout and
//!   classifying kernel-returned addresses ([`codec`], [`addr`],
//!   [`render`]),
//! * encoding and decoding socket timeouts and the half-shutdown
//!   direction ([`sockopt`]),
//! * the error taxonomy and the classification of kernel error codes
//!   ([`error`]),
//! * the close-exactly-once discipline of descriptor ownership
//!   ([`handle`]),
//! * the decisions behind a listener's infinite accept iterator
//!   ([`incoming`]).

pub mod addr;
pub mod codec;
pub mod error;
pub mod handle;
pub mod incoming;
pub mod render;
pub mod sockopt;

pub use addr::AddressKind;
pub use addr::SocketAddr;
pub use addr::SocketAddrExt;
pub use error::ErrorKind;
pub use error::SockError;
pub use handle::Descriptor;
pub use sockopt::Duration;
pub use sockopt::Shutdown;
pub use sockopt::Timeval;
