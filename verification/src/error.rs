//! The normalized error kinds that every fallible operation of this crate
//! surfaces. Transport failures reported by the channel layer are passed
//! through as their own kind rather than reinterpreted.

use vstd::prelude::*;

verus! {

/// One normalized error kind per failure class: lock failures, each
/// uninstalled registry, strict UTF-8 decoding, and the transport beneath
/// the channel layer.
#[derive(Clone, Copy, Debug, PartialEq, Eq, Structural)]
pub enum SshError {
    /// The resource's lock could not be obtained.
    MutexError,
    /// The Client registry was read before a client was installed.
    ClientNullError,
    /// The Config registry was read before a configuration was installed.
    ConfigNullError,
    /// The encryption-key registry was read before a key was installed.
    EncryptionNullError,
    /// Strict UTF-8 decoding failed.
    FromUtf8Error,
    /// A blocking receive found no packet to return.
    TimeoutError,
    /// The transport beneath the channel reported a failure.
    TransportError,
}

pub type SshResult<T> = Result<T, SshError>;

} // verus!
