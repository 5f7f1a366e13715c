use vstd::prelude::*;

verus! {

/// Why a single fetch (download, size accounting or archive extraction) failed.
#[derive(Debug, Clone, Copy, PartialEq, Eq, Structural)]
pub enum FetchError {
    /// The peer announced a body larger than the limit.
    DeclaredSizeExceeded,
    /// The bytes actually received went past the limit.
    ActualSizeExceeded,
    /// The archive parsed but holds no entry.
    EmptyArchive,
    /// The entry declares, or decompresses to, more than the ceiling.
    UncompressedSizeExceeded,
    /// The bytes are not a readable archive.
    InvalidArchive,
    /// The decompressed entry is not UTF-8 text.
    InvalidText,
    /// The remote service answered with an error status.
    UpstreamError(u16),
    /// The listing of published data files reported no usable file.
    FileListUnavailable,
}

/// Why transport negotiation did not produce a session.
#[derive(Debug, Clone, Copy, PartialEq, Eq, Structural)]
pub enum NegotiationError {
    /// Host, username or password is missing; nothing was tried.
    ConfigInvalid,
    /// Every transport variant was tried and none was established.
    AllTransportsFailed,
}

/// Why a use of the shared session slot was refused.
#[derive(Debug, Clone, Copy, PartialEq, Eq, Structural)]
pub enum SessionError {
    /// A session was installed before; it is never replaced.
    AlreadyInitialized,
    /// No session has been installed yet.
    NotInitialized,
    /// The session was closed at shutdown.
    SessionClosed,
}

} // verus!
