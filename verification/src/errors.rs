//! The kinds of failure that the session manager reports, and the failures
//! that its collaborators report to it.
use vstd::prelude::*;

verus! {

/// What went wrong, as far as a caller needs to tell the cases apart.
///
/// Failures of collaborators never pass through as they are: each becomes
/// one of these kinds where it enters the manager.
#[derive(Clone, Copy, Debug, PartialEq, Eq, Hash, Structural)]
pub enum ErrorKind {
    /// The operation needs a live session and there is none.
    NotConnected,
    /// The platform could not join the voice channel.
    ConnectionFailed,
    /// The platform could not leave the voice channel.
    DisconnectFailed,
    /// The audio source could not be produced.
    ResolveError,
    /// Mute or deafen was asked for while already in that state.
    AlreadyInState,
    /// A repeat count was out of range or could not be read.
    InvalidRepeatCount,
}

impl ErrorKind {
    /// Whether the kind only informs: the operation still counts as done.
    pub open spec fn is_benign(self) -> bool {
        self == ErrorKind::AlreadyInState || self == ErrorKind::InvalidRepeatCount || self
            == ErrorKind::NotConnected
    }

    /// Whether the kind only informs: the operation still counts as done, or
    /// there was nothing to do.
    pub fn benign(self) -> (b: bool)
        ensures
            b == self.is_benign(),
    {
        match self {
            ErrorKind::AlreadyInState
            | ErrorKind::InvalidRepeatCount
            | ErrorKind::NotConnected => true,
            _ => false,
        }
    }
}

/// The platform's account of a failed attempt to join a voice channel.
#[derive(Debug, PartialEq, Eq)]
pub struct ConnectError {
    /// Text for the log; no decision depends on it.
    pub detail: String,
}

/// The platform's account of a failed attempt to leave a voice channel.
#[derive(Debug, PartialEq, Eq)]
pub struct DisconnectError {
    /// Text for the log; no decision depends on it.
    pub detail: String,
}

/// The resolver's account of an audio source that could not be produced.
#[derive(Debug, PartialEq, Eq)]
pub struct ResolveError {
    /// Text for the log; no decision depends on it.
    pub detail: String,
}

impl ConnectError {
    /// The kind that this failure is reported as.
    pub fn kind(&self) -> (k: ErrorKind)
        ensures
            k == ErrorKind::ConnectionFailed,
    {
        ErrorKind::ConnectionFailed
    }
}

impl DisconnectError {
    /// The kind that this failure is reported as.
    pub fn kind(&self) -> (k: ErrorKind)
        ensures
            k == ErrorKind::DisconnectFailed,
    {
        ErrorKind::DisconnectFailed
    }
}

impl ResolveError {
    /// The kind that this failure is reported as.
    pub fn kind(&self) -> (k: ErrorKind)
        ensures
            k == ErrorKind::ResolveError,
    {
        ErrorKind::ResolveError
    }
}

/// What the platform hands back once the link to a voice channel stands.
#[derive(Clone, Copy, Debug, PartialEq, Eq, Hash, Structural)]
pub struct ConnectionHandle(pub u64);

} // verus!
