//! The kinds of failure that end a run, and how each is reported.

use vstd::prelude::*;

verus! {

/// Why a run ended without completing its work.
#[derive(Clone, Copy, Debug, PartialEq, Eq, Structural)]
pub enum Failure {
    /// The invocation names no known mode, or gives a mode the wrong operands.
    Usage,
    /// No credential record has been persisted yet.
    NotFound,
    /// The persisted content is not a valid credential record.
    Corrupt,
    /// The credential store could not be read or written.
    Io,
    /// Discovery ended without yielding a device whose credentials can be
    /// used.
    Discovery,
    /// The session handshake failed at the transport level.
    Network,
    /// The remote service rejected the credentials.
    AuthenticationFailed,
    /// The media identifier is malformed.
    InvalidIdentifier,
    /// The session rejected the load request.
    Load,
    /// The session was lost while the item was playing.
    SessionDropped,
}

impl Failure {
    /// The text shown to the operator for this failure.
    pub open spec fn text(self) -> Seq<char> {
        match self {
            Failure::Usage => "usage: expected `discover` or `play <media-identifier>`"@,
            Failure::NotFound => "credentials: not discovered yet, run `discover` first"@,
            Failure::Corrupt => "credentials: the persisted record is not valid"@,
            Failure::Io => "credentials: the store could not be read or written"@,
            Failure::Discovery => "discovery: the listener ended without a usable device"@,
            Failure::Network => "session: the network failed"@,
            Failure::AuthenticationFailed => "session: the credentials were rejected"@,
            Failure::InvalidIdentifier => "playback: the media identifier is malformed"@,
            Failure::Load => "playback: the load request was rejected"@,
            Failure::SessionDropped => "playback: the session dropped before the end of the track"@,
        }
    }

    /// A human-readable message that names the stage that failed.
    pub fn message(&self) -> (out: String)
        ensures
            out@ == self.text(),
    {
        let s: &str = match self {
            Failure::Usage => "usage: expected `discover` or `play <media-identifier>`",
            Failure::NotFound => "credentials: not discovered yet, run `discover` first",
            Failure::Corrupt => "credentials: the persisted record is not valid",
            Failure::Io => "credentials: the store could not be read or written",
            Failure::Discovery => "discovery: the listener ended without a usable device",
            Failure::Network => "session: the network failed",
            Failure::AuthenticationFailed => "session: the credentials were rejected",
            Failure::InvalidIdentifier => "playback: the media identifier is malformed",
            Failure::Load => "playback: the load request was rejected",
            Failure::SessionDropped => "playback: the session dropped before the end of the track",
        };
        s.to_owned()
    }
}

/// The process status for a run: zero exactly when nothing failed.
pub open spec fn status_of(failure: Option<Failure>) -> u8 {
    match failure {
        None => 0u8,
        Some(Failure::Usage) => 2u8,
        Some(_) => 1u8,
    }
}

/// Computes the process status for a finished run.
pub fn exit_status(failure: Option<Failure>) -> (code: u8)
    ensures
        code == status_of(failure),
        code == 0 <==> failure is None,
{
    match failure {
        None => 0,
        Some(Failure::Usage) => 2,
        Some(_) => 1,
    }
}

} // verus!
