//! The error taxonomy of the client core. Every failure surfaces to the
//! caller as one of these typed variants; none is silently swallowed or
//! retried internally.

use vstd::prelude::*;

verus! {

/// The failures a session can report, each distinct so that callers can
/// tell the causes apart.
#[derive(Clone, Copy, Debug, PartialEq, Eq, Structural)]
pub enum SshError {
    /// Transport or network failure while dialing or mid-exchange.
    ConnectionError,
    /// The server rejected the supplied credentials.
    AuthenticationFailed,
    /// Authentication succeeded but the command channel could not be opened.
    ChannelOpenFailed,
    /// `execute` was called with no channel open (no prior successful
    /// `connect`, or the connection has been lost since).
    NotConnected,
    /// The connection dropped before an exit-status frame was observed.
    CommandIncomplete,
    /// The accumulated output exceeded the configured cap.
    OutputTooLarge,
    /// A configured deadline expired while awaiting the transport.
    Timeout,
}

/// What `SshError::message` returns for each variant.
pub open spec fn message_spec(e: SshError) -> Seq<char> {
    match e {
        SshError::ConnectionError => "connection error"@,
        SshError::AuthenticationFailed => "authentication failed"@,
        SshError::ChannelOpenFailed => "channel open failed"@,
        SshError::NotConnected => "not connected"@,
        SshError::CommandIncomplete => "command incomplete"@,
        SshError::OutputTooLarge => "output too large"@,
        SshError::Timeout => "timeout"@,
    }
}

impl SshError {
    /// A short human-readable description of the failure.
    pub fn message(&self) -> (r: &'static str)
        ensures
            r@ == message_spec(*self),
    {
        match self {
            SshError::ConnectionError => "connection error",
            SshError::AuthenticationFailed => "authentication failed",
            SshError::ChannelOpenFailed => "channel open failed",
            SshError::NotConnected => "not connected",
            SshError::CommandIncomplete => "command incomplete",
            SshError::OutputTooLarge => "output too large",
            SshError::Timeout => "timeout",
        }
    }
}

} // verus!
