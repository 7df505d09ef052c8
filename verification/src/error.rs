//! What can go wrong, and what is merely not ready yet.

use vstd::prelude::*;
use vstd::string::*;

verus! {

/// Outcomes of the audio bridge other than success.
#[derive(Clone, Copy, Debug, PartialEq, Eq, Structural)]
pub enum BridgeError {
    /// The packet carries no PCM samples; it is skipped.
    MalformedPacket,
    /// The buffer handed to `read` cannot hold one frame.
    BufferTooSmall,
    /// No frame is queued. Nothing was read, and returning zero bytes would
    /// end the stream downstream: the caller waits for the producer and
    /// reads again.
    WouldBlock,
}

/// Failures of the connect session and its control channel.
#[derive(Clone, Copy, Debug, PartialEq, Eq, Structural)]
pub enum ConnectError {
    /// No credentials could be had: pairing timed out or could not start, or
    /// the credentials did not validate.
    AuthenticationFailed,
    /// A control channel could not be constructed.
    ControlChannelBuildFailed,
    /// The existing control channel could not be resumed.
    ReactivationFailed,
}

impl BridgeError {
    /// A sentence for logs.
    pub fn message(&self) -> (text: String)
        ensures
            text@ == (match *self {
                BridgeError::MalformedPacket => "packet without audio samples skipped"@,
                BridgeError::BufferTooSmall =>
                    "read buffer cannot hold one stereo frame (8 bytes)"@,
                BridgeError::WouldBlock => "no audio frame is queued yet"@,
            }),
    {
        match self {
            BridgeError::MalformedPacket => String::from_str(
                "packet without audio samples skipped",
            ),
            BridgeError::BufferTooSmall => String::from_str(
                "read buffer cannot hold one stereo frame (8 bytes)",
            ),
            BridgeError::WouldBlock => String::from_str("no audio frame is queued yet"),
        }
    }
}

impl ConnectError {
    /// Whether the process cannot go on after this failure unless it was
    /// told to run without playback.
    pub fn is_fatal(&self) -> (fatal: bool)
        ensures
            fatal == (*self == ConnectError::AuthenticationFailed),
    {
        match self {
            ConnectError::AuthenticationFailed => true,
            ConnectError::ControlChannelBuildFailed => false,
            ConnectError::ReactivationFailed => false,
        }
    }

    /// A sentence for logs.
    pub fn message(&self) -> (text: String)
        ensures
            text@ == (match *self {
                ConnectError::AuthenticationFailed => "authentication failed"@,
                ConnectError::ControlChannelBuildFailed =>
                    "control channel could not be built"@,
                ConnectError::ReactivationFailed => "control channel could not be resumed"@,
            }),
    {
        match self {
            ConnectError::AuthenticationFailed => String::from_str("authentication failed"),
            ConnectError::ControlChannelBuildFailed => String::from_str(
                "control channel could not be built",
            ),
            ConnectError::ReactivationFailed => String::from_str(
                "control channel could not be resumed",
            ),
        }
    }
}

} // verus!
