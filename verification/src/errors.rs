//! Error taxonomy of the CDP automation core.
//!
//! Low-level socket and parse failures are converted at each component's
//! boundary into one of these variants; raw transport errors never reach a
//! caller. "No tab carries this correlation id" is not an error: the
//! correlator reports it as `None`.

use vstd::prelude::*;

verus! {

/// One failure class of a CDP operation, distinguishable by the caller
/// because recovery differs between them.
#[derive(Clone, Copy, Debug, PartialEq, Eq, Structural)]
pub enum CdpError {
    /// The HTTP control plane answered, but the debugger socket cannot be
    /// used; retrying the connection is the right recovery.
    EndpointUnreachable,
    /// The browser binary could not be spawned or its profile could not be
    /// prepared; fatal to the current operation.
    LaunchFailure,
    /// The control plane never answered within the polling budget after a
    /// launch; relaunching is the right recovery.
    LaunchTimeout,
    /// A single correlated round-trip exceeded its bound; usually non-fatal,
    /// the operation proceeds with a degraded result.
    RequestTimeout,
    /// The screenshot round-trip exceeded its bound.
    ScreenshotTimeout,
    /// The peer closed the socket while a response was awaited.
    SocketClosed,
    /// A response frame was malformed or carried an error member.
    ProtocolError,
    /// A freshly stamped correlation id did not read back as written;
    /// non-fatal, the tab exists but is unstamped.
    VerificationMismatch,
}

impl CdpError {
    /// What `describe` returns for each variant.
    pub open spec fn spec_describe(self) -> Seq<char> {
        match self {
            CdpError::EndpointUnreachable => "endpoint unreachable"@,
            CdpError::LaunchFailure => "browser launch failed"@,
            CdpError::LaunchTimeout => "browser launch timed out"@,
            CdpError::RequestTimeout => "request timed out"@,
            CdpError::ScreenshotTimeout => "screenshot timed out"@,
            CdpError::SocketClosed => "socket closed"@,
            CdpError::ProtocolError => "protocol error"@,
            CdpError::VerificationMismatch => "correlation id verification mismatch"@,
        }
    }

    /// A short human-readable description of the failure.
    pub fn describe(&self) -> (r: String)
        ensures
            r@ == self.spec_describe(),
    {
        match self {
            CdpError::EndpointUnreachable => String::from_str("endpoint unreachable"),
            CdpError::LaunchFailure => String::from_str("browser launch failed"),
            CdpError::LaunchTimeout => String::from_str("browser launch timed out"),
            CdpError::RequestTimeout => String::from_str("request timed out"),
            CdpError::ScreenshotTimeout => String::from_str("screenshot timed out"),
            CdpError::SocketClosed => String::from_str("socket closed"),
            CdpError::ProtocolError => String::from_str("protocol error"),
            CdpError::VerificationMismatch => {
                String::from_str("correlation id verification mismatch")
            },
        }
    }
}

} // verus!
