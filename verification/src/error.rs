//! The error kinds of the renderer transport subsystem.

use vstd::prelude::*;

verus! {

/// Every failure the subsystem reports to its callers. None of these
/// terminates the process; each is returned as a typed result.
#[derive(Clone, Copy, Debug, PartialEq, Eq, Structural)]
pub enum RendererError {
    /// The transport device is missing or cannot be opened.
    NotAvailable,
    /// Endpoint negotiation exhausted every endpoint without a connection.
    NoEndpoint,
    /// The operation requires an active session and none exists.
    NotStarted,
    /// The surface handle is null or invalid.
    InvalidWindow,
    /// The host surface geometry call returned the contained nonzero code.
    ConfigurationFailed(i32),
    /// The host surface lock call returned the contained nonzero code.
    LockFailed(i32),
    /// The host surface unlock-and-post call returned the contained nonzero code.
    PresentFailed(i32),
    /// A read, write or flush on an open channel failed.
    IoError,
}

} // verus!
