//! The failure taxonomy of the capture pipeline.

use vstd::prelude::*;

verus! {

/// Every way the capture pipeline can fail.
///
/// None of these aborts the process: each is returned to the caller, which
/// decides how to present it.
#[derive(Clone, Copy, Debug, PartialEq, Eq, Structural)]
pub enum Error {
    /// A failure at the transport or server-reply layer: broken connection,
    /// an error reply, or a failed write. Never retried here.
    ProtocolError,
    /// Target resolution exhausted every candidate without a match.
    TargetNotFound,
    /// A supplied explicit window identifier could not be parsed.
    InvalidIdentifier,
    /// The pixel data returned by the server disagrees in length with the
    /// requested geometry.
    CaptureSizeMismatch,
    /// Clipboard ownership could not be verified after claiming it.
    OwnershipNotEstablished,
}

} // verus!
