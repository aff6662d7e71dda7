//! Error kinds surfaced by the framing layer.

use vstd::prelude::*;

verus! {

/// Failures of a single frame exchange.
///
/// Transport read timeouts are not represented here: the read loops absorb
/// them and keep waiting.
#[derive(Debug, PartialEq, Clone)]
pub enum BESLinkError {
    /// The computed checksum disagrees with the received checksum. Carries
    /// the full offending frame and both values for diagnostics.
    BadChecksumError { failed_packet: Vec<u8>, got: u8, wanted: u8 },
    /// The caller requested trailing bulk data after a response whose type
    /// was not `FlashRead`.
    InvalidArgs,
    /// A non-timeout I/O failure from the underlying transport; fatal to the
    /// current operation.
    TransportError,
}

} // verus!
