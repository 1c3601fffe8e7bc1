//! Error kinds surfaced by the library.
use vstd::prelude::*;

verus! {

/// Every failure the core can report.
///
/// Transport- and discovery-level failures abort the operation that hit
/// them; they carry no payload here because the native transport error
/// stays with the I/O layer that produced it.
#[derive(Clone, Copy, PartialEq, Eq, Structural, Debug)]
pub enum SoundcoreError {
    /// Operation attempted on a connection without an active transport.
    NotConnected,
    /// Uuid-set discovery found no candidate vendor service.
    MissingUuidSet,
    /// A supplied or discovered service id does not resolve.
    MissingService,
    /// A supplied or discovered characteristic id does not resolve.
    MissingCharacteristic,
    /// A response buffer failed checksum validation.
    ResponseChecksumError,
    /// A response buffer is shorter than the decode requires.
    ShortResponse,
    /// A textual field is not valid UTF-8.
    InvalidText,
    /// The underlying transport failed to connect, send or receive.
    TransportError,
    /// A hardware address string is malformed.
    ParseError,
}

} // verus!
