//! The failure taxonomy of a resolution: every way a resolution can abort,
//! kept distinguishable so a caller can render a diagnostic.

use vstd::prelude::*;
use crate::decimal::dec_digits;
use crate::decimal::u64_to_dec;

verus! {

/// Every way a single resolution can fail. `NotAnArchive` is a negative
/// outcome rather than a system fault, but it still ends the resolution.
#[derive(Clone, Copy, Debug, PartialEq, Eq, Structural)]
pub enum ResolveError {
    /// A chunk size of zero was supplied; rejected before any request is made.
    InvalidChunkSize,
    /// The transport failed to complete an exchange (network failure).
    TransportError,
    /// The probed resource declared no content classification.
    MissingContentType,
    /// The probed resource declared a content kind other than the archive kind.
    NotAnArchive,
    /// The resource did not report its total byte length.
    UnknownLength,
    /// The reported length is below the minimum needed to hold the format trailer.
    ResourceTooSmall,
    /// The transport answered a range request with a status that is neither
    /// full nor partial content; the carried value is that status code.
    UnexpectedStatus(u16),
    /// The assembled byte window could not be read as an archive index.
    ArchiveParseError,
}

/// The diagnostic text for each failure.
pub open spec fn message_spec(e: ResolveError) -> Seq<char> {
    match e {
        ResolveError::InvalidChunkSize => "invalid chunk size, give a value greater than zero"@,
        ResolveError::TransportError => "transport failure while talking to the resource"@,
        ResolveError::MissingContentType => "the resource declares no content type"@,
        ResolveError::NotAnArchive => "the resource is not an archive"@,
        ResolveError::UnknownLength => "the resource does not report its length"@,
        ResolveError::ResourceTooSmall => "the resource is too small to hold an archive index"@,
        ResolveError::UnexpectedStatus(code) => "unexpected server response: "@ + dec_digits(
            code as nat,
        ),
        ResolveError::ArchiveParseError => "the fetched window could not be read as an archive"@,
    }
}

impl ResolveError {
    /// A diagnostic line for this failure, for the caller to print.
    pub fn message(&self) -> (r: String)
        ensures
            r@ == message_spec(*self),
    {
        match self {
            ResolveError::InvalidChunkSize => String::from_str(
                "invalid chunk size, give a value greater than zero",
            ),
            ResolveError::TransportError => String::from_str(
                "transport failure while talking to the resource",
            ),
            ResolveError::MissingContentType => String::from_str(
                "the resource declares no content type",
            ),
            ResolveError::NotAnArchive => String::from_str("the resource is not an archive"),
            ResolveError::UnknownLength => String::from_str(
                "the resource does not report its length",
            ),
            ResolveError::ResourceTooSmall => String::from_str(
                "the resource is too small to hold an archive index",
            ),
            ResolveError::UnexpectedStatus(code) => {
                let mut s = String::from_str("unexpected server response: ");
                let digits = u64_to_dec(*code as u64);
                s.append(digits.as_str());
                s
            },
            ResolveError::ArchiveParseError => String::from_str(
                "the fetched window could not be read as an archive",
            ),
        }
    }
}

} // verus!
