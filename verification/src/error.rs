use vstd::prelude::*;

use crate::algorithm::Algorithm;

verus! {

/// The closed set of verification failures. Wrapped `String` causes carry
/// diagnostic text from the underlying decoder, parser, cryptographic
/// library, or key provider.
#[derive(Debug)]
pub enum Error {
    /// The token string has no header segment.
    NoHeader,
    /// The token string has no payload segment (no dot at all).
    NoPayload,
    /// The token string has no signature segment (only one dot).
    NoSignature,
    /// The audience claim does not equal the expected client identity.
    AudienceDoesNotMeetClientId { audience: String, client_id: String },
    /// The issuer claim is neither accepted spelling of the provider.
    InappropriateIssuer(String),
    /// The token expired before the current time.
    Expired { current: u64, expires_at: u64 },
    /// The token claims to have been issued after its own expiry.
    ExpiredIssued { issued_at: u64, expires_at: u64 },
    /// The key provider does not know the key identifier.
    NoKey,
    /// The key provider failed to retrieve the key at all.
    RetrieveKeyFailure(String),
    /// The key does not support the algorithm it was asked to verify with.
    UnsupportedAlgorithm(Algorithm),
    /// A segment is not valid base64url.
    Decode(String),
    /// Decoded bytes are not the JSON shape the token format requires.
    Parse(String),
    /// Cryptographic signature verification rejected the token.
    CryptoFailure(String),
}

/// The mathematical value of an `Error`. The diagnostic texts of wrapped
/// causes are abstracted away, except for `RetrieveKeyFailure`, whose cause
/// is handed in by the caller's key provider and is kept exactly.
pub ghost enum ErrorV {
    NoHeader,
    NoPayload,
    NoSignature,
    AudienceDoesNotMeetClientId { audience: Seq<char>, client_id: Seq<char> },
    InappropriateIssuer(Seq<char>),
    Expired { current: u64, expires_at: u64 },
    ExpiredIssued { issued_at: u64, expires_at: u64 },
    NoKey,
    RetrieveKeyFailure(Seq<char>),
    UnsupportedAlgorithm(Algorithm),
    Decode,
    Parse,
    CryptoFailure,
}

impl View for Error {
    type V = ErrorV;

    open spec fn view(&self) -> ErrorV {
        match self {
            Error::NoHeader => ErrorV::NoHeader,
            Error::NoPayload => ErrorV::NoPayload,
            Error::NoSignature => ErrorV::NoSignature,
            Error::AudienceDoesNotMeetClientId { audience, client_id } => (ErrorV::AudienceDoesNotMeetClientId { audience: audience@, client_id: client_id@ }),
            Error::InappropriateIssuer(issuer) => ErrorV::InappropriateIssuer(issuer@),
            Error::Expired { current, expires_at } => (ErrorV::Expired { current: *current, expires_at: *expires_at }),
            Error::ExpiredIssued { issued_at, expires_at } => (ErrorV::ExpiredIssued { issued_at: *issued_at, expires_at: *expires_at }),
            Error::NoKey => ErrorV::NoKey,
            Error::RetrieveKeyFailure(cause) => ErrorV::RetrieveKeyFailure(cause@),
            Error::UnsupportedAlgorithm(alg) => ErrorV::UnsupportedAlgorithm(*alg),
            Error::Decode(_) => ErrorV::Decode,
            Error::Parse(_) => ErrorV::Parse,
            Error::CryptoFailure(_) => ErrorV::CryptoFailure,
        }
    }
}

/// The view of a `Result` whose success carries no data, as returned by
/// signature checking.
pub open spec fn unit_result_view(r: Result<(), Error>) -> Result<(), ErrorV> {
    match r {
        Ok(()) => Ok(()),
        Err(e) => Err(e@),
    }
}

} // verus!
