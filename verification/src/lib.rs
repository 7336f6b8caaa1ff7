//! Verification of compact, dot-separated identity tokens: structural
//! decoding, mandatory-claim validation, pluggable key retrieval, and the
//! transition from an unverified token to a cryptographically verified one.

mod algorithm;
mod compact;
mod error;
mod header;
mod jsonio;
mod jwk;
mod key_provider;
pub mod laws;
mod strutil;
mod token;
mod unverified_token;

pub use algorithm::spec_algorithm_of;
pub use algorithm::Algorithm;
pub use compact::decoded_b64;
pub use compact::next_dot;
pub use error::unit_result_view;
pub use error::Error;
pub use error::ErrorV;
pub use header::Header;
pub use header::HeaderV;
pub use jsonio::json_claims_of;
pub use jsonio::json_header_of;
pub use jsonio::json_id_payload_of;
pub use jsonio::RawClaims;
pub use jsonio::RawClaimsV;
pub use jsonio::RawHeader;
pub use jsonio::RawHeaderV;
pub use jwk::rsa_sha256_check;
pub use jwk::spec_key_verify;
pub use jwk::JsonWebKey;
pub use jwk::JsonWebKeyV;
pub use key_provider::KeyProvider;
pub use token::IdPayload;
pub use token::IdPayloadV;
pub use token::RequiredClaims;
pub use token::RequiredClaimsV;
pub use token::Token;
pub use token::TokenV;
pub use unverified_token::key_result_view;
pub use unverified_token::spec_check_claims;
pub use unverified_token::spec_decode;
pub use unverified_token::spec_validate;
pub use unverified_token::spec_verify_with_key;
pub use unverified_token::validate_result_view;
pub use unverified_token::verify_result_view;
pub use unverified_token::DecodedParts;
pub use unverified_token::UnverifiedToken;
pub use unverified_token::UnverifiedTokenV;
