use vstd::prelude::*;
use vstd::string::StrSliceExecFns;
use vstd::string::StringExecFns;

use std::sync::Arc;
use std::sync::Mutex;

use crate::algorithm::spec_algorithm_of;
use crate::algorithm::Algorithm;
use crate::compact::base64_decode;
use crate::compact::decoded_b64;
use crate::compact::find_dot;
use crate::compact::next_dot;
use crate::error::unit_result_view;
use crate::error::Error;
use crate::error::ErrorV;
use crate::header::Header;
use crate::header::HeaderV;
use crate::jsonio::json_claims_of;
use crate::jsonio::json_header_of;
use crate::jsonio::json_id_payload_of;
use crate::jsonio::parse_json_claims;
use crate::jsonio::parse_json_header;
use crate::jsonio::parse_json_id_payload;
use crate::jwk::spec_key_verify;
use crate::jwk::JsonWebKey;
use crate::jwk::JsonWebKeyV;
use crate::key_provider::lock_and_get_key;
use crate::key_provider::KeyProvider;
use crate::strutil::str_eq;
use crate::token::IdPayload;
use crate::token::IdPayloadV;
use crate::token::RequiredClaims;
use crate::token::RequiredClaimsV;
use crate::token::Token;
use crate::token::TokenV;

verus! {

/// A syntactically well-formed, claim-checked, but cryptographically
/// unverified token. Created only by `validate`/`validate_at`; consumed
/// exactly once by `verify` or `verify_with_key`.
pub struct UnverifiedToken<P> {
    pub(crate) header: Header,
    pub(crate) signed_body: String,
    pub(crate) signature: Vec<u8>,
    pub(crate) claims: RequiredClaims,
    pub(crate) json_payload: P,
}

/// The mathematical value of an `UnverifiedToken`.
pub ghost struct UnverifiedTokenV<PV> {
    pub header: HeaderV,
    pub signed_body: Seq<char>,
    pub signature: Seq<u8>,
    pub claims: RequiredClaimsV,
    pub payload: PV,
}

impl<P: View> View for UnverifiedToken<P> {
    type V = UnverifiedTokenV<P::V>;

    closed spec fn view(&self) -> UnverifiedTokenV<P::V> {
        UnverifiedTokenV {
            header: self.header@,
            signed_body: self.signed_body@,
            signature: self.signature@,
            claims: self.claims@,
            payload: self.json_payload@,
        }
    }
}

/// The structure drawn from a token string before any claim check: the
/// header, the verbatim signed byte range, the decoded signature, the
/// payload segment's decoded bytes, and the mandatory claims read from them.
pub ghost struct DecodedParts {
    pub header: HeaderV,
    pub signed_body: Seq<char>,
    pub signature: Seq<u8>,
    pub payload_bytes: Seq<u8>,
    pub claims: RequiredClaimsV,
}

/// Structural decoding of the compact token format: split on dots into
/// exactly three segments (segments past the third are ignored), base64url
/// decoding of all three segments, then JSON decoding of header and claims,
/// and retention of the verbatim signed byte range. No base64 step may run
/// after a JSON step; the first failing step names the error.
pub open spec fn spec_decode(s: Seq<char>) -> Result<DecodedParts, ErrorV> {
    let d1 = next_dot(s, 0);
    if d1 == s.len() {
        Err(ErrorV::NoPayload)
    } else {
        let d2 = next_dot(s, d1 + 1);
        if d2 == s.len() {
            Err(ErrorV::NoSignature)
        } else {
            let d3 = next_dot(s, d2 + 1);
            match decoded_b64(s.subrange(0, d1)) {
                None => Err(ErrorV::Decode),
                Some(header_bytes) => match decoded_b64(s.subrange(d1 + 1, d2)) {
                    None => Err(ErrorV::Decode),
                    Some(payload_bytes) => match decoded_b64(s.subrange(d2 + 1, d3)) {
                        None => Err(ErrorV::Decode),
                        Some(signature) => match json_header_of(header_bytes) {
                            None => Err(ErrorV::Parse),
                            Some(rh) => if rh.alg is None || rh.kid is None {
                                Err(ErrorV::Parse)
                            } else {
                                match spec_algorithm_of(rh.alg->Some_0) {
                                    None => Err(ErrorV::Parse),
                                    Some(algorithm) => match json_claims_of(payload_bytes) {
                                        None => Err(ErrorV::Parse),
                                        Some(rc) => if rc.iss is None || rc.sub is None
                                            || rc.aud is None || rc.azp is None || rc.iat is None
                                            || rc.exp is None {
                                            Err(ErrorV::Parse)
                                        } else {
                                            Ok(DecodedParts {
                                                header: HeaderV {
                                                    algorithm,
                                                    key_id: rh.kid->Some_0,
                                                },
                                                signed_body: s.subrange(0, d2),
                                                signature,
                                                payload_bytes,
                                                claims: RequiredClaimsV {
                                                    issuer: rc.iss->Some_0,
                                                    subject: rc.sub->Some_0,
                                                    audience: rc.aud->Some_0,
                                                    android_audience: rc.azp->Some_0,
                                                    issued_at: rc.iat->Some_0,
                                                    expires_at: rc.exp->Some_0,
                                                },
                                            })
                                        },
                                    },
                                }
                            },
                        },
                    },
                },
            }
        }
    }
}

/// The first failing mandatory-claim check, in the fixed order audience,
/// issuer, expiry (only when enforcement is on), issued-before-expiry; or
/// `None` when all pass.
pub open spec fn spec_check_claims(
    claims: RequiredClaimsV,
    check_expiration: bool,
    client_id: Seq<char>,
    now: u64,
) -> Option<ErrorV> {
    if claims.audience != client_id {
        Some(ErrorV::AudienceDoesNotMeetClientId { audience: claims.audience, client_id })
    } else if claims.issuer != "https://accounts.google.com"@ && claims.issuer
        != "accounts.google.com"@ {
        Some(ErrorV::InappropriateIssuer(claims.issuer))
    } else if check_expiration && claims.expires_at < now {
        Some(ErrorV::Expired { current: now, expires_at: claims.expires_at })
    } else if claims.issued_at > claims.expires_at {
        Some(ErrorV::ExpiredIssued { issued_at: claims.issued_at, expires_at: claims.expires_at })
    } else {
        None
    }
}

/// The whole validation pipeline at a given wall-clock time: structural
/// decoding, the claim checks, and the decoding of the open payload shape
/// from the same claim bytes.
pub open spec fn spec_validate(
    s: Seq<char>,
    check_expiration: bool,
    client_id: Seq<char>,
    now: u64,
) -> Result<UnverifiedTokenV<IdPayloadV>, ErrorV> {
    match spec_decode(s) {
        Err(e) => Err(e),
        Ok(parts) => match spec_check_claims(parts.claims, check_expiration, client_id, now) {
            Some(e) => Err(e),
            None => match json_id_payload_of(parts.payload_bytes) {
                None => Err(ErrorV::Parse),
                Some(payload) => Ok(UnverifiedTokenV {
                    header: parts.header,
                    signed_body: parts.signed_body,
                    signature: parts.signature,
                    claims: parts.claims,
                    payload,
                }),
            },
        },
    }
}

/// The view of a validation result.
pub open spec fn validate_result_view(r: Result<UnverifiedToken<IdPayload>, Error>) -> Result<
    UnverifiedTokenV<IdPayloadV>,
    ErrorV,
> {
    match r {
        Ok(t) => Ok(t@),
        Err(e) => Err(e@),
    }
}

/// The outcome of the verification step, given what the key provider
/// returned for the token's key identifier.
pub open spec fn spec_verify_with_key<PV>(
    t: UnverifiedTokenV<PV>,
    key: Result<Option<JsonWebKeyV>, Seq<char>>,
) -> Result<TokenV<PV>, ErrorV> {
    match key {
        Err(cause) => Err(ErrorV::RetrieveKeyFailure(cause)),
        Ok(None) => Err(ErrorV::NoKey),
        Ok(Some(k)) => match spec_key_verify(
            k,
            vstd::utf8::encode_utf8(t.signed_body),
            t.signature,
        ) {
            Ok(()) => Ok(TokenV { claims: t.claims, payload: t.payload }),
            Err(e) => Err(e),
        },
    }
}

/// The view of a verification result.
pub open spec fn verify_result_view<P: View>(r: Result<Token<P>, Error>) -> Result<
    TokenV<P::V>,
    ErrorV,
> {
    match r {
        Ok(t) => Ok(t@),
        Err(e) => Err(e@),
    }
}

/// The view of what a key provider returned.
pub open spec fn key_result_view(key: Result<Option<JsonWebKey>, String>) -> Result<
    Option<JsonWebKeyV>,
    Seq<char>,
> {
    match key {
        Ok(Some(k)) => Ok(Some(k@)),
        Ok(None) => Ok(None),
        Err(cause) => Err(cause@),
    }
}

/// Relies on std::time::SystemTime::now for the seconds since the Unix
/// epoch; a clock before the epoch reads as zero.
#[verifier::external_body]
fn unix_now() -> u64 {
    match std::time::SystemTime::now().duration_since(std::time::UNIX_EPOCH) {
        Ok(d) => d.as_secs(),
        Err(_) => 0,
    }
}

impl UnverifiedToken<IdPayload> {
    /// Decodes the compact token string and checks the mandatory claims
    /// against `client_id` and the given wall-clock time (seconds since the
    /// Unix epoch).
    pub fn validate_at(
        token_string: &str,
        check_expiration: bool,
        client_id: &str,
        current_timestamp: u64,
    ) -> (r: Result<Self, Error>)
        ensures
            validate_result_view(r) == spec_validate(
                token_string@,
                check_expiration,
                client_id@,
                current_timestamp,
            ),
    {
        let len = token_string.unicode_len();
        let d1 = find_dot(token_string, 0);
        if d1 == len {
            return Err(Error::NoPayload);
        }
        let d2 = find_dot(token_string, d1 + 1);
        if d2 == len {
            return Err(Error::NoSignature);
        }
        let d3 = find_dot(token_string, d2 + 1);
        let encoded_header = token_string.substring_char(0, d1);
        let header_bytes = match base64_decode(encoded_header) {
            Ok(b) => b,
            Err(cause) => return Err(Error::Decode(cause)),
        };
        let encoded_payload = token_string.substring_char(d1 + 1, d2);
        let payload_bytes = match base64_decode(encoded_payload) {
            Ok(b) => b,
            Err(cause) => return Err(Error::Decode(cause)),
        };
        let encoded_signature = token_string.substring_char(d2 + 1, d3);
        let signature = match base64_decode(encoded_signature) {
            Ok(b) => b,
            Err(cause) => return Err(Error::Decode(cause)),
        };
        let raw_header = match parse_json_header(&header_bytes) {
            Ok(h) => h,
            Err(cause) => return Err(Error::Parse(cause)),
        };
        let alg_name = match raw_header.alg {
            Some(a) => a,
            None => return Err(Error::Parse(missing_field_text())),
        };
        let key_id = match raw_header.kid {
            Some(k) => k,
            None => return Err(Error::Parse(missing_field_text())),
        };
        let algorithm = match Algorithm::from_name(alg_name.as_str()) {
            Some(a) => a,
            None => return Err(Error::Parse(String::from_str("the algorithm is not supported"))),
        };
        let raw_claims = match parse_json_claims(&payload_bytes) {
            Ok(c) => c,
            Err(cause) => return Err(Error::Parse(cause)),
        };
        let issuer = match raw_claims.iss {
            Some(x) => x,
            None => return Err(Error::Parse(missing_field_text())),
        };
        let subject = match raw_claims.sub {
            Some(x) => x,
            None => return Err(Error::Parse(missing_field_text())),
        };
        let audience = match raw_claims.aud {
            Some(x) => x,
            None => return Err(Error::Parse(missing_field_text())),
        };
        let android_audience = match raw_claims.azp {
            Some(x) => x,
            None => return Err(Error::Parse(missing_field_text())),
        };
        let issued_at = match raw_claims.iat {
            Some(x) => x,
            None => return Err(Error::Parse(missing_field_text())),
        };
        let expires_at = match raw_claims.exp {
            Some(x) => x,
            None => return Err(Error::Parse(missing_field_text())),
        };
        let claims = RequiredClaims::new(
            issuer,
            subject,
            audience,
            android_audience,
            issued_at,
            expires_at,
        );
        if !str_eq(claims.get_audience().as_str(), client_id) {
            return Err(Error::AudienceDoesNotMeetClientId {
                audience: claims.get_audience(),
                client_id: client_id.to_owned(),
            });
        }
        let issuer_ok = str_eq(claims.get_issuer().as_str(), "https://accounts.google.com")
            || str_eq(claims.get_issuer().as_str(), "accounts.google.com");
        if !issuer_ok {
            return Err(Error::InappropriateIssuer(claims.get_issuer()));
        }
        if check_expiration && claims.get_expires_at() < current_timestamp {
            return Err(Error::Expired {
                current: current_timestamp,
                expires_at: claims.get_expires_at(),
            });
        }
        if claims.get_issued_at() > claims.get_expires_at() {
            return Err(Error::ExpiredIssued {
                issued_at: claims.get_issued_at(),
                expires_at: claims.get_expires_at(),
            });
        }
        let json_payload = match parse_json_id_payload(&payload_bytes) {
            Ok(p) => p,
            Err(cause) => return Err(Error::Parse(cause)),
        };
        let signed_body = String::from_str(token_string.substring_char(0, d2));
        Ok(UnverifiedToken {
            header: Header::new(algorithm, key_id),
            signed_body,
            signature,
            claims,
            json_payload,
        })
    }

    /// Decodes and claim-checks the token string at the current wall-clock
    /// time; the outcome is `validate_at` at some reading of the clock.
    pub fn validate(token_string: &str, check_expiration: bool, client_id: &str) -> (r: Result<
        Self,
        Error,
    >)
        ensures
            exists|now: u64|
                validate_result_view(r) == spec_validate(
                    token_string@,
                    check_expiration,
                    client_id@,
                    now,
                ),
    {
        let now = unix_now();
        let r = Self::validate_at(token_string, check_expiration, client_id, now);
        proof {
            assert(validate_result_view(r) == spec_validate(
                token_string@,
                check_expiration,
                client_id@,
                now,
            ));
        }
        r
    }
}

fn missing_field_text() -> (r: String) {
    String::from_str("a required field is missing or has the wrong type")
}

impl<P> UnverifiedToken<P> {
    /// The identifier of the key that the token's header names.
    pub fn get_key_id(&self) -> (r: String) where P: View
        ensures
            r@ == self@.header.key_id,
    {
        self.header.get_key_id()
    }

    /// Looks the token's key up through the shared, lock-guarded provider
    /// and finishes verification with whatever came back.
    pub fn verify<KP: KeyProvider>(self, key_provider: &Arc<Mutex<KP>>) -> (r: Result<
        Token<P>,
        Error,
    >) where P: View
        ensures
            exists|key: Result<Option<JsonWebKeyV>, Seq<char>>|
                verify_result_view(r) == spec_verify_with_key(self@, key),
    {
        let key_id = self.header.get_key_id();
        let key = lock_and_get_key(key_provider, key_id.as_str());
        let ghost key_v = key_result_view(key);
        let r = self.verify_with_key(key);
        proof {
            assert(verify_result_view(r) == spec_verify_with_key(self@, key_v));
        }
        r
    }

    /// Finishes verification, given what the key provider returned for the
    /// token's key identifier: retrieval failure and unknown key are kept
    /// apart, and a token is produced only when the signature checks out
    /// over the verbatim signed byte range.
    pub fn verify_with_key(self, key: Result<Option<JsonWebKey>, String>) -> (r: Result<
        Token<P>,
        Error,
    >) where P: View
        ensures
            verify_result_view(r) == spec_verify_with_key(self@, key_result_view(key)),
    {
        let key = match key {
            Ok(Some(key)) => key,
            Ok(None) => return Err(Error::NoKey),
            Err(cause) => return Err(Error::RetrieveKeyFailure(cause)),
        };
        match key.verify(self.signed_body.as_str().as_bytes(), self.signature.as_slice()) {
            Ok(()) => Ok(Token::new(self.claims, self.json_payload)),
            Err(e) => Err(e),
        }
    }
}

} // verus!
