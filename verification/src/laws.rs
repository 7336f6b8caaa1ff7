use vstd::prelude::*;

use crate::algorithm::Algorithm;
use crate::compact::lemma_next_dot_bounds;
use crate::compact::next_dot;
use crate::error::Error;
use crate::error::ErrorV;
use crate::jwk::rsa_sha256_check;
use crate::jwk::JsonWebKeyV;
use crate::token::IdPayload;
use crate::token::IdPayloadV;
use crate::token::TokenV;
use crate::unverified_token::spec_decode;
use crate::unverified_token::spec_validate;
use crate::unverified_token::spec_verify_with_key;
use crate::unverified_token::validate_result_view;
use crate::unverified_token::UnverifiedToken;
use crate::unverified_token::UnverifiedTokenV;

verus! {

/// A string with no dot yields no payload segment, and one whose first dot
/// is its last yields no signature segment; validation fails accordingly.
/// The header segment always exists, possibly empty, so a missing header is
/// never reported.
pub proof fn lemma_missing_segments(
    s: Seq<char>,
    check_expiration: bool,
    client_id: Seq<char>,
    now: u64,
)
    ensures
        next_dot(s, 0) == s.len() ==> spec_validate(s, check_expiration, client_id, now) == Err::<
            UnverifiedTokenV<IdPayloadV>,
            ErrorV,
        >(ErrorV::NoPayload),
        next_dot(s, 0) < s.len() && next_dot(s, next_dot(s, 0) + 1) == s.len() ==> spec_validate(
            s,
            check_expiration,
            client_id,
            now,
        ) == Err::<UnverifiedTokenV<IdPayloadV>, ErrorV>(ErrorV::NoSignature),
{
    lemma_next_dot_bounds(s, 0);
}

/// Whenever a token decodes structurally but its audience claim differs from
/// the expected client identity, validation fails with exactly those two
/// values, whatever the time and the expiry-enforcement flag.
pub proof fn lemma_audience_mismatch(
    s: Seq<char>,
    check_expiration: bool,
    client_id: Seq<char>,
    now: u64,
)
    requires
        spec_decode(s) is Ok,
        spec_decode(s)->Ok_0.claims.audience != client_id,
    ensures
        spec_validate(s, check_expiration, client_id, now) == Err::<
            UnverifiedTokenV<IdPayloadV>,
            ErrorV,
        >(
            (ErrorV::AudienceDoesNotMeetClientId {
                audience: spec_decode(s)->Ok_0.claims.audience,
                client_id,
            }),
        ),
{
}

/// Whenever a token decodes structurally, meets the audience check, and
/// names an issuer that is neither accepted spelling of the provider,
/// validation fails carrying the offending issuer.
pub proof fn lemma_inappropriate_issuer(
    s: Seq<char>,
    check_expiration: bool,
    client_id: Seq<char>,
    now: u64,
)
    requires
        spec_decode(s) is Ok,
        spec_decode(s)->Ok_0.claims.audience == client_id,
        spec_decode(s)->Ok_0.claims.issuer != "https://accounts.google.com"@,
        spec_decode(s)->Ok_0.claims.issuer != "accounts.google.com"@,
    ensures
        spec_validate(s, check_expiration, client_id, now) == Err::<
            UnverifiedTokenV<IdPayloadV>,
            ErrorV,
        >(ErrorV::InappropriateIssuer(spec_decode(s)->Ok_0.claims.issuer)),
{
}

/// Validation has no hidden state: two results of validating the same string
/// with the same arguments at the same time have equal values.
pub proof fn lemma_validate_deterministic(
    r1: Result<UnverifiedToken<IdPayload>, Error>,
    r2: Result<UnverifiedToken<IdPayload>, Error>,
    s: Seq<char>,
    check_expiration: bool,
    client_id: Seq<char>,
    now: u64,
)
    requires
        validate_result_view(r1) == spec_validate(s, check_expiration, client_id, now),
        validate_result_view(r2) == spec_validate(s, check_expiration, client_id, now),
    ensures
        validate_result_view(r1) == validate_result_view(r2),
{
}

/// The issued-before-expiry sanity check cannot be bypassed by disabling
/// expiry enforcement: a structurally valid token that meets the audience
/// and issuer checks but claims to have been issued after its own expiry is
/// rejected even with enforcement off.
pub proof fn lemma_issued_after_expiry_rejected(s: Seq<char>, client_id: Seq<char>, now: u64)
    requires
        spec_decode(s) is Ok,
        spec_decode(s)->Ok_0.claims.audience == client_id,
        spec_decode(s)->Ok_0.claims.issuer == "https://accounts.google.com"@ || spec_decode(
            s,
        )->Ok_0.claims.issuer == "accounts.google.com"@,
        spec_decode(s)->Ok_0.claims.issued_at > spec_decode(s)->Ok_0.claims.expires_at,
    ensures
        spec_validate(s, false, client_id, now) == Err::<UnverifiedTokenV<IdPayloadV>, ErrorV>(
            (ErrorV::ExpiredIssued {
                issued_at: spec_decode(s)->Ok_0.claims.issued_at,
                expires_at: spec_decode(s)->Ok_0.claims.expires_at,
            }),
        ),
{
}

/// With expiry enforcement off, validation does not read the clock at all:
/// its outcome is the same at any two times. Together with determinism this
/// makes wall-clock validation in that mode a pure function of its inputs.
pub proof fn lemma_no_expiry_check_is_time_independent(
    s: Seq<char>,
    client_id: Seq<char>,
    now1: u64,
    now2: u64,
)
    ensures
        spec_validate(s, false, client_id, now1) == spec_validate(s, false, client_id, now2),
{
}

/// An unknown key and a failed retrieval stay distinguishable end to end:
/// the one verification outcome is `NoKey`, the other wraps the provider's
/// cause.
pub proof fn lemma_key_outcomes_distinguished<PV>(t: UnverifiedTokenV<PV>, cause: Seq<char>)
    ensures
        spec_verify_with_key(t, Ok::<Option<JsonWebKeyV>, Seq<char>>(None)) == Err::<
            TokenV<PV>,
            ErrorV,
        >(ErrorV::NoKey),
        spec_verify_with_key(t, Err::<Option<JsonWebKeyV>, Seq<char>>(cause)) == Err::<
            TokenV<PV>,
            ErrorV,
        >(ErrorV::RetrieveKeyFailure(cause)),
{
}

/// A verified token arises only when the provider returned a key of the
/// supported algorithm whose RSA SHA-256 check accepted the verbatim signed
/// bytes, and it carries the unverified token's claims and payload
/// unchanged.
pub proof fn lemma_token_only_on_signature<PV>(
    t: UnverifiedTokenV<PV>,
    key: Result<Option<JsonWebKeyV>, Seq<char>>,
)
    ensures
        spec_verify_with_key(t, key) matches Ok(tok) ==> ({
            &&& key matches Ok(Some(k))
            &&& k.algorithm == Algorithm::Rs256
            &&& rsa_sha256_check(
                k.modulus,
                k.exponent,
                vstd::utf8::encode_utf8(t.signed_body),
                t.signature,
            ) == Some(true)
            &&& tok.claims == t.claims
            &&& tok.payload == t.payload
        }),
{
}

} // verus!
