use base64::Engine;

use id_token_verify::Error;
use id_token_verify::IdPayload;
use id_token_verify::UnverifiedToken;

fn b64(data: &[u8]) -> String {
    base64::engine::general_purpose::URL_SAFE_NO_PAD.encode(data)
}

fn token_string(header_json: &str, claims_json: &str, signature: &[u8]) -> String {
    format!(
        "{}.{}.{}",
        b64(header_json.as_bytes()),
        b64(claims_json.as_bytes()),
        b64(signature)
    )
}

fn good_header() -> &'static str {
    "{\"alg\":\"RS256\",\"kid\":\"key-1\"}"
}

fn claims_json(iss: &str, aud: &str, iat: u64, exp: u64) -> String {
    format!(
        "{{\"iss\":\"{}\",\"sub\":\"subject-1\",\"aud\":\"{}\",\"azp\":\"{}\",\"iat\":{},\"exp\":{},\"email\":\"user@example.com\"}}",
        iss, aud, aud, iat, exp
    )
}

fn validate_at(s: &str, check_expiration: bool, client_id: &str, now: u64) -> Result<UnverifiedToken<IdPayload>, Error> {
    UnverifiedToken::<IdPayload>::validate_at(s, check_expiration, client_id, now)
}

#[test]
fn no_dot_means_no_payload() {
    let r = validate_at("justoneblob", true, "client-1", 1500);
    assert!(matches!(r, Err(Error::NoPayload)));
}

#[test]
fn empty_string_means_no_payload() {
    let r = validate_at("", true, "client-1", 1500);
    assert!(matches!(r, Err(Error::NoPayload)));
}

#[test]
fn one_dot_means_no_signature() {
    let r = validate_at("aGVhZGVy.cGF5bG9hZA", true, "client-1", 1500);
    assert!(matches!(r, Err(Error::NoSignature)));
}

#[test]
fn trailing_dot_means_empty_signature_segment_not_missing() {
    // two dots: the signature segment exists but is empty, so decoding gets
    // past the segment count and fails later (empty base64 decodes to empty
    // bytes; the header here is not base64).
    let r = validate_at("!!.cGF5bG9hZA.", true, "client-1", 1500);
    assert!(matches!(r, Err(Error::Decode(_))));
}

#[test]
fn invalid_base64_header_is_decode_error() {
    let s = format!("!!!.{}.{}", b64(b"payload"), b64(b"sig"));
    let r = validate_at(&s, true, "client-1", 1500);
    assert!(matches!(r, Err(Error::Decode(_))));
}

#[test]
fn non_json_header_is_parse_error() {
    let s = format!("{}.{}.{}", b64(b"not json"), b64(b"payload"), b64(b"sig"));
    let r = validate_at(&s, true, "client-1", 1500);
    assert!(matches!(r, Err(Error::Parse(_))));
}

#[test]
fn unknown_algorithm_is_parse_error() {
    let s = token_string(
        "{\"alg\":\"none\",\"kid\":\"key-1\"}",
        &claims_json("accounts.google.com", "client-1", 1000, 2000),
        b"sig",
    );
    let r = validate_at(&s, true, "client-1", 1500);
    assert!(matches!(r, Err(Error::Parse(_))));
}

#[test]
fn missing_claim_field_is_parse_error() {
    // no "sub" field
    let s = token_string(
        good_header(),
        "{\"iss\":\"accounts.google.com\",\"aud\":\"client-1\",\"azp\":\"client-1\",\"iat\":1000,\"exp\":2000}",
        b"sig",
    );
    let r = validate_at(&s, true, "client-1", 1500);
    assert!(matches!(r, Err(Error::Parse(_))));
}

#[test]
fn audience_mismatch_carries_both_values() {
    let s = token_string(
        good_header(),
        &claims_json("accounts.google.com", "someone-else", 1000, 2000),
        b"sig",
    );
    let r = validate_at(&s, true, "client-1", 1500);
    match r {
        Err(Error::AudienceDoesNotMeetClientId { audience, client_id }) => {
            assert_eq!(audience, "someone-else");
            assert_eq!(client_id, "client-1");
        }
        other => panic!("expected an audience error, got {:?}", other.err()),
    }
}

#[test]
fn foreign_issuer_is_rejected_with_its_name() {
    let s = token_string(
        good_header(),
        &claims_json("https://issuer.example", "client-1", 1000, 2000),
        b"sig",
    );
    let r = validate_at(&s, true, "client-1", 1500);
    match r {
        Err(Error::InappropriateIssuer(issuer)) => assert_eq!(issuer, "https://issuer.example"),
        other => panic!("expected an issuer error, got {:?}", other.err()),
    }
}

#[test]
fn both_issuer_spellings_are_accepted() {
    for iss in ["accounts.google.com", "https://accounts.google.com"] {
        let s = token_string(good_header(), &claims_json(iss, "client-1", 1000, 2000), b"sig");
        let r = validate_at(&s, true, "client-1", 1500);
        assert!(r.is_ok(), "issuer {} should validate", iss);
    }
}

#[test]
fn expired_token_reports_both_times() {
    let s = token_string(
        good_header(),
        &claims_json("accounts.google.com", "client-1", 1000, 2000),
        b"sig",
    );
    let r = validate_at(&s, true, "client-1", 2500);
    match r {
        Err(Error::Expired { current, expires_at }) => {
            assert_eq!(current, 2500);
            assert_eq!(expires_at, 2000);
        }
        other => panic!("expected an expiry error, got {:?}", other.err()),
    }
}

#[test]
fn expiry_check_can_be_disabled() {
    let s = token_string(
        good_header(),
        &claims_json("accounts.google.com", "client-1", 1000, 2000),
        b"sig",
    );
    let r = validate_at(&s, false, "client-1", 2500);
    assert!(r.is_ok());
}

#[test]
fn issued_after_expiry_fails_even_without_expiry_check() {
    let s = token_string(
        good_header(),
        &claims_json("accounts.google.com", "client-1", 3000, 2000),
        b"sig",
    );
    let r = validate_at(&s, false, "client-1", 1500);
    match r {
        Err(Error::ExpiredIssued { issued_at, expires_at }) => {
            assert_eq!(issued_at, 3000);
            assert_eq!(expires_at, 2000);
        }
        other => panic!("expected an issued-after-expiry error, got {:?}", other.err()),
    }
}

#[test]
fn extra_segments_are_ignored() {
    let s = format!(
        "{}.extra.and-more",
        token_string(
            good_header(),
            &claims_json("accounts.google.com", "client-1", 1000, 2000),
            b"sig",
        )
    );
    let r = validate_at(&s, true, "client-1", 1500);
    assert!(r.is_ok());
}

#[test]
fn validation_is_repeatable() {
    let good = token_string(
        good_header(),
        &claims_json("accounts.google.com", "client-1", 1000, 2000),
        b"sig",
    );
    let r1 = validate_at(&good, true, "client-1", 1500).unwrap();
    let r2 = validate_at(&good, true, "client-1", 1500).unwrap();
    let t1 = r1.verify_with_key(Err("stop".to_string()));
    let t2 = r2.verify_with_key(Err("stop".to_string()));
    assert!(matches!(t1, Err(Error::RetrieveKeyFailure(_))));
    assert!(matches!(t2, Err(Error::RetrieveKeyFailure(_))));

    let bad = token_string(
        good_header(),
        &claims_json("accounts.google.com", "someone-else", 1000, 2000),
        b"sig",
    );
    let e1 = validate_at(&bad, true, "client-1", 1500);
    let e2 = validate_at(&bad, true, "client-1", 1500);
    match (e1, e2) {
        (
            Err(Error::AudienceDoesNotMeetClientId { audience: a1, client_id: c1 }),
            Err(Error::AudienceDoesNotMeetClientId { audience: a2, client_id: c2 }),
        ) => {
            assert_eq!(a1, a2);
            assert_eq!(c1, c2);
        }
        _ => panic!("both runs must fail the audience check alike"),
    }
}

#[test]
fn payload_fields_are_exposed() {
    let s = token_string(
        good_header(),
        &claims_json("accounts.google.com", "client-1", 1000, 2000),
        b"sig",
    );
    let t = validate_at(&s, true, "client-1", 1500).unwrap();
    assert_eq!(t.get_key_id(), "key-1");
}

#[test]
fn all_segments_are_base64_decoded_before_any_json_parsing() {
    // The header segment decodes to bytes that are not JSON, and the
    // signature segment is not valid base64: the segment decode runs first,
    // so the failure is a decode error, not a parse error.
    let s = format!("{}.{}.!!!", b64(b"not json"), b64(b"also not json"));
    let r = validate_at(&s, true, "client-1", 1500);
    assert!(matches!(r, Err(Error::Decode(_))));
}
