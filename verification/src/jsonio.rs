use vstd::prelude::*;

use crate::token::IdPayload;
use crate::token::IdPayloadV;

verus! {

/// The raw string fields of a decoded header object. Absence is kept, so
/// that verified code decides which error a missing field raises.
pub struct RawHeader {
    pub alg: Option<String>,
    pub kid: Option<String>,
}

/// The mathematical value of a `RawHeader`.
pub ghost struct RawHeaderV {
    pub alg: Option<Seq<char>>,
    pub kid: Option<Seq<char>>,
}

impl View for RawHeader {
    type V = RawHeaderV;

    open spec fn view(&self) -> RawHeaderV {
        RawHeaderV { alg: self.alg.deep_view(), kid: self.kid.deep_view() }
    }
}

/// The raw fields of a decoded claims object, each absent when the document
/// lacks it or gives it the wrong type.
pub struct RawClaims {
    pub iss: Option<String>,
    pub sub: Option<String>,
    pub aud: Option<String>,
    pub azp: Option<String>,
    pub iat: Option<u64>,
    pub exp: Option<u64>,
}

/// The mathematical value of a `RawClaims`.
pub ghost struct RawClaimsV {
    pub iss: Option<Seq<char>>,
    pub sub: Option<Seq<char>>,
    pub aud: Option<Seq<char>>,
    pub azp: Option<Seq<char>>,
    pub iat: Option<u64>,
    pub exp: Option<u64>,
}

impl View for RawClaims {
    type V = RawClaimsV;

    open spec fn view(&self) -> RawClaimsV {
        RawClaimsV {
            iss: self.iss.deep_view(),
            sub: self.sub.deep_view(),
            aud: self.aud.deep_view(),
            azp: self.azp.deep_view(),
            iat: self.iat,
            exp: self.exp,
        }
    }
}

/// What JSON decoding reads out of header bytes: `None` when the bytes are
/// not a JSON document, else the "alg" and "kid" fields, each absent when
/// missing or not a string. Depends on the bytes alone.
pub uninterp spec fn json_header_of(bytes: Seq<u8>) -> Option<RawHeaderV>;

/// What JSON decoding reads out of claims bytes: `None` when the bytes are
/// not a JSON document, else the mandatory claim fields, each absent when
/// missing or of the wrong type. Depends on the bytes alone.
pub uninterp spec fn json_claims_of(bytes: Seq<u8>) -> Option<RawClaimsV>;

/// What JSON decoding reads out of the same claims bytes as the open,
/// caller-facing payload shape. Depends on the bytes alone.
pub uninterp spec fn json_id_payload_of(bytes: Seq<u8>) -> Option<IdPayloadV>;

/// Relies on serde_json::from_slice and serde_json::Value::{get, as_str} to
/// read the header object; the error text is the parse error's.
#[verifier::external_body]
pub(crate) fn parse_json_header(bytes: &Vec<u8>) -> (r: Result<RawHeader, String>)
    ensures
        r is Ok <==> json_header_of(bytes@) is Some,
        r matches Ok(h) ==> json_header_of(bytes@) == Some(h@),
{
    let v: serde_json::Value = serde_json::from_slice(bytes).map_err(|e| e.to_string())?;
    let s = |k| v.get(k).and_then(serde_json::Value::as_str).map(String::from);
    Ok(RawHeader { alg: s("alg"), kid: s("kid") })
}

/// Relies on serde_json::from_slice and serde_json::Value::{get, as_str,
/// as_u64} to read the mandatory claim fields; the error text is the parse
/// error's.
#[verifier::external_body]
pub(crate) fn parse_json_claims(bytes: &Vec<u8>) -> (r: Result<RawClaims, String>)
    ensures
        r is Ok <==> json_claims_of(bytes@) is Some,
        r matches Ok(c) ==> json_claims_of(bytes@) == Some(c@),
{
    let v: serde_json::Value = serde_json::from_slice(bytes).map_err(|e| e.to_string())?;
    let s = |k| v.get(k).and_then(serde_json::Value::as_str).map(String::from);
    let n = |k| v.get(k).and_then(serde_json::Value::as_u64);
    Ok(RawClaims { iss: s("iss"), sub: s("sub"), aud: s("aud"), azp: s("azp"), iat: n("iat"), exp: n("exp") })
}

/// Relies on serde_json::from_slice and serde_json::Value::{get, as_str,
/// as_u64, as_bool} to read the open payload shape; the error text is the
/// parse error's.
#[verifier::external_body]
pub(crate) fn parse_json_id_payload(bytes: &Vec<u8>) -> (r: Result<IdPayload, String>)
    ensures
        r is Ok <==> json_id_payload_of(bytes@) is Some,
        r matches Ok(p) ==> json_id_payload_of(bytes@) == Some(p@),
{
    let v: serde_json::Value = serde_json::from_slice(bytes).map_err(|e| e.to_string())?;
    let s = |k| v.get(k).and_then(serde_json::Value::as_str).map(String::from);
    let n = |k| v.get(k).and_then(serde_json::Value::as_u64);
    let b = |k| v.get(k).and_then(serde_json::Value::as_bool);
    Ok(IdPayload::from_parts(
        s("iss"), n("nbf"), s("aud"), s("sub"), s("hd"), s("email"), b("email_verified"),
        s("azp"), s("name"), s("picture"), s("given_name"), s("family_name"), n("iat"), n("exp"),
    ))
}

} // verus!
