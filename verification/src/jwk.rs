use vstd::prelude::*;
use vstd::string::StringExecFns;

use openssl::bn::BigNum;
use openssl::error::ErrorStack;
use openssl::hash::MessageDigest;
use openssl::pkey::PKey;
use openssl::rsa::Rsa;
use openssl::sign::Verifier;

use crate::algorithm::Algorithm;
use crate::error::unit_result_view;
use crate::error::Error;
use crate::error::ErrorV;

verus! {

/// RSA public-key material addressed by a key identifier. The modulus and
/// exponent are held as big-endian bytes.
pub struct JsonWebKey {
    pub(crate) key_id: String,
    pub(crate) algorithm: Algorithm,
    pub(crate) modulus: Vec<u8>,
    pub(crate) exponent: Vec<u8>,
}

/// The mathematical value of a `JsonWebKey`.
pub ghost struct JsonWebKeyV {
    pub key_id: Seq<char>,
    pub algorithm: Algorithm,
    pub modulus: Seq<u8>,
    pub exponent: Seq<u8>,
}

impl View for JsonWebKey {
    type V = JsonWebKeyV;

    closed spec fn view(&self) -> JsonWebKeyV {
        JsonWebKeyV {
            key_id: self.key_id@,
            algorithm: self.algorithm,
            modulus: self.modulus@,
            exponent: self.exponent@,
        }
    }
}

/// Whether RSA PKCS#1 v1.5 verification with SHA-256 accepts `signature`
/// for `message` under the public key `(modulus, exponent)`: `None` when the
/// key material cannot be used at all. Depends on the arguments alone.
pub uninterp spec fn rsa_sha256_check(
    modulus: Seq<u8>,
    exponent: Seq<u8>,
    message: Seq<u8>,
    signature: Seq<u8>,
) -> Option<bool>;

/// Relies on openssl: BigNum::from_slice, Rsa::from_public_components,
/// PKey::from_rsa, and Verifier with the SHA-256 digest. Whether a signature
/// verifies is a function of key material, message and signature alone; the
/// error text is openssl's.
#[verifier::external_body]
fn rsa_sha256_verify(
    modulus: &Vec<u8>,
    exponent: &Vec<u8>,
    message: &[u8],
    signature: &[u8],
) -> (r: Result<bool, String>)
    ensures
        r is Ok <==> rsa_sha256_check(modulus@, exponent@, message@, signature@) is Some,
        r matches Ok(b) ==> rsa_sha256_check(modulus@, exponent@, message@, signature@) == Some(b),
{
    let err = |e: ErrorStack| e.to_string();
    let n = BigNum::from_slice(modulus).map_err(err)?;
    let e = BigNum::from_slice(exponent).map_err(err)?;
    let rsa = Rsa::from_public_components(n, e).map_err(err)?;
    let pkey = PKey::from_rsa(rsa).map_err(err)?;
    let mut verifier = Verifier::new(MessageDigest::sha256(), &pkey).map_err(err)?;
    verifier.update(message).map_err(err)?;
    verifier.verify(signature).map_err(err)
}

/// The outcome of asking this key to verify `signature` over `message`:
/// a cryptographic rejection and unusable key material both surface as a
/// crypto failure, and a key of an unsupported algorithm is refused as such.
pub open spec fn spec_key_verify(k: JsonWebKeyV, message: Seq<u8>, signature: Seq<u8>) -> Result<
    (),
    ErrorV,
> {
    match k.algorithm {
        Algorithm::Rs256 => match rsa_sha256_check(k.modulus, k.exponent, message, signature) {
            Some(true) => Ok(()),
            Some(false) => Err(ErrorV::CryptoFailure),
            None => Err(ErrorV::CryptoFailure),
        },
        Algorithm::Es256 => Err(ErrorV::UnsupportedAlgorithm(Algorithm::Es256)),
    }
}

impl JsonWebKey {
    /// Builds key material from its identifier, algorithm, and the RSA
    /// public components as big-endian bytes.
    pub fn new(key_id: String, algorithm: Algorithm, modulus: Vec<u8>, exponent: Vec<u8>) -> (r:
        JsonWebKey)
        ensures
            r@.key_id == key_id@,
            r@.algorithm == algorithm,
            r@.modulus == modulus@,
            r@.exponent == exponent@,
    {
        JsonWebKey { key_id, algorithm, modulus, exponent }
    }

    pub fn get_key_id(&self) -> (r: String)
        ensures
            r@ == self@.key_id,
    {
        self.key_id.clone()
    }

    /// Checks `signature` over `message` under this key.
    pub fn verify(&self, message: &[u8], signature: &[u8]) -> (r: Result<(), Error>)
        ensures
            unit_result_view(r) == spec_key_verify(self@, message@, signature@),
    {
        match self.algorithm {
            Algorithm::Rs256 => {
                match rsa_sha256_verify(&self.modulus, &self.exponent, message, signature) {
                    Ok(true) => Ok(()),
                    Ok(false) => Err(Error::CryptoFailure(String::from_str("the signature does not match"))),
                    Err(cause) => Err(Error::CryptoFailure(cause)),
                }
            },
            Algorithm::Es256 => Err(Error::UnsupportedAlgorithm(Algorithm::Es256)),
        }
    }
}

} // verus!
