use vstd::prelude::*;

use crate::algorithm::Algorithm;

verus! {

/// The decoded token header: which algorithm signed the token, and which
/// key did so, by identifier.
pub struct Header {
    pub(crate) algorithm: Algorithm,
    pub(crate) key_id: String,
}

/// The mathematical value of a `Header`.
pub ghost struct HeaderV {
    pub algorithm: Algorithm,
    pub key_id: Seq<char>,
}

impl View for Header {
    type V = HeaderV;

    closed spec fn view(&self) -> HeaderV {
        HeaderV { algorithm: self.algorithm, key_id: self.key_id@ }
    }
}

impl Header {
    pub(crate) fn new(algorithm: Algorithm, key_id: String) -> (r: Header)
        ensures
            r@.algorithm == algorithm,
            r@.key_id == key_id@,
    {
        Header { algorithm, key_id }
    }

    /// The identifier of the key that signed the token.
    pub fn get_key_id(&self) -> (r: String)
        ensures
            r@ == self@.key_id,
    {
        self.key_id.clone()
    }

    /// The algorithm the token names as having signed it.
    pub fn get_algorithm(&self) -> (r: Algorithm)
        ensures
            r == self@.algorithm,
    {
        self.algorithm
    }
}

} // verus!
