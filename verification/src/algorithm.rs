use vstd::prelude::*;

verus! {

/// The closed set of signing algorithms a token header may name.
/// A header naming anything else fails to parse.
#[derive(Clone, Copy, Debug, PartialEq, Eq, Structural)]
pub enum Algorithm {
    Rs256,
    Es256,
}

/// The algorithm named by the header's "alg" string, if it is in the
/// supported set.
pub open spec fn spec_algorithm_of(name: Seq<char>) -> Option<Algorithm> {
    if name == "RS256"@ {
        Some(Algorithm::Rs256)
    } else if name == "ES256"@ {
        Some(Algorithm::Es256)
    } else {
        None
    }
}

impl Algorithm {
    /// Maps the wire spelling of an algorithm to its enum value.
    pub fn from_name(name: &str) -> (r: Option<Algorithm>)
        ensures
            r == spec_algorithm_of(name@),
    {
        if crate::strutil::str_eq(name, "RS256") {
            Some(Algorithm::Rs256)
        } else if crate::strutil::str_eq(name, "ES256") {
            Some(Algorithm::Es256)
        } else {
            None
        }
    }
}

} // verus!
