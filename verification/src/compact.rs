use vstd::prelude::*;
use vstd::string::StrSliceExecFns;

use base64::Engine;

verus! {

/// The position of the first dot at or after `from`, or the length of `s`
/// when there is none.
pub open spec fn next_dot(s: Seq<char>, from: int) -> int
    decreases s.len() - from,
{
    if from < 0 || from >= s.len() {
        s.len() as int
    } else if s[from] == '.' {
        from
    } else {
        next_dot(s, from + 1)
    }
}

pub proof fn lemma_next_dot_bounds(s: Seq<char>, from: int)
    requires
        0 <= from <= s.len(),
    ensures
        from <= next_dot(s, from) <= s.len(),
        next_dot(s, from) < s.len() ==> s[next_dot(s, from)] == '.',
    decreases s.len() - from,
{
    if from < s.len() && s[from] != '.' {
        lemma_next_dot_bounds(s, from + 1);
    }
}

/// Finds the first dot at or after `from`, scanning character by character.
pub fn find_dot(s: &str, from: usize) -> (r: usize)
    requires
        from <= s@.len(),
    ensures
        r == next_dot(s@, from as int),
        from <= r <= s@.len(),
        r < s@.len() ==> s@[r as int] == '.',
{
    let len = s.unicode_len();
    let mut i: usize = from;
    while i < len
        invariant
            from <= i <= len,
            len == s@.len(),
            next_dot(s@, from as int) == next_dot(s@, i as int),
        decreases len - i,
    {
        if s.get_char(i) == '.' {
            proof {
                lemma_next_dot_bounds(s@, i as int);
            }
            return i;
        }
        i += 1;
    }
    proof {
        lemma_next_dot_bounds(s@, from as int);
    }
    len
}

/// What base64url decoding with the URL-safe alphabet and no padding yields
/// for a segment: `None` when the segment is not valid base64url. The result
/// depends on the characters alone.
pub uninterp spec fn decoded_b64(s: Seq<char>) -> Option<Seq<u8>>;

/// Relies on base64's `URL_SAFE_NO_PAD` engine to decode one segment; the
/// decoded bytes are a function of the segment alone, and the error text is
/// the decode error's.
#[verifier::external_body]
pub(crate) fn base64_decode(s: &str) -> (r: Result<Vec<u8>, String>)
    ensures
        r is Ok <==> decoded_b64(s@) is Some,
        r matches Ok(b) ==> decoded_b64(s@) == Some(b@),
{
    base64::engine::general_purpose::URL_SAFE_NO_PAD.decode(s).map_err(|e| e.to_string())
}

} // verus!
