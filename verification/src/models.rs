//! Common decoder data and the decoder contract: every decoder carries a set
//! of known short service codes and claims an identifier when one of its
//! codes, followed by a separator, occurs anywhere in the identifier string.
//! This is a deliberately loose containment test, not a structural
//! decomposition of the identifier format: it accommodates the common
//! "16-bit code embedded in 128-bit identifier" convention.

use vstd::prelude::*;

use crate::parsers::responses::Responses;

verus! {

/// The service code occurs in `id` at position `i`, followed by a `-`
/// separator.
pub open spec fn code_matches_at(id: Seq<char>, code: Seq<char>, i: int) -> bool {
    &&& 0 <= i
    &&& i + code.len() + 1 <= id.len()
    &&& id.subrange(i, i + code.len()) == code
    &&& id[i + code.len()] == '-'
}

/// The service code, followed by a separator, occurs anywhere in the
/// identifier string.
pub open spec fn code_matches(id: Seq<char>, code: Seq<char>) -> bool {
    exists|i: int| code_matches_at(id, code, i)
}

/// Some code of the set, followed by a separator, occurs in the identifier.
pub open spec fn claims_any(codes: Seq<Seq<char>>, id: Seq<char>) -> bool {
    exists|k: int| 0 <= k < codes.len() && code_matches(id, codes[k])
}

/// The identification a decoder matches on: a display name and the short
/// service codes it recognizes.
pub struct BleaParserBase {
    pub name: String,
    pub service_advertisement_ids: Vec<String>,
}

impl BleaParserBase {
    /// The decoder's service codes, as character sequences.
    pub open spec fn codes(&self) -> Seq<Seq<char>> {
        self.service_advertisement_ids@.map_values(|s: String| s@)
    }

    /// True exactly when one of the decoder's service codes, followed by a
    /// separator, occurs anywhere in the identifier.
    pub fn claims(&self, id: &str) -> (r: bool)
        ensures
            r == claims_any(self.codes(), id@),
    {
        let n_codes = self.service_advertisement_ids.len();
        let mut k: usize = 0;
        while k < n_codes
            invariant
                k <= n_codes,
                n_codes == self.service_advertisement_ids@.len(),
                forall|t: int| 0 <= t < k ==> !code_matches(id@, self.codes()[t]),
            decreases n_codes - k,
        {
            if code_occurs(id, self.service_advertisement_ids[k].as_str()) {
                proof {
                    assert(self.codes()[k as int] == self.service_advertisement_ids@[k as int]@);
                }
                return true;
            }
            k += 1;
        }
        false
    }
}

/// The characters of `code` stand in `id` starting at position `i`.
fn chars_match_at(id: &str, code: &str, i: usize) -> (r: bool)
    requires
        i + code@.len() <= id@.len(),
        id@.len() <= usize::MAX,
    ensures
        r == (id@.subrange(i as int, i + code@.len()) == code@),
{
    let m = code.unicode_len();
    let mut j: usize = 0;
    while j < m
        invariant
            j <= m,
            m == code@.len(),
            i + m <= id@.len(),
            id@.len() <= usize::MAX,
            forall|t: int| 0 <= t < j ==> id@[i + t] == code@[t],
        decreases m - j,
    {
        if id.get_char(i + j) != code.get_char(j) {
            proof {
                assert(id@.subrange(i as int, i + m)[j as int] != code@[j as int]);
            }
            return false;
        }
        j += 1;
    }
    proof {
        assert(id@.subrange(i as int, i + m) =~= code@);
    }
    true
}

/// True exactly when `code`, followed by a `-` separator, occurs anywhere in
/// `id`.
fn code_occurs(id: &str, code: &str) -> (r: bool)
    ensures
        r == code_matches(id@, code@),
{
    let n = id.unicode_len();
    let m = code.unicode_len();
    if n == 0 || m > n - 1 {
        return false;
    }
    let mut i: usize = 0;
    while i <= n - m - 1
        invariant
            m + 1 <= n,
            n == id@.len(),
            m == code@.len(),
            i <= n - m,
            forall|j: int| 0 <= j < i ==> !code_matches_at(id@, code@, j),
        decreases n - i,
    {
        if chars_match_at(id, code, i) {
            if id.get_char(i + m) == '-' {
                proof {
                    assert(code_matches_at(id@, code@, i as int));
                }
                return true;
            }
        }
        i += 1;
    }
    false
}

/// Law: a service code embedded anywhere in a longer identifier string,
/// followed by a separator, matches.
pub proof fn lemma_embedded_code_matches(pre: Seq<char>, code: Seq<char>, suf: Seq<char>)
    ensures
        code_matches(pre + code + seq!['-'] + suf, code),
{
    let id = pre + code + seq!['-'] + suf;
    assert(code_matches_at(id, code, pre.len() as int)) by {
        assert(id.subrange(pre.len() as int, (pre.len() + code.len()) as int) =~= code);
        assert(id[(pre.len() + code.len()) as int] == '-');
    }
}

/// A vendor-specific frame decoder: it can say whether it claims a service
/// identifier and it can decode a payload into a reading. Both answers are
/// pure functions of the decoder's configuration and the input.
pub trait Parser {
    /// Which identifiers this decoder claims.
    spec fn claims_spec(&self, id: Seq<char>) -> bool;

    /// What reading this decoder yields for a payload.
    spec fn decode_spec(&self, data: Seq<u8>) -> Responses;

    /// True exactly when the decoder claims the service identifier.
    fn is_parseable(&self, id: &str) -> (r: bool)
        ensures
            r == self.claims_spec(id@),
    ;

    /// Decodes the payload into a reading; undecodable payloads yield
    /// `Responses::Empty`, never a fault.
    fn parse(&self, data: &Vec<u8>) -> (r: Responses)
        ensures
            r == self.decode_spec(data@),
    ;
}

} // verus!
