//! The parser registry: a fixed, ordered set of vendor decoders. An incoming
//! (service identifier, payload) pair is routed to every decoder that claims
//! the identifier; each claiming decoder contributes one reading. In
//! practice each payload matches at most one decoder, since vendor service
//! identifiers are disjoint, so no ordering guarantee is needed.

use vstd::prelude::*;

use crate::models::{claims_any, code_matches, Parser};
use crate::parsers::qingping;
use crate::parsers::responses::Responses;
use crate::parsers::xiaomi;

verus! {

/// The readings the registry yields: one from the Xiaomi decoder when it
/// claims the identifier, then one from the Qingping decoder when it does.
pub open spec fn spec_route(id: Seq<char>, data: Seq<u8>) -> Seq<Responses> {
    (if code_matches(id, "fe95"@) {
        seq![xiaomi::xiaomi_decode(data)]
    } else {
        Seq::<Responses>::empty()
    }) + (if code_matches(id, "fff9"@) || code_matches(id, "fdcd"@) {
        seq![qingping::qingping_decode(data)]
    } else {
        Seq::<Responses>::empty()
    })
}

/// Routes a (service identifier, payload) pair to every registered decoder
/// that claims the identifier and collects their readings. An identifier no
/// decoder claims yields zero readings, not an error.
pub fn route(id: &str, data: &Vec<u8>) -> (out: Vec<Responses>)
    ensures
        out@ == spec_route(id@, data@),
{
    let xp = xiaomi::get_parser();
    let qp = qingping::get_parser();
    let claims_x = xp.is_parseable(id);
    let claims_q = qp.is_parseable(id);
    proof {
        assert(claims_x == code_matches(id@, "fe95"@)) by {
            if claims_any(seq!["fe95"@], id@) {
                let k = choose|k: int|
                    0 <= k < seq!["fe95"@].len() && code_matches(id@, seq!["fe95"@][k]);
                assert(seq!["fe95"@][k] == "fe95"@);
            }
            if code_matches(id@, "fe95"@) {
                assert(code_matches(id@, seq!["fe95"@][0]));
            }
        }
        assert(claims_q == (code_matches(id@, "fff9"@) || code_matches(id@, "fdcd"@))) by {
            if claims_any(seq!["fff9"@, "fdcd"@], id@) {
                let k = choose|k: int|
                    0 <= k < seq!["fff9"@, "fdcd"@].len() && code_matches(
                        id@,
                        seq!["fff9"@, "fdcd"@][k],
                    );
                assert(k == 0 || k == 1);
            }
            if code_matches(id@, "fff9"@) {
                assert(code_matches(id@, seq!["fff9"@, "fdcd"@][0]));
            }
            if code_matches(id@, "fdcd"@) {
                assert(code_matches(id@, seq!["fff9"@, "fdcd"@][1]));
            }
        }
    }
    let mut out: Vec<Responses> = Vec::new();
    if claims_x {
        out.push(xp.parse(data));
    }
    if claims_q {
        out.push(qp.parse(data));
    }
    proof {
        assert(out@ =~= spec_route(id@, data@));
    }
    out
}

} // verus!
