//! MAC-address rendering: a 6-byte hardware address taken from a payload is
//! shown in its reversed-byte lowercase hexadecimal form (least-significant
//! byte first, matching the on-air byte order reversal).

use vstd::prelude::*;

verus! {

/// The lowercase hexadecimal digit character for a nibble value.
pub open spec fn hex_digit(n: u8) -> char
    recommends
        n < 16,
{
    if n < 10 {
        ((n + 48) as u8) as char
    } else {
        ((n + 87) as u8) as char
    }
}

/// Lowercase hexadecimal rendering of a byte sequence: two digits per byte,
/// most significant nibble first.
pub open spec fn hex_of(s: Seq<u8>) -> Seq<char>
    decreases s.len(),
{
    if s.len() == 0 {
        Seq::empty()
    } else {
        seq![hex_digit(s[0] / 16), hex_digit(s[0] % 16)] + hex_of(s.drop_first())
    }
}

/// A character is one of the sixteen lowercase hexadecimal digits.
pub open spec fn is_lower_hex_char(c: char) -> bool {
    exists|n: u8| n < 16 && c == hex_digit(n)
}

/// Relies on hex::encode: lowercase hexadecimal, two digits per byte, most
/// significant nibble first.
#[verifier::external_body]
fn hex_encode(bytes: &Vec<u8>) -> (r: String)
    ensures
        r@ == hex_of(bytes@),
{
    hex::encode(bytes)
}

/// Renders the 6-byte MAC address found at `at` in the payload as its
/// reversed-byte lowercase hexadecimal form.
pub fn render_mac(data: &Vec<u8>, at: usize) -> (s: String)
    requires
        at + 6 <= data@.len(),
    ensures
        s@ == hex_of(data@.subrange(at as int, at + 6).reverse()),
{
    let n = data.len();
    let mut rev: Vec<u8> = Vec::new();
    let mut k: usize = 0;
    while k < 6
        invariant
            k <= 6,
            at + 6 <= n,
            n == data@.len(),
            rev@.len() == k,
            forall|j: int| 0 <= j < k ==> rev@[j] == data@[at + 5 - j],
        decreases 6 - k,
    {
        rev.push(data[at + 5 - k]);
        k += 1;
    }
    proof {
        assert(rev@ =~= data@.subrange(at as int, at + 6).reverse());
    }
    hex_encode(&rev)
}

/// Law: reversing a byte sequence twice gives back the original sequence.
pub proof fn lemma_reverse_involutive(s: Seq<u8>)
    ensures
        s.reverse().reverse() == s,
{
    assert(s.reverse().reverse() =~= s);
}

/// Law: the hexadecimal rendering of a byte sequence is exactly two
/// characters per byte, each a lowercase hexadecimal digit.
pub proof fn lemma_hex_of_shape(s: Seq<u8>)
    ensures
        hex_of(s).len() == 2 * s.len(),
        forall|i: int| 0 <= i < hex_of(s).len() ==> is_lower_hex_char(#[trigger] hex_of(s)[i]),
    decreases s.len(),
{
    if s.len() == 0 {
    } else {
        lemma_hex_of_shape(s.drop_first());
        assert forall|i: int| 0 <= i < hex_of(s).len() implies is_lower_hex_char(
            #[trigger] hex_of(s)[i],
        ) by {
            if i == 0 {
                let n = s[0] / 16;
                assert(n < 16 && hex_of(s)[0] == hex_digit(n));
            } else if i == 1 {
                let n = s[0] % 16;
                assert(n < 16 && hex_of(s)[1] == hex_digit(n));
            } else {
                assert(hex_of(s)[i] == hex_of(s.drop_first())[i - 2]);
            }
        }
    }
}

/// Law: a rendered MAC address is always 12 characters, each a lowercase
/// hexadecimal digit.
pub proof fn lemma_render_mac_shape(mac: Seq<u8>)
    requires
        mac.len() == 6,
    ensures
        hex_of(mac.reverse()).len() == 12,
        forall|i: int| 0 <= i < 12 ==> is_lower_hex_char(#[trigger] hex_of(mac.reverse())[i]),
{
    lemma_hex_of_shape(mac.reverse());
}

} // verus!
