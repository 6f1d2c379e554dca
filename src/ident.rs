use vstd::prelude::*;

verus! {

/// The lowercase hexadecimal digit for a nibble `n` in `0..16`.
pub open spec fn hex_digit(n: int) -> char {
    seq!['0', '1', '2', '3', '4', '5', '6', '7', '8', '9', 'a', 'b', 'c', 'd', 'e', 'f'][n]
}

/// Lowercase hexadecimal text of a byte string: two digits per byte, high nibble first.
pub open spec fn hex_of(b: Seq<u8>) -> Seq<char>
    decreases b.len(),
{
    if b.len() == 0 {
        Seq::empty()
    } else {
        let last = b.last() as int;
        hex_of(b.drop_last()) + seq![hex_digit(last / 16), hex_digit(last % 16)]
    }
}

/// The textual form of an on-chain identifier: `0x` followed by its hex digits.
pub open spec fn prefixed_hex_of(b: Seq<u8>) -> Seq<char> {
    seq!['0', 'x'] + hex_of(b)
}

/// Relies on hex::encode: each byte becomes two lowercase hex digits, high nibble
/// first, in the order of the bytes.
#[verifier::external_body]
fn encode_hex(b: &[u8]) -> (r: String)
    ensures
        r@ == hex_of(b@),
{
    hex::encode(b)
}

/// Renders a job id or an account address as `0x` followed by lowercase hex.
pub fn prefixed_hex(b: &[u8]) -> (r: String)
    ensures
        r@ == prefixed_hex_of(b@),
{
    let digits = encode_hex(b);
    let mut s = String::from_str("0x");
    proof {
        reveal_strlit("0x");
    }
    s.append(digits.as_str());
    s
}

} // verus!
