//! Public addresses as lowercase hexadecimal text.
use vstd::prelude::*;

use vstd::string::StringExecFns;

verus! {

/// The lowercase hexadecimal digit for a value below 16.
pub open spec fn hex_digit(n: int) -> char {
    if n < 10 {
        (n + 48) as char
    } else {
        (n + 87) as char
    }
}

/// Two lowercase hexadecimal digits for each byte, high nibble first.
pub open spec fn hex_of(b: Seq<u8>) -> Seq<char>
    decreases b.len(),
{
    if b.len() == 0 {
        Seq::empty()
    } else {
        hex_of(b.drop_last()) + seq![hex_digit(b.last() as int / 16), hex_digit(b.last() as int % 16)]
    }
}

/// The text of an address: `0x` followed by its bytes in hexadecimal.
pub open spec fn address_text(b: Seq<u8>) -> Seq<char> {
    seq!['0', 'x'] + hex_of(b)
}

/// The length of `hex_of(b)`.
pub proof fn lemma_hex_len(b: Seq<u8>)
    ensures
        hex_of(b).len() == 2 * b.len(),
    decreases b.len(),
{
    if b.len() > 0 {
        lemma_hex_len(b.drop_last());
    }
}

/// Relies on hex::encode: two lowercase digits for each byte, in order.
#[verifier::external_body]
pub(crate) fn hex_encode(b: &[u8]) -> (r: String)
    ensures
        r@ == hex_of(b@),
{
    hex::encode(b)
}

/// Render an address as `0x` followed by its bytes in lowercase hexadecimal.
pub fn format_address(address: &[u8]) -> (r: String)
    ensures
        r@ == address_text(address@),
{
    let digits = hex_encode(address);
    let mut text = String::from_str("0x");
    text.append(digits.as_str());
    proof {
        reveal_strlit("0x");
    }
    assert(text@ =~= address_text(address@));
    text
}

} // verus!
