//! Base64 text of image bytes, as the web front end sends them.

use vstd::prelude::*;
use base64::Engine;

verus! {

/// Character of a 6-bit value in the standard base64 alphabet
/// (A-Z, a-z, 0-9, '+', '/').
pub open spec fn base64_digit(v: int) -> char {
    if v < 26 {
        (65 + v) as char
    } else if v < 52 {
        (97 + v - 26) as char
    } else if v < 62 {
        (48 + v - 52) as char
    } else if v == 62 {
        '+'
    } else {
        '/'
    }
}

/// Standard base64 with '=' padding (RFC 4648, section 4): every 3 bytes
/// become 4 characters; a final group of 1 or 2 bytes is padded to 4 with '='.
pub open spec fn base64_standard(b: Seq<u8>) -> Seq<char>
    decreases b.len(),
{
    let b0 = b[0] as int;
    let b1 = b[1] as int;
    let b2 = b[2] as int;
    if b.len() == 0 {
        Seq::empty()
    } else if b.len() == 1 {
        seq![base64_digit(b0 / 4), base64_digit((b0 % 4) * 16), '=', '=']
    } else if b.len() == 2 {
        seq![base64_digit(b0 / 4), base64_digit((b0 % 4) * 16 + b1 / 16), base64_digit((b1 % 16) * 4), '=']
    } else {
        seq![
            base64_digit(b0 / 4),
            base64_digit((b0 % 4) * 16 + b1 / 16),
            base64_digit((b1 % 16) * 4 + b2 / 64),
            base64_digit(b2 % 64),
        ] + base64_standard(b.skip(3))
    }
}

/// Length of the padded base64 text of `n` bytes.
pub open spec fn base64_len(n: nat) -> nat {
    ((n + 2) / 3) * 4
}

/// Whether the base64 text of `n` bytes has a length that fits in usize.
pub fn base64_fits(n: usize) -> (r: bool)
    ensures
        r == (base64_len(n as nat) <= usize::MAX),
{
    let groups: u128 = (n as u128 + 2) / 3;
    groups * 4 <= usize::MAX as u128
}

/// The padded base64 text of `n` bytes has `base64_len(n)` characters: four
/// for every started group of three bytes.
pub proof fn law_base64_length(b: Seq<u8>)
    ensures
        base64_standard(b).len() == base64_len(b.len()),
    decreases b.len(),
{
    if b.len() >= 3 {
        law_base64_length(b.skip(3));
        assert((b.len() + 2) / 3 == (b.len() - 3 + 2) / 3 + 1);
    }
}

/// Calls `base64::Engine::encode` on `base64::engine::general_purpose::STANDARD`
/// (standard alphabet, '=' padding). The contract claims the text is the
/// RFC 4648 encoding above. The call panics when the text length overflows
/// usize, which `requires` leaves out; that the buffer can be allocated is
/// not stated.
#[verifier::external_body]
pub(crate) fn encode_base64(bytes: &[u8]) -> (r: String)
    requires
        base64_len(bytes@.len()) <= usize::MAX,
    ensures
        r@ == base64_standard(bytes@),
{
    base64::engine::general_purpose::STANDARD.encode(bytes)
}

} // verus!
