//! Message digests and their hexadecimal text.

use sha1::Digest;
use vstd::prelude::*;

verus! {

/// The SHA-1 digest of `data`.
pub uninterp spec fn sha1_of(data: Seq<u8>) -> Seq<u8>;

/// The SHA-256 digest of `data`.
pub uninterp spec fn sha256_of(data: Seq<u8>) -> Seq<u8>;

/// The hexadecimal digit for `d` (below sixteen), upper-case or lower-case.
pub open spec fn hex_digit(d: nat, upper: bool) -> char {
    if d < 10 {
        crate::text::digit_char(d)
    } else if upper {
        if d == 10 { 'A' } else if d == 11 { 'B' } else if d == 12 { 'C' }
        else if d == 13 { 'D' } else if d == 14 { 'E' } else { 'F' }
    } else {
        if d == 10 { 'a' } else if d == 11 { 'b' } else if d == 12 { 'c' }
        else if d == 13 { 'd' } else if d == 14 { 'e' } else { 'f' }
    }
}

/// Two hexadecimal digits per byte, high nibble first, in byte order.
pub open spec fn hex_text(b: Seq<u8>, upper: bool) -> Seq<char>
    decreases b.len(),
{
    if b.len() == 0 {
        seq![]
    } else {
        seq![hex_digit((b[0] / 16) as nat, upper), hex_digit((b[0] % 16) as nat, upper)]
            + hex_text(b.drop_first(), upper)
    }
}

/// Hex text has two digits per byte.
pub proof fn lemma_hex_text_len(b: Seq<u8>, upper: bool)
    ensures
        hex_text(b, upper).len() == 2 * b.len(),
    decreases b.len(),
{
    if b.len() > 0 {
        lemma_hex_text_len(b.drop_first(), upper);
    }
}

/// Relies on sha1::Sha1::digest: the digest depends on the input bytes alone
/// and is 20 bytes long.
#[verifier::external_body]
pub(crate) fn sha1_digest(data: &[u8]) -> (r: Vec<u8>)
    ensures
        r@ == sha1_of(data@),
        r@.len() == 20,
{
    sha1::Sha1::digest(data).to_vec()
}

/// Relies on sha2::Sha256::digest: the digest depends on the input bytes alone
/// and is 32 bytes long.
#[verifier::external_body]
pub(crate) fn sha256_digest(data: &[u8]) -> (r: Vec<u8>)
    ensures
        r@ == sha256_of(data@),
        r@.len() == 32,
{
    sha2::Sha256::digest(data).to_vec()
}

/// Relies on base16ct::upper::encode_string: two upper-case hex digits per
/// byte, high nibble first; it panics only past `usize::MAX / 2` bytes.
#[verifier::external_body]
pub(crate) fn upper_hex(b: &[u8]) -> (r: String)
    requires
        b@.len() <= usize::MAX / 2,
    ensures
        r@ == hex_text(b@, true),
{
    base16ct::upper::encode_string(b)
}

/// Relies on base16ct::lower::encode_string: two lower-case hex digits per
/// byte, high nibble first; it panics only past `usize::MAX / 2` bytes.
#[verifier::external_body]
pub(crate) fn lower_hex(b: &[u8]) -> (r: String)
    requires
        b@.len() <= usize::MAX / 2,
    ensures
        r@ == hex_text(b@, false),
{
    base16ct::lower::encode_string(b)
}

/// Lower-case hex text of the SHA-256 digest of `data`.
pub fn sha256_hex(data: &[u8]) -> (r: String)
    ensures
        r@ == hex_text(sha256_of(data@), false),
        r@.len() == 64,
{
    let d = sha256_digest(data);
    proof {
        lemma_hex_text_len(d@, false);
    }
    lower_hex(d.as_slice())
}

} // verus!
