//! SHA-256 digests and their hexadecimal rendering.

use vstd::prelude::*;
use vstd::string::StringSliceAdditionalSpecFns;
use crate::encoding::{lemma_clean_text_encodes_to_itself, percent_encode, SdzEncodeSet};

verus! {

/// The SHA-256 digest of a byte string.
pub uninterp spec fn sha256_digest(bytes: Seq<u8>) -> Seq<u8>;

/// The sixteen lower-case hexadecimal digits, by value.
pub open spec fn lower_hex_digits() -> Seq<char> {
    seq!['0', '1', '2', '3', '4', '5', '6', '7', '8', '9', 'a', 'b', 'c', 'd', 'e', 'f']
}

/// The two lower-case hexadecimal digits of one byte, high nibble first.
pub open spec fn hex_pair(b: u8) -> Seq<char> {
    seq![lower_hex_digits()[b as int / 16], lower_hex_digits()[b as int % 16]]
}

/// The lower-case hexadecimal rendering of a byte string.
pub open spec fn hex_lower(bytes: Seq<u8>) -> Seq<char>
    decreases bytes.len(),
{
    if bytes.len() == 0 {
        Seq::empty()
    } else {
        hex_lower(bytes.drop_last()) + hex_pair(bytes.last())
    }
}

/// `sha2::Sha256`, fed once and finalized: the bytes returned are the
/// SHA-256 digest of the input.
#[verifier::external_body]
fn sha256(input: &[u8]) -> (r: Vec<u8>)
    ensures
        r@ == sha256_digest(input@),
{
    let mut hasher = <sha2::Sha256 as sha2::Digest>::new();
    sha2::Digest::update(&mut hasher, input);
    sha2::Digest::finalize(hasher).to_vec()
}

/// `hex::encode`: two lower-case hexadecimal digits for each byte, in order.
#[verifier::external_body]
fn hex_encode(bytes: &[u8]) -> (r: String)
    ensures
        r@ == hex_lower(bytes@),
{
    hex::encode(bytes)
}

/// Renders bytes as lower-case hexadecimal text.
pub fn sdz_hex(bytes: &[u8]) -> (r: String)
    ensures
        r@ == hex_lower(bytes@),
{
    hex_encode(bytes)
}

/// The SHA-256 digest of the UTF-8 bytes of `input`, as lower-case
/// hexadecimal text.
pub fn sdz_sha256_hex(input: &str) -> (r: String)
    ensures
        r@ == hex_lower(sha256_digest(input.spec_bytes())),
{
    let digest = sha256(input.as_bytes());
    hex_encode(digest.as_slice())
}

/// A rendering has two characters for each byte.
pub proof fn lemma_hex_lower_len(bytes: Seq<u8>)
    ensures
        hex_lower(bytes).len() == 2 * bytes.len(),
    decreases bytes.len(),
{
    if bytes.len() > 0 {
        lemma_hex_lower_len(bytes.drop_last());
    }
}

/// Every character of a rendering is a lower-case hexadecimal digit.
pub proof fn lemma_hex_lower_digits(bytes: Seq<u8>, i: int)
    requires
        0 <= i < hex_lower(bytes).len(),
    ensures
        exists|k: int| 0 <= k < 16 && hex_lower(bytes)[i] == lower_hex_digits()[k],
    decreases bytes.len(),
{
    if bytes.len() > 0 {
        let head = hex_lower(bytes.drop_last());
        if i < head.len() {
            lemma_hex_lower_digits(bytes.drop_last(), i);
        } else {
            let b = bytes.last();
            let j = i - head.len();
            if j == 0 {
                assert(hex_lower(bytes)[i] == lower_hex_digits()[b as int / 16]);
            } else {
                assert(hex_lower(bytes)[i] == lower_hex_digits()[b as int % 16]);
            }
        }
    }
}

/// Hexadecimal text is safe in a URL as it stands: neither set changes it.
pub proof fn lemma_hex_text_needs_no_encoding(bytes: Seq<u8>, set: SdzEncodeSet)
    ensures
        percent_encode(hex_lower(bytes), set) == hex_lower(bytes),
{
    let s = hex_lower(bytes);
    assert forall|i: int| 0 <= i < s.len() implies !set.contains(#[trigger] s[i]) by {
        lemma_hex_lower_digits(bytes, i);
        let k = choose|k: int| 0 <= k < 16 && s[i] == lower_hex_digits()[k];
        assert(forall|k: int| 0 <= k < 16 ==> !set.contains(#[trigger] lower_hex_digits()[k]));
    }
    lemma_clean_text_encodes_to_itself(s, set);
}

} // verus!
