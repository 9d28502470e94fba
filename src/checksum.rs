//! Archive checksums: the lowercase hex form of an archive's SHA-256 digest.

use sha2::Digest;
use vstd::prelude::*;

verus! {

/// The SHA-256 digest of a byte sequence.
pub uninterp spec fn sha256_of(data: Seq<u8>) -> Seq<u8>;

/// The lowercase hexadecimal digit for a value below sixteen.
pub open spec fn hex_digit(n: u8) -> char {
    if n == 0 { '0' }
    else if n == 1 { '1' }
    else if n == 2 { '2' }
    else if n == 3 { '3' }
    else if n == 4 { '4' }
    else if n == 5 { '5' }
    else if n == 6 { '6' }
    else if n == 7 { '7' }
    else if n == 8 { '8' }
    else if n == 9 { '9' }
    else if n == 10 { 'a' }
    else if n == 11 { 'b' }
    else if n == 12 { 'c' }
    else if n == 13 { 'd' }
    else if n == 14 { 'e' }
    else { 'f' }
}

/// The value of a lowercase hexadecimal digit.
pub open spec fn hex_value(c: char) -> int {
    if c == '0' { 0 }
    else if c == '1' { 1 }
    else if c == '2' { 2 }
    else if c == '3' { 3 }
    else if c == '4' { 4 }
    else if c == '5' { 5 }
    else if c == '6' { 6 }
    else if c == '7' { 7 }
    else if c == '8' { 8 }
    else if c == '9' { 9 }
    else if c == 'a' { 10 }
    else if c == 'b' { 11 }
    else if c == 'c' { 12 }
    else if c == 'd' { 13 }
    else if c == 'e' { 14 }
    else { 15 }
}

/// Lowercase hex text of a byte sequence: two digits per byte, high nibble first.
pub open spec fn hex_lower(b: Seq<u8>) -> Seq<char> {
    Seq::new(
        2 * b.len(),
        |i: int| if i % 2 == 0 { hex_digit(b[i / 2] / 16) } else { hex_digit(b[i / 2] % 16) },
    )
}

/// The checksum recorded for an archive.
pub open spec fn checksum_of(archive: Seq<u8>) -> Seq<char> {
    hex_lower(sha256_of(archive))
}

/// Relies on `sha2::Sha256::digest`: the 32-byte SHA-256 digest of the input.
#[verifier::external_body]
fn sha256(data: &[u8]) -> (r: Vec<u8>)
    ensures
        r@ == sha256_of(data@),
        r@.len() == 32,
{
    sha2::Sha256::digest(data).to_vec()
}

/// Relies on `hex::encode`: each byte becomes two lowercase hex digits,
/// high nibble first.
#[verifier::external_body]
fn hex_encode(data: &[u8]) -> (r: String)
    ensures
        r@ == hex_lower(data@),
{
    hex::encode(data)
}

/// Lowercase hex text of a digest.
pub fn digest_hex(digest: &[u8]) -> (r: String)
    ensures
        r@ == hex_lower(digest@),
{
    hex_encode(digest)
}

/// The checksum of an archive: the lowercase hex SHA-256 digest of its bytes.
pub fn checksum(archive: &[u8]) -> (r: String)
    ensures
        r@ == checksum_of(archive@),
        r@.len() == 64,
{
    let d = sha256(archive);
    digest_hex(d.as_slice())
}

proof fn lemma_hex_digit_inverse(n: u8)
    requires
        n < 16,
    ensures
        hex_value(hex_digit(n)) == n,
{
}

/// Hex text determines the bytes it was made from.
pub proof fn lemma_hex_lower_injective(a: Seq<u8>, b: Seq<u8>)
    requires
        hex_lower(a) == hex_lower(b),
    ensures
        a == b,
{
    assert(hex_lower(a).len() == 2 * a.len());
    assert(hex_lower(b).len() == 2 * b.len());
    assert(a.len() == b.len());
    assert forall|k: int| 0 <= k < a.len() implies a[k] == b[k] by {
        assert((2 * k) / 2 == k && (2 * k) % 2 == 0);
        assert((2 * k + 1) / 2 == k && (2 * k + 1) % 2 == 1);
        assert(hex_lower(a)[2 * k] == hex_digit(a[k] / 16));
        assert(hex_lower(b)[2 * k] == hex_digit(b[k] / 16));
        assert(hex_lower(a)[2 * k + 1] == hex_digit(a[k] % 16));
        assert(hex_lower(b)[2 * k + 1] == hex_digit(b[k] % 16));
        lemma_hex_digit_inverse(a[k] / 16);
        lemma_hex_digit_inverse(b[k] / 16);
        lemma_hex_digit_inverse(a[k] % 16);
        lemma_hex_digit_inverse(b[k] % 16);
        assert(a[k] == 16 * (a[k] / 16) + a[k] % 16);
        assert(b[k] == 16 * (b[k] / 16) + b[k] % 16);
    }
    assert(a =~= b);
}

/// Checksums are a function of the archive bytes alone, and two archives get
/// the same checksum exactly when their SHA-256 digests agree.
pub proof fn lemma_checksum_tracks_digest(a: Seq<u8>, b: Seq<u8>)
    ensures
        a == b ==> checksum_of(a) == checksum_of(b),
        checksum_of(a) == checksum_of(b) <==> sha256_of(a) == sha256_of(b),
{
    if checksum_of(a) == checksum_of(b) {
        lemma_hex_lower_injective(sha256_of(a), sha256_of(b));
    }
}

} // verus!
