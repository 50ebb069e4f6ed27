//! Content hashes: the store's strong hash (SHA-512) and the manifests' weak
//! hash (SHA-1), both written as lowercase hexadecimal.
use vstd::prelude::*;
use sha1::Digest as Sha1Digest;
use sha2::Digest as Sha2Digest;

verus! {

/// The SHA-512 digest of some bytes.
pub uninterp spec fn sha512_of(data: Seq<u8>) -> Seq<u8>;

/// The SHA-1 digest of some bytes.
pub uninterp spec fn sha1_of(data: Seq<u8>) -> Seq<u8>;

/// The lowercase hexadecimal digit of a value below sixteen.
pub open spec fn hex_digit(d: int) -> char {
    "0123456789abcdef"@[d]
}

/// Lowercase hexadecimal: two digits for each byte, the high one first.
pub open spec fn hex_lower(b: Seq<u8>) -> Seq<char>
    decreases b.len(),
{
    if b.len() == 0 {
        Seq::empty()
    } else {
        seq![hex_digit(b[0] as int / 16), hex_digit(b[0] as int % 16)] + hex_lower(b.drop_first())
    }
}

/// The store's hash of some content.
pub open spec fn strong_hash(data: Seq<u8>) -> Seq<char> {
    hex_lower(sha512_of(data))
}

/// The manifests' hash of some content.
pub open spec fn weak_hash(data: Seq<u8>) -> Seq<char> {
    hex_lower(sha1_of(data))
}

/// Relies on sha2::Sha512::digest: the 64-byte SHA-512 digest of the data.
#[verifier::external_body]
fn sha512_digest(data: &[u8]) -> (r: Vec<u8>)
    ensures
        r@ == sha512_of(data@),
        r@.len() == 64,
{
    <sha2::Sha512 as Sha2Digest>::digest(data).to_vec()
}

/// Relies on sha1::Sha1::digest: the 20-byte SHA-1 digest of the data.
#[verifier::external_body]
fn sha1_digest(data: &[u8]) -> (r: Vec<u8>)
    ensures
        r@ == sha1_of(data@),
        r@.len() == 20,
{
    <sha1::Sha1 as Sha1Digest>::digest(data).to_vec()
}

/// Relies on data_encoding::HEXLOWER's encode: two lowercase hexadecimal
/// digits for each byte, the high one first.
#[verifier::external_body]
fn hex_encode(b: &[u8]) -> (r: String)
    ensures
        r@ == hex_lower(b@),
{
    data_encoding::HEXLOWER.encode(b)
}

/// The store's hash of some content: its SHA-512 digest in lowercase hex.
pub fn content_hash(data: &Vec<u8>) -> (r: String)
    ensures
        r@ == strong_hash(data@),
{
    let digest = sha512_digest(data.as_slice());
    hex_encode(digest.as_slice())
}

/// The manifests' hash of some content: its SHA-1 digest in lowercase hex.
pub fn artifact_hash(data: &Vec<u8>) -> (r: String)
    ensures
        r@ == weak_hash(data@),
{
    let digest = sha1_digest(data.as_slice());
    hex_encode(digest.as_slice())
}

} // verus!
