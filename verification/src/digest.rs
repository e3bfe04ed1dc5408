//! Hash functions and their hexadecimal form.

use vstd::prelude::*;

use hmac::Mac;
use md5::Digest as Md5Digest;
use sha2::Digest as Sha2Digest;

verus! {

/// The HMAC-SHA256 tag of `data` under `key` (`hmac::Hmac<sha2::Sha256>`).
pub uninterp spec fn hmac_sha256_spec(key: Seq<u8>, data: Seq<u8>) -> Seq<u8>;

/// The SHA-256 digest of `data` (`sha2::Sha256`).
pub uninterp spec fn sha256_spec(data: Seq<u8>) -> Seq<u8>;

/// The MD5 digest of `data` (`md5::Md5` of the `md-5` package).
pub uninterp spec fn md5_spec(data: Seq<u8>) -> Seq<u8>;

/// The lowercase hexadecimal digit for `n < 16`.
pub open spec fn hex_lower_digit(n: int) -> char {
    if n < 10 {
        ((n + 48) as u8) as char
    } else {
        ((n + 87) as u8) as char
    }
}

/// Two lowercase hexadecimal digits per byte, high nibble first.
pub open spec fn hex_lower(b: Seq<u8>) -> Seq<char>
    decreases b.len(),
{
    if b.len() == 0 {
        Seq::empty()
    } else {
        seq![hex_lower_digit(b[0] as int / 16), hex_lower_digit(b[0] as int % 16)] + hex_lower(b.drop_first())
    }
}

/// `Hmac::<Sha256>::new_from_slice(key)`, `update(data)`, `finalize()`:
/// the tag is the one named by `hmac_sha256_spec`, 32 bytes long. The key
/// may have any length (`new_from_slice` of `hmac` 0.12 never fails).
#[verifier::external_body]
fn hmac_sha256(key: &[u8], data: &[u8]) -> (r: Vec<u8>)
    ensures
        r@ == hmac_sha256_spec(key@, data@),
        r@.len() == 32,
{
    let mut mac = hmac::Hmac::<sha2::Sha256>::new_from_slice(key).expect("any key length");
    mac.update(data);
    mac.finalize().into_bytes().to_vec()
}

/// `sha2::Sha256::digest(data)`: the digest named by `sha256_spec`, 32 bytes.
#[verifier::external_body]
fn sha256(data: &[u8]) -> (r: Vec<u8>)
    ensures
        r@ == sha256_spec(data@),
        r@.len() == 32,
{
    sha2::Sha256::digest(data).to_vec()
}

/// `md5::Md5::digest(data)`: the digest named by `md5_spec`, 16 bytes.
#[verifier::external_body]
fn md5(data: &[u8]) -> (r: Vec<u8>)
    ensures
        r@ == md5_spec(data@),
        r@.len() == 16,
{
    md5::Md5::digest(data).to_vec()
}

/// `hex::encode(data)`: two lowercase hexadecimal digits per byte.
#[verifier::external_body]
fn hex_encode(data: &[u8]) -> (r: String)
    ensures
        r@ == hex_lower(data@),
{
    hex::encode(data)
}

/// The HMAC-SHA256 tag of `data` under `key`, in lowercase hexadecimal.
pub fn hmac_sha256_hex(key: &[u8], data: &[u8]) -> (r: String)
    ensures
        r@ == hex_lower(hmac_sha256_spec(key@, data@)),
{
    let tag = hmac_sha256(key, data);
    hex_encode(tag.as_slice())
}

/// The SHA-256 digest of `data`, in lowercase hexadecimal.
pub fn sha256_hex(data: &[u8]) -> (r: String)
    ensures
        r@ == hex_lower(sha256_spec(data@)),
{
    let d = sha256(data);
    hex_encode(d.as_slice())
}

/// The MD5 digest of `data`, in lowercase hexadecimal.
pub fn md5_hex(data: &[u8]) -> (r: String)
    ensures
        r@ == hex_lower(md5_spec(data@)),
{
    let d = md5(data);
    hex_encode(d.as_slice())
}

} // verus!
