//! The address of the upstream image: its canonical form and its digest.

use crate::text::{trim, trimmed};
use vstd::prelude::*;

verus! {

/// What the `url` crate makes of a text: the address in its canonical
/// spelling, or `None` where the text is no absolute address.
pub uninterp spec fn canonical_url(text: Seq<char>) -> Option<Seq<char>>;

/// Parses with `Url::parse` and spells the address out again. The contract
/// names the result: it depends on the text alone.
#[verifier::external_body]
pub(crate) fn parse_url(text: &str) -> (r: Option<String>)
    ensures
        match r {
            Some(address) => canonical_url(text@) == Some(address@),
            None => canonical_url(text@) is None,
        },
{
    url::Url::parse(text).map(|parsed| parsed.to_string()).ok()
}

/// The MD5 digest of a sequence of bytes.
pub uninterp spec fn md5_of(data: Seq<u8>) -> Seq<u8>;

/// Digests with `Md5` of the `md-5` crate. The contract names the result
/// and claims its length: an MD5 digest has sixteen bytes.
#[verifier::external_body]
pub(crate) fn md5_digest(data: &[u8]) -> (r: Vec<u8>)
    ensures
        r@ == md5_of(data@),
        r@.len() == 16,
{
    let mut hasher = <md5::Md5 as md5::Digest>::new();
    md5::Digest::update(&mut hasher, data);
    md5::Digest::finalize(hasher).to_vec()
}

/// The character that writes a number below sixteen in base sixteen, with
/// small letters.
pub open spec fn hex_digit(n: nat) -> char
    recommends
        n < 16,
{
    if n < 10 {
        (48 + n) as u8 as char
    } else {
        (87 + n) as u8 as char
    }
}

/// Bytes written in base sixteen, two digits for each byte, the higher one
/// first.
pub open spec fn hex_text(data: Seq<u8>) -> Seq<char> {
    Seq::new(
        2 * data.len(),
        |i: int|
            if i % 2 == 0 {
                hex_digit((data[i / 2] / 16) as nat)
            } else {
                hex_digit((data[i / 2] % 16) as nat)
            },
    )
}

/// Writes bytes in base sixteen with `hex::encode`, which takes the digits
/// of each byte from the table `0123456789abcdef`, the higher one first.
#[verifier::external_body]
pub(crate) fn hex_encode(data: &[u8]) -> (r: String)
    ensures
        r@ == hex_text(data@),
{
    hex::encode(data)
}

/// The canonical form of the address that `url` holds between white space.
pub open spec fn cleaned_url(url: Seq<char>) -> Option<Seq<char>> {
    canonical_url(trimmed(url))
}

/// Trims an address and brings it into canonical form. A text that is no
/// absolute address is refused as `Invalid URL`.
pub fn clean_image_url(url: &str) -> (r: Result<String, String>)
    ensures
        match r {
            Ok(address) => cleaned_url(url@) == Some(address@),
            Err(message) => cleaned_url(url@) is None && message@ == "Invalid URL"@,
        },
{
    match parse_url(trim(url)) {
        Some(address) => Ok(address),
        None => Err("Invalid URL".to_owned()),
    }
}

/// The identifier of an address: the MD5 digest of its UTF-8 bytes, in base
/// sixteen.
pub open spec fn url_hash(url: Seq<char>) -> Seq<char> {
    hex_text(md5_of(vstd::utf8::encode_utf8(url)))
}

/// Computes the identifier of an address. It has 32 characters.
pub fn generate_url_hash(url: &str) -> (hash: String)
    ensures
        hash@ == url_hash(url@),
        hash@.len() == 32,
{
    let digest = md5_digest(url.as_bytes());
    hex_encode(digest.as_slice())
}

} // verus!
