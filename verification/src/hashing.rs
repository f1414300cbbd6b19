//! Content hashing for the summary cache.

use sha2::Digest;
use vstd::prelude::*;
use vstd::string::StringSliceAdditionalSpecFns;
use crate::text::views;

verus! {

/// The SHA-256 digest of `data`, written as 64 lowercase hexadecimal digits.
pub uninterp spec fn sha256_hex(data: Seq<u8>) -> Seq<char>;

/// Feeds `data` to `sha2::Sha256` (`new`, `update`, `finalize`) and formats the
/// digest with `{:x}`. The digest is a function of the bytes alone.
#[verifier::external_body]
fn sha256_hex_of(data: &Vec<u8>) -> (hex: String)
    ensures
        hex@ == sha256_hex(data@),
{
    let mut hasher = sha2::Sha256::new();
    hasher.update(data.as_slice());
    format!("{:x}", hasher.finalize())
}

/// The UTF-8 bytes of the texts in `texts`, one after the other.
pub open spec fn joined_bytes(texts: Seq<Seq<char>>) -> Seq<u8>
    decreases texts.len(),
{
    if texts.len() == 0 {
        Seq::empty()
    } else {
        joined_bytes(texts.drop_last()) + vstd::utf8::encode_utf8(texts.last())
    }
}

/// The cache key of an ordered list of texts.
pub open spec fn content_hash(texts: Seq<Seq<char>>) -> Seq<char> {
    sha256_hex(joined_bytes(texts))
}

/// Hashes the concatenation of `values`, in order. Reordering the values, or
/// moving text from one value to its neighbour, is hashed as the bytes come.
pub fn hash_strings(values: &Vec<String>) -> (hash: String)
    ensures
        hash@ == content_hash(views(values@)),
{
    let ghost texts = views(values@);
    let mut bytes: Vec<u8> = Vec::new();
    let mut i: usize = 0;
    while i < values.len()
        invariant
            i <= values.len(),
            texts == views(values@),
            bytes@ == joined_bytes(texts.take(i as int)),
        decreases values.len() - i,
    {
        let part = values[i].as_str().as_bytes();
        bytes.extend_from_slice(part);
        proof {
            assert(texts.take(i + 1).drop_last() == texts.take(i as int));
        }
        i += 1;
    }
    assert(texts.take(texts.len() as int) == texts);
    sha256_hex_of(&bytes)
}

} // verus!
