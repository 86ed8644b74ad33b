//! The content-hash cache key: a stable hexadecimal digest of one code
//! block's exact source text.

use sha2::{Digest, Sha256};
use vstd::prelude::*;

verus! {

/// The lowercase hexadecimal SHA-256 digest of a text's UTF-8 bytes; a pure
/// function of the text.
pub uninterp spec fn sha256_hex_of(s: Seq<char>) -> Seq<char>;

/// A lowercase hexadecimal digit.
pub open spec fn is_lower_hex_digit(c: char) -> bool {
    ('0' <= c && c <= '9') || ('a' <= c && c <= 'f')
}

/// Relies on `sha2::Sha256` (`update`, `finalize`): the digest is a pure
/// function of the input bytes, and the `LowerHex` formatting of the 32-byte
/// digest is exactly 64 lowercase hexadecimal digits, two per byte.
#[verifier::external_body]
fn sha256_hash(input: &str) -> (r: String)
    ensures
        r@ == sha256_hex_of(input@),
        r@.len() == 64,
        forall|i: int| 0 <= i < r@.len() ==> is_lower_hex_digit(#[trigger] r@[i]),
{
    let mut hasher = Sha256::new();
    hasher.update(input.as_bytes());
    format!("{:x}", hasher.finalize())
}

/// The cache key of one code block's source text: deterministic, so identical
/// text always maps to the same temporary-source and artifact names; always
/// 64 lowercase hexadecimal digits.
pub fn cache_key(text: &str) -> (r: String)
    ensures
        r@ == sha256_hex_of(text@),
        r@.len() == 64,
        forall|i: int| 0 <= i < r@.len() ==> is_lower_hex_digit(#[trigger] r@[i]),
{
    sha256_hash(text)
}

/// The cache key is deterministic and stable across repeated calls: equal
/// source texts always yield equal keys.
pub proof fn lemma_cache_key_deterministic(t1: Seq<char>, t2: Seq<char>)
    requires
        t1 == t2,
    ensures
        sha256_hex_of(t1) == sha256_hex_of(t2),
{
}

} // verus!
