//! Content addressing: the name under which a fetched body is kept on disk.

use vstd::prelude::*;

verus! {

/// The SHA-256 digest of the UTF-8 bytes of `text`, in lowercase hexadecimal.
pub uninterp spec fn sha256_hex(text: Seq<char>) -> Seq<char>;

/// `sha256::digest` on a string: the hexadecimal SHA-256 digest of its bytes.
/// The digest is a function of the text alone.
#[verifier::external_body]
pub(crate) fn digest(text: &str) -> (name: String)
    ensures
        name@ == sha256_hex(text@),
{
    sha256::digest(text)
}

/// Name of the cache file that holds the body fetched from `url`.
pub fn cache_name(url: &str) -> (name: String)
    ensures
        name@ == sha256_hex(url@),
{
    digest(url)
}

} // verus!
