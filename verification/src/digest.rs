//! Fingerprints of image manifests, and the base64 text that carries kit
//! metadata.
use vstd::prelude::*;
use base64::Engine;
use sha2::Digest;

verus! {

/// The SHA-256 hash of `bytes`, as the `sha2` crate computes it.
pub uninterp spec fn sha256(bytes: Seq<u8>) -> Seq<u8>;

/// The padded base64 text of `bytes` in the standard alphabet, as the
/// `base64` crate writes it.
pub uninterp spec fn base64_text(bytes: Seq<u8>) -> Seq<char>;

/// The bytes that the `base64` crate reads from padded standard base64
/// `text`, or `None` where it reports an error.
pub uninterp spec fn base64_bytes(text: Seq<char>) -> Option<Seq<u8>>;

/// Calls `sha2::Sha256::digest`. The hasher's output size is fixed at 32
/// bytes; the contract says that and names the hash.
#[verifier::external_body]
fn sha256_hash(bytes: &[u8]) -> (hash: Vec<u8>)
    ensures
        hash@ == sha256(bytes@),
        hash@.len() == 32,
{
    sha2::Sha256::digest(bytes).to_vec()
}

/// Calls `encode` of `base64::engine::general_purpose::STANDARD`. The call
/// panics when the encoded length does not fit in `usize`, so such inputs are
/// excluded; the contract names the text.
#[verifier::external_body]
fn base64_encode(bytes: &[u8]) -> (text: String)
    requires
        bytes@.len() / 3 * 4 + 4 <= usize::MAX,
    ensures
        text@ == base64_text(bytes@),
{
    base64::engine::general_purpose::STANDARD.encode(bytes)
}

/// Calls `decode` of `base64::engine::general_purpose::STANDARD` and drops
/// the detail of an error. The contract names the outcome.
#[verifier::external_body]
pub(crate) fn base64_decode(text: &str) -> (bytes: Option<Vec<u8>>)
    ensures
        match bytes {
            Some(decoded) => base64_bytes(text@) == Some(decoded@),
            None => base64_bytes(text@).is_none(),
        },
{
    base64::engine::general_purpose::STANDARD.decode(text).ok()
}

/// The fingerprint of a manifest: the base64 text of its SHA-256 hash.
pub open spec fn fingerprint(manifest: Seq<u8>) -> Seq<char> {
    base64_text(sha256(manifest))
}

/// Computes the fingerprint by which a manifest is pinned.
pub fn manifest_digest(manifest: &[u8]) -> (digest: String)
    ensures
        digest@ == fingerprint(manifest@),
{
    let hash = sha256_hash(manifest);
    base64_encode(hash.as_slice())
}

} // verus!
