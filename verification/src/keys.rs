//! Storage key scheme: each capture is stored under
//! `"{source_id}/{digest}.jpg"`, and the precomputed index artifact under a
//! fixed well-known key. Keying by content digest makes writes idempotent.

use vstd::prelude::*;
use vstd::string::StringExecFns;
use crate::digest::digest;
use crate::digest::digest_spec;

verus! {

/// The key a capture of `source_id` with content digest `dgst` is stored
/// under.
pub open spec fn object_key_spec(source_id: Seq<char>, dgst: Seq<char>) -> Seq<char> {
    source_id + "/"@ + dgst + ".jpg"@
}

/// Compose the storage key for one capture.
pub fn object_key(source_id: &str, dgst: &str) -> (r: String)
    ensures
        r@ == object_key_spec(source_id@, dgst@),
{
    let mut k = source_id.to_owned();
    k.append("/");
    k.append(dgst);
    k.append(".jpg");
    k
}

/// The listing prefix that gathers every stored capture of one source.
pub fn listing_prefix(source_id: &str) -> (r: String)
    ensures
        r@ == source_id@ + "/"@,
{
    let mut p = source_id.to_owned();
    p.append("/");
    p
}

/// The well-known key of the precomputed index artifact.
pub fn imgs_json_key() -> (r: &'static str)
    ensures
        r@ == "imgs.json"@,
{
    "imgs.json"
}

/// Everything a successful capture hands to the storage write: the composed
/// key, the cache metadata the object carries, and the bytes themselves.
pub struct StoreRequest {
    /// Content-addressed storage key.
    pub key: String,
    /// `Cache-Control` metadata stored with the object.
    pub cache_control: &'static str,
    /// The captured bytes, stored verbatim.
    pub body: Vec<u8>,
}

/// Build the storage write for one fetched capture: the key is derived from
/// the content digest, the bytes pass through unchanged, and the object
/// carries long-lived public caching metadata (its content is immutable
/// once keyed by its digest).
pub fn store_request_for(source_id: &str, bytes: Vec<u8>) -> (r: StoreRequest)
    ensures
        r.key@ == object_key_spec(source_id@, digest_spec(bytes@)),
        r.cache_control@ == "max-age=604800, public"@,
        r.body == bytes,
{
    let d = digest(&bytes);
    StoreRequest {
        key: object_key(source_id, d.as_str()),
        cache_control: "max-age=604800, public",
        body: bytes,
    }
}

/// `Cache-Control` metadata stored with the index artifact: always
/// revalidated, since the artifact is overwritten in place on each run.
pub fn index_cache_control() -> (r: &'static str)
    ensures
        r@ == "no-cache"@,
{
    "no-cache"
}

/// Law: the dedup invariant. For one source, captures with identical bytes
/// compose the same storage key, so at most one stored object can arise
/// from them.
pub proof fn lemma_dedup_key(source_id: Seq<char>, b1: Seq<u8>, b2: Seq<u8>)
    requires
        b1 == b2,
    ensures
        object_key_spec(source_id, digest_spec(b1)) == object_key_spec(source_id, digest_spec(b2)),
{
}

} // verus!
