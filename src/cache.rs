//! The local cache of content-addressed objects: what to do with a file
//! found under a digest, and with a digest that has no valid file.
//!
//! The caller reads, removes, fetches and writes; `object_step` decides.

use vstd::prelude::*;
use crate::digest::{content_digest, sha384_base32};
use crate::text::{joined, same_text};

verus! {

/// What the cache does for a digest.
pub enum ObjectStep {
    /// The cached bytes hash to the digest: return them.
    Serve(Vec<u8>),
    /// Fetch the object and write it to the cache, after removing the cached
    /// file first where `discard` is set.
    Fetch { discard: bool },
    /// No fetching is configured: fail with `message`, after removing the
    /// cached file first where `discard` is set.
    Fail { discard: bool, message: String },
}

/// An `ObjectStep` as mathematical values.
pub enum ObjectPlan {
    Serve(Seq<u8>),
    Fetch { discard: bool },
    Fail { discard: bool, message: Seq<char> },
}

impl View for ObjectStep {
    type V = ObjectPlan;

    open spec fn view(&self) -> ObjectPlan {
        match self {
            ObjectStep::Serve(b) => ObjectPlan::Serve(b@),
            ObjectStep::Fetch { discard } => ObjectPlan::Fetch { discard: *discard },
            ObjectStep::Fail { discard, message } => ObjectPlan::Fail { discard: *discard, message: message@ },
        }
    }
}

/// The error for a digest that neither the cache nor a fetch can give.
pub open spec fn missing_message(digest: Seq<char>) -> Seq<char> {
    "could not find digest in cache: "@ + digest
}

/// What to do for `digest` once no valid cached file is left.
pub open spec fn miss_plan(digest: Seq<char>, discard: bool, can_fetch: bool) -> ObjectPlan {
    if can_fetch {
        ObjectPlan::Fetch { discard }
    } else {
        ObjectPlan::Fail { discard, message: missing_message(digest) }
    }
}

/// What to do for `digest`, where the cache holds `stored` under it (or
/// nothing) and fetching is configured or not: serve bytes that hash to the
/// digest; discard others; fetch or fail where nothing valid is left.
pub open spec fn object_plan(digest: Seq<char>, stored: Option<Seq<u8>>, can_fetch: bool) -> ObjectPlan {
    match stored {
        Some(b) => if sha384_base32(b) == digest {
            ObjectPlan::Serve(b)
        } else {
            miss_plan(digest, true, can_fetch)
        },
        None => miss_plan(digest, false, can_fetch),
    }
}

/// What to do where no valid cached file is left for `digest`.
fn on_miss(digest: &str, discard: bool, can_fetch: bool) -> (r: ObjectStep)
    ensures
        r@ == miss_plan(digest@, discard, can_fetch),
{
    if can_fetch {
        ObjectStep::Fetch { discard }
    } else {
        ObjectStep::Fail { discard, message: joined("could not find digest in cache: ", digest) }
    }
}

/// Decides what the cache does for `digest`, given the bytes of the file
/// cached under it (if there is one) and whether fetching is configured.
/// It always decides: a cached file is either served or discarded.
pub fn object_step(digest: &str, stored: Option<Vec<u8>>, can_fetch: bool) -> (r: Result<ObjectStep, String>)
    ensures
        r matches Ok(step) && step@ == object_plan(digest@, match stored {
            Some(b) => Some(b@),
            None => None,
        }, can_fetch),
{
    match stored {
        Some(data) => {
            let sha = content_digest(data.as_slice())?;
            if same_text(sha.as_str(), digest) {
                Ok(ObjectStep::Serve(data))
            } else {
                Ok(on_miss(digest, true, can_fetch))
            }
        },
        None => Ok(on_miss(digest, false, can_fetch)),
    }
}

/// The error for fetched bytes that do not hash to the digest asked for.
pub open spec fn mismatch_message() -> Seq<char> {
    "sha384 mismatch"@
}

/// Accepts fetched bytes for the cache only where they hash to `digest`, so
/// that every cached file hashes to its name; fails with a mismatch where
/// they do not.
pub fn accept_fetched(digest: &str, fetched: Vec<u8>) -> (r: Result<Vec<u8>, String>)
    ensures
        sha384_base32(fetched@) == digest@ ==> (r matches Ok(b) && b@ == fetched@),
        sha384_base32(fetched@) != digest@ ==> (r matches Err(e) && e@ == mismatch_message()),
{
    let sha = content_digest(fetched.as_slice())?;
    if same_text(sha.as_str(), digest) {
        Ok(fetched)
    } else {
        Err(String::from_str("sha384 mismatch"))
    }
}

/// Bytes stored under their own digest are served as they are, and nothing
/// is fetched.
pub proof fn lemma_cache_round_trip(bytes: Seq<u8>, can_fetch: bool)
    ensures
        object_plan(sha384_base32(bytes), Some(bytes), can_fetch) == ObjectPlan::Serve(bytes),
{
}

/// A cached file whose bytes do not hash to its digest is removed, and the
/// object is fetched again where fetching is configured.
pub proof fn lemma_corruption_heals(digest: Seq<char>, bytes: Seq<u8>)
    requires
        sha384_base32(bytes) != digest,
    ensures
        object_plan(digest, Some(bytes), true) == (ObjectPlan::Fetch { discard: true }),
        object_plan(digest, None, true) == (ObjectPlan::Fetch { discard: false }),
{
}

} // verus!
