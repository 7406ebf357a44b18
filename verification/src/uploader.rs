//! The uploader primitive: content digests, target URLs, and the
//! decisions around one upload.
//!
//! An upload streams a local file to `{base_url}/{directory}` with a
//! SHA-1 content digest as a deduplication hint.  The digest of the most
//! recently hashed path is cached in a single slot so that a retry of
//! the same file avoids rehashing.

use vstd::prelude::*;

verus! {

/// The SHA-1 digest of a byte string; a function of the bytes alone.
pub uninterp spec fn sha1_of(bytes: Seq<u8>) -> Seq<u8>;

/// The lowercase hex encoding of a byte string; a function of the bytes
/// alone.
pub uninterp spec fn hex_of(bytes: Seq<u8>) -> Seq<char>;

/// The hex-encoded SHA-1 digest used as the upload deduplication hint.
pub open spec fn spec_hex_digest(bytes: Seq<u8>) -> Seq<char> {
    hex_of(sha1_of(bytes))
}

/// Relies on sha1's `Sha1::digest`: the 20-byte SHA-1 hash of the input,
/// depending on the input bytes alone.
#[verifier::external_body]
fn sha1_digest(bytes: &[u8]) -> (r: Vec<u8>)
    ensures
        r@ == sha1_of(bytes@),
        r@.len() == 20,
{
    let out = <sha1::Sha1 as sha1::Digest>::digest(bytes);
    out.to_vec()
}

/// Relies on hex's `encode`: two lowercase hex digits for each input
/// byte, depending on the input bytes alone.
#[verifier::external_body]
fn hex_encode(bytes: &Vec<u8>) -> (r: String)
    ensures
        r@ == hex_of(bytes@),
        r@.len() == 2 * bytes@.len(),
{
    hex::encode(bytes)
}

/// The hex-encoded SHA-1 digest of `bytes`: forty hex characters.
pub fn hex_digest(bytes: &[u8]) -> (r: String)
    ensures
        r@ == spec_hex_digest(bytes@),
        r@.len() == 40,
{
    let raw = sha1_digest(bytes);
    hex_encode(&raw)
}

/// The single-slot digest cache: the most recently computed
/// `(path, digest)` pair.
pub struct DigestCache {
    /// The path most recently hashed and its digest, if any.
    pub slot: Option<(String, String)>,
}

impl DigestCache {
    /// An empty cache.
    pub fn new() -> (r: DigestCache)
        ensures
            r.slot is None,
    {
        DigestCache { slot: None }
    }

    /// The cached digest for `path` — only ever a digest the cache was
    /// last set for under exactly this path.
    pub fn lookup(&self, path: &str) -> (r: Option<String>)
        ensures
            r matches Some(d) ==> (self.slot matches Some(pair) && pair.0@ == path@ && pair.1
                == d),
            r is None ==> (self.slot is None || (self.slot matches Some(pair) && pair.0@
                != path@)),
    {
        match &self.slot {
            Some((p, d)) => {
                if crate::paths::str_eq(p.as_str(), path) {
                    Some(d.clone())
                } else {
                    None
                }
            },
            None => None,
        }
    }

    /// Overwrites the slot with a fresh pair.
    pub fn set(&mut self, path: String, digest: String)
        ensures
            final(self).slot == Some((path, digest)),
    {
        self.slot = Some((path, digest));
    }

    /// The digest for `path` whose content is `bytes`: the cached value
    /// when the slot was last set for this path, and a freshly computed
    /// digest — which then takes over the slot — otherwise.
    pub fn digest_for(&mut self, path: &str, bytes: &[u8]) -> (d: String)
        ensures
            match old(self).slot {
                Some(pair) => {
                    if pair.0@ == path@ {
                        d == pair.1 && *final(self) == *old(self)
                    } else {
                        d@ == spec_hex_digest(bytes@) && (final(self).slot matches Some(np)
                            && np.0@ == path@ && np.1 == d)
                    }
                },
                None => d@ == spec_hex_digest(bytes@) && (final(self).slot matches Some(np)
                    && np.0@ == path@ && np.1 == d),
            },
    {
        if let Some(cached) = self.lookup(path) {
            return cached;
        }
        let fresh = hex_digest(bytes);
        self.set(path.to_owned(), fresh.clone());
        fresh
    }
}

/// The upload target: `{base_url}/{directory}`, with the digest query
/// parameter when a digest is at hand.
pub fn upload_url(base_url: &str, directory: &str, digest: Option<&str>) -> (r: String)
    ensures
        match digest {
            Some(d) => r@ == base_url@ + seq!['/'] + directory@ + "?digest="@ + d@,
            None => r@ == base_url@ + seq!['/'] + directory@,
        },
{
    let mut out = base_url.to_owned();
    out.append("/");
    proof {
        reveal_strlit("/");
        assert(out@ =~= base_url@ + seq!['/']);
    }
    out.append(directory);
    match digest {
        Some(d) => {
            out.append("?digest=");
            out.append(d);
            out
        },
        None => out,
    }
}

/// An HTTP status counts as success exactly when it is 2xx.
pub fn status_is_success(status: u16) -> (r: bool)
    ensures
        r == (200 <= status < 300),
{
    200 <= status && status < 300
}

/// Whether a failed request looked like a network problem — a timeout or
/// a connection failure — rather than a remote rejection.  Only network
/// problems demote the component to offline.
pub fn is_network_error(timeout: bool, connect: bool) -> (r: bool)
    ensures
        r == (timeout || connect),
{
    timeout || connect
}

/// An online/offline observation is reported onward only when it differs
/// from the component's current view; matching reports are dropped.
pub fn should_report_online_change(current: bool, observed: bool) -> (r: bool)
    ensures
        r == (current != observed),
{
    current != observed
}

} // verus!
