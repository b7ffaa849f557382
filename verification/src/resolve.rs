//! The resolution funnel: cache-first, fetch-on-miss, write-through.
//!
//! The funnel is one generic algorithm, instantiated once per entity
//! kind rather than re-derived per kind: look the id up in the cache
//! port, fall back to the network collaborator on a miss, and commit a
//! successful fetch before returning it, so the next resolution of the
//! same id is a cache hit.  A network failure surfaces verbatim; this
//! layer neither interprets nor retries it.

use vstd::prelude::*;

use crate::cache::{lemma_commit_stores, seq_commit, seq_get, CacheEntity, CachePort};

verus! {

/// Opaque failure of the network collaborator, surfaced verbatim by
/// the resolution funnel: its cause is not interpreted here.
#[derive(Clone, Debug, PartialEq, Eq)]
pub struct FetchError {
    pub detail: String,
}

impl FetchError {
    /// An equal copy of the error.
    pub fn duplicate(&self) -> (r: Self)
        ensures
            r == *self,
    {
        FetchError { detail: self.detail.clone() }
    }
}

/// Completes a resolution after the network collaborator answered:
/// a successful fetch is committed to the port (write-through) and
/// returned; a failure leaves the port untouched and surfaces
/// verbatim.
pub fn resolve_fetched<E: CacheEntity>(
    port: &mut CachePort<E>,
    fetched: Result<E, FetchError>,
) -> (r: Result<E, FetchError>)
    ensures
        final(port).configured() == old(port).configured(),
        fetched matches Err(f) ==> *final(port) == *old(port) && (r matches Err(g) && g == f),
        fetched matches Ok(e) ==> (r matches Ok(out) && out == e),
        fetched is Ok && old(port).configured() ==> {
            let e = fetched->Ok_0;
            &&& final(port).contents() == seq_commit(old(port).contents(), e)
            &&& final(port).lookup(e.key()) == Some(e)
        },
        fetched is Ok && !old(port).configured() ==> *final(port) == *old(port),
{
    match fetched {
        Ok(e) => {
            let out = port.commit(e);
            proof {
                if old(port).configured() {
                    lemma_commit_stores(old(port).contents(), out);
                }
            }
            Ok(out)
        },
        Err(f) => Err(f),
    }
}

/// What one full run of the resolution funnel guarantees of a port:
/// a hit is answered from the cache and changes nothing; on a miss a
/// successful fetch is written through before being returned, and a
/// failed one leaves the port untouched.
pub open spec fn funnel_post<E: CacheEntity>(
    pre: CachePort<E>,
    post: CachePort<E>,
    id: u64,
    r: Result<E, FetchError>,
) -> bool {
    &&& post.configured() == pre.configured()
    &&& pre.lookup(id) matches Some(e) ==> post == pre && (r matches Ok(out) && out == e)
    &&& pre.lookup(id) is None && r is Ok && pre.configured() ==> {
        let out = r->Ok_0;
        &&& post.contents() == seq_commit(pre.contents(), out)
        &&& post.lookup(out.key()) == Some(out)
    }
    &&& pre.lookup(id) is None && r is Ok && !pre.configured() ==> post == pre
    &&& pre.lookup(id) is None && r is Err ==> post == pre
}

/// Law: with no cache configured the port yields nothing, so every
/// resolution takes the fetch path, and never errs on account of the
/// missing cache itself.
pub proof fn lemma_no_cache_always_misses<E: CacheEntity>(port: CachePort<E>, k: u64)
    requires
        !port.configured(),
    ensures
        port.lookup(k) is None,
{
}

/// Law: a successful resolution wrote the fetched entity through, so
/// an immediately following resolution of the same key is a cache hit
/// and issues no further fetch.
pub proof fn lemma_write_through_hit<E: CacheEntity>(s: Seq<E>, e: E)
    ensures
        seq_get(seq_commit(s, e), e.key()) == Some(e),
{
    lemma_commit_stores(s, e);
}

/// Law: two resolutions of one id in sequence issue at most one
/// fetch.  After any funnel run that answered `Ok(e)` on a configured
/// port, the port maps the id to `e` — whether the answer came from
/// the cache or was fetched and written through — so the next
/// resolution of that id is served from the cache, with the port and
/// the network collaborator untouched.  The one premise is the
/// collaborator's side of the interface: a fetch for an id answers
/// with the entity of that id.
pub proof fn lemma_second_resolve_hits<E: CacheEntity>(
    pre: CachePort<E>,
    post: CachePort<E>,
    id: u64,
    e: E,
)
    requires
        funnel_post(pre, post, id, Ok(e)),
        post.configured(),
        e.key() == id,
    ensures
        post.lookup(id) == Some(e),
{
}

} // verus!
