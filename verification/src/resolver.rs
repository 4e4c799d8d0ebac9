//! The handshake-path certificate resolver: validates the hostname the
//! client indicated, consults the single-slot cache, and either serves
//! cached material, refuses the handshake, or asks the caller to fetch.
//!
//! The resolver is a state machine over plain values. The caller (the
//! TLS layer's callback, outside this library) drives it: `begin_resolve`
//! decides from hostname, cache and clock; when it answers `NeedsFetch`,
//! the caller performs the control-plane fetch and hands the outcome to
//! `complete_fetch`, which updates the cache and says what to serve.

use vstd::prelude::*;

use crate::bytes::bytes_eq;
use crate::material::CertificatePair;
use crate::material::CertificatePairView;
use crate::material::FetchError;
use crate::store::CertificateStore;
use crate::store::CERTIFICATE_LIFETIME_MILLIS;

verus! {

/// Model of one cache entry: the material's view and its fetch time.
pub ghost struct CacheModel {
    pub material: CertificatePairView,
    pub last_update: u64,
}

/// Mathematical model of the resolver: the domain it serves and the
/// cache slot's contents.
pub ghost struct ResolverModel {
    pub domain: Seq<u8>,
    pub cache: Option<CacheModel>,
}

/// Model of what one resolver call decides.
pub ghost enum StepModel {
    /// Hostname absent or mismatched: refuse the handshake, fetch nothing.
    Refused,
    /// Fresh cache entry: serve this material.
    Hit(CertificatePairView),
    /// Miss or expired entry: a fetch must be performed.
    NeedsFetch,
}

/// The hostname the client indicated, as a byte sequence, if any.
pub open spec fn hostname_view(sni: Option<&Vec<u8>>) -> Option<Seq<u8>> {
    match sni {
        Some(name) => Some(name@),
        None => None,
    }
}

/// The indicated hostname exactly equals the configured domain.
pub open spec fn sni_matches(m: ResolverModel, sni: Option<Seq<u8>>) -> bool {
    sni is Some && sni->Some_0 == m.domain
}

/// The cache holds an entry younger than the lifetime threshold at `now`.
pub open spec fn cache_fresh(m: ResolverModel, now: u64) -> bool {
    &&& m.cache is Some
    &&& m.cache->Some_0.last_update <= now
    &&& now - m.cache->Some_0.last_update < CERTIFICATE_LIFETIME_MILLIS
}

/// What one resolver call decides, given the indicated hostname, the
/// cache state and the clock.
pub open spec fn resolve_step(m: ResolverModel, sni: Option<Seq<u8>>, now: u64) -> StepModel {
    if !sni_matches(m, sni) {
        StepModel::Refused
    } else if cache_fresh(m, now) {
        StepModel::Hit(m.cache->Some_0.material)
    } else {
        StepModel::NeedsFetch
    }
}

/// The cache state and the served material after a fetch finishes at
/// time `now`: success replaces the slot wholesale and serves the new
/// material; failure leaves the slot untouched and serves nothing.
pub open spec fn after_fetch(
    m: ResolverModel,
    outcome: Result<CertificatePairView, FetchError>,
    now: u64,
) -> (ResolverModel, Option<CertificatePairView>) {
    match outcome {
        Ok(p) => (
            ResolverModel {
                domain: m.domain,
                cache: Some(CacheModel { material: p, last_update: now }),
            },
            Some(p),
        ),
        Err(_) => (m, None),
    }
}

/// The view of a fetch outcome.
pub open spec fn outcome_view(outcome: Result<CertificatePair, FetchError>) -> Result<
    CertificatePairView,
    FetchError,
> {
    match outcome {
        Ok(p) => Ok(p@),
        Err(e) => Err(e),
    }
}

/// The view of optionally served material.
pub open spec fn served_view(served: Option<CertificatePair>) -> Option<CertificatePairView> {
    match served {
        Some(p) => Some(p@),
        None => None,
    }
}

/// What one resolver call decided, carrying a copy of the material on a
/// cache hit.
pub enum ResolveStep {
    /// Hostname absent or mismatched: refuse the handshake, fetch nothing.
    Refused,
    /// Fresh cache entry: serve this copy of the cached material.
    Hit(CertificatePair),
    /// Miss or expired entry: fetch, then call `complete_fetch`.
    NeedsFetch,
}

impl View for ResolveStep {
    type V = StepModel;

    open spec fn view(&self) -> StepModel {
        match self {
            ResolveStep::Refused => StepModel::Refused,
            ResolveStep::Hit(p) => StepModel::Hit(p@),
            ResolveStep::NeedsFetch => StepModel::NeedsFetch,
        }
    }
}

/// The certificate resolver: the one domain it will ever serve material
/// for, fixed at startup, and the cache slot it consults and refills.
pub struct CertificateResolver {
    pub domain: Vec<u8>,
    pub store: CertificateStore,
}

impl View for CertificateResolver {
    type V = ResolverModel;

    open spec fn view(&self) -> ResolverModel {
        ResolverModel {
            domain: self.domain@,
            cache: match self.store.slot {
                Some(entry) => Some(
                    CacheModel { material: entry.material@, last_update: entry.last_update },
                ),
                None => None,
            },
        }
    }
}

impl CertificateResolver {
    /// Cached material, when present, is well formed.
    pub open spec fn wf(self) -> bool {
        self.store.wf()
    }

    /// Creates a resolver for `domain` with an empty cache.
    pub fn new(domain: Vec<u8>) -> (r: CertificateResolver)
        ensures
            r@.domain == domain@,
            r@.cache is None,
            r.wf(),
    {
        CertificateResolver { domain, store: CertificateStore::new() }
    }

    /// Decides one handshake: refuses a hostname other than the domain,
    /// serves a copy of the cached material while it is fresh, and
    /// otherwise asks the caller to fetch.
    pub fn begin_resolve(&self, sni: Option<&Vec<u8>>, now: u64) -> (step: ResolveStep)
        ensures
            step@ == resolve_step(self@, hostname_view(sni), now),
    {
        match sni {
            None => ResolveStep::Refused,
            Some(name) => {
                if !bytes_eq(name, &self.domain) {
                    ResolveStep::Refused
                } else {
                    match self.store.lookup(now) {
                        Some(material) => ResolveStep::Hit(material.duplicate()),
                        None => ResolveStep::NeedsFetch,
                    }
                }
            },
        }
    }

    /// Records the outcome of the fetch that a `NeedsFetch` step asked
    /// for: success overwrites the slot with the new material stamped
    /// with the completion time `now` and serves it; failure leaves any
    /// previously cached material untouched and serves nothing.
    pub fn complete_fetch(&mut self, outcome: Result<CertificatePair, FetchError>, now: u64) -> (
        served: Option<CertificatePair>)
        requires
            old(self).wf(),
            outcome is Ok ==> outcome->Ok_0.wf(),
        ensures
            final(self).wf(),
            final(self)@ == after_fetch(old(self)@, outcome_view(outcome), now).0,
            served_view(served) == after_fetch(old(self)@, outcome_view(outcome), now).1,
    {
        match outcome {
            Ok(pair) => {
                let served = pair.duplicate();
                self.store.install(pair, now);
                Some(served)
            },
            Err(_) => None,
        }
    }
}

/// Law: a call with the hostname equal to the domain and a cache entry
/// younger than the lifetime threshold serves the cached material
/// unchanged and asks for no fetch.
pub proof fn lemma_fresh_hit(m: ResolverModel, sni: Option<Seq<u8>>, now: u64)
    requires
        sni_matches(m, sni),
        cache_fresh(m, now),
    ensures
        resolve_step(m, sni, now) == StepModel::Hit(m.cache->Some_0.material),
{
}

/// Law: the resolver never serves signing material for a hostname other
/// than the configured domain, and what it serves is exactly what the
/// fresh cache holds.
pub proof fn lemma_hit_only_for_domain(m: ResolverModel, sni: Option<Seq<u8>>, now: u64)
    ensures
        resolve_step(m, sni, now) is Hit ==> sni == Some(m.domain),
        resolve_step(m, sni, now) is Hit ==> cache_fresh(m, now),
        resolve_step(m, sni, now) is Hit ==> resolve_step(m, sni, now)->Hit_0 == m.cache->Some_0.material,
{
}

/// Law: a call with the hostname absent or not equal to the domain is
/// refused — no material, no fetch — whatever the cache holds.
pub proof fn lemma_mismatch_refused(m: ResolverModel, sni: Option<Seq<u8>>, now: u64)
    requires
        !sni_matches(m, sni),
    ensures
        resolve_step(m, sni, now) == StepModel::Refused,
{
}

/// Law: a successful fetch resets the cache timestamp to the fetch
/// completion time and serves the new material, and any call before the
/// lifetime has elapsed since then is a cache hit on that material.
pub proof fn lemma_fetch_then_hit(m: ResolverModel, p: CertificatePairView, t: u64, later: u64)
    requires
        t <= later,
        later - t < CERTIFICATE_LIFETIME_MILLIS,
    ensures
        after_fetch(m, Ok(p), t).1 == Some(p),
        after_fetch(m, Ok(p), t).0.domain == m.domain,
        after_fetch(m, Ok(p), t).0.cache is Some,
        after_fetch(m, Ok(p), t).0.cache->Some_0.material == p,
        after_fetch(m, Ok(p), t).0.cache->Some_0.last_update == t,
        resolve_step(after_fetch(m, Ok(p), t).0, Some(m.domain), later) == StepModel::Hit(p),
{
}

/// Law: a call with a matching hostname and an empty or expired cache
/// asks for a fetch (exactly one per such call).
pub proof fn lemma_expired_needs_fetch(m: ResolverModel, sni: Option<Seq<u8>>, now: u64)
    requires
        sni_matches(m, sni),
        !cache_fresh(m, now),
    ensures
        resolve_step(m, sni, now) == StepModel::NeedsFetch,
{
}

/// Law: a failed fetch leaves the cache exactly as it was and serves no
/// material for that one call.
pub proof fn lemma_failed_fetch_preserves_cache(m: ResolverModel, e: FetchError, now: u64)
    ensures
        after_fetch(m, Err(e), now).0 == m,
        after_fetch(m, Err(e), now).1 is None,
{
}

} // verus!
