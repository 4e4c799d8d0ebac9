//! The single-slot certificate cache: at most one cached certificate
//! exists at any time, replaced wholesale on refresh and served only
//! while younger than the lifetime threshold.

use vstd::prelude::*;

use crate::material::CertificatePair;

verus! {

/// How long fetched signing material may be served from the cache, in
/// milliseconds on a monotonic clock: 24 hours.
pub const CERTIFICATE_LIFETIME_MILLIS: u64 = 1000 * 60 * 60 * 24;

/// The most recently fetched signing material and when the fetch
/// completed (milliseconds on the process's monotonic clock).
pub struct CachedCertificate {
    pub material: CertificatePair,
    pub last_update: u64,
}

/// The one cache slot. Empty until the first successful fetch; a
/// refresh replaces the slot wholesale, never merges.
pub struct CertificateStore {
    pub slot: Option<CachedCertificate>,
}

impl CertificateStore {
    /// The store holds well-formed material whenever it holds any.
    pub open spec fn wf(self) -> bool {
        self.slot is Some ==> self.slot->Some_0.material.wf()
    }

    /// The slot holds material younger than the lifetime threshold at
    /// time `now`.
    pub open spec fn is_fresh(self, now: u64) -> bool {
        &&& self.slot is Some
        &&& self.slot->Some_0.last_update <= now
        &&& now - self.slot->Some_0.last_update < CERTIFICATE_LIFETIME_MILLIS
    }

    /// Creates an empty store.
    pub fn new() -> (s: CertificateStore)
        ensures
            s.slot is None,
            s.wf(),
    {
        CertificateStore { slot: None }
    }

    /// Returns the cached material exactly when the slot is fresh at
    /// `now`; an empty or expired slot yields nothing.
    pub fn lookup(&self, now: u64) -> (r: Option<&CertificatePair>)
        ensures
            r is Some <==> self.is_fresh(now),
            r is Some ==> *r->Some_0 == self.slot->Some_0.material,
    {
        match &self.slot {
            Some(entry) => {
                if entry.last_update <= now && now - entry.last_update
                    < CERTIFICATE_LIFETIME_MILLIS {
                    Some(&entry.material)
                } else {
                    None
                }
            },
            None => None,
        }
    }

    /// Overwrites the slot with newly fetched material, stamped with the
    /// fetch completion time `now`.
    pub fn install(&mut self, material: CertificatePair, now: u64)
        requires
            material.wf(),
        ensures
            final(self).slot is Some,
            final(self).slot->Some_0.material == material,
            final(self).slot->Some_0.last_update == now,
            final(self).wf(),
    {
        self.slot = Some(CachedCertificate { material, last_update: now });
    }
}

} // verus!
