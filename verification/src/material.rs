//! Signing material: a DER-encoded certificate chain paired with its
//! private key, the unit the cache stores and the resolver serves.

use vstd::prelude::*;

use crate::bytes::copy_bytes;

verus! {

/// The views of a sequence of byte vectors, element by element.
pub open spec fn byte_views(s: Seq<Vec<u8>>) -> Seq<Seq<u8>> {
    Seq::new(s.len(), |i: int| s[i]@)
}

/// Mathematical model of a certificate pair: the chain and key as byte
/// sequences.
pub ghost struct CertificatePairView {
    pub chain: Seq<Seq<u8>>,
    pub key: Seq<u8>,
}

/// An ordered certificate chain (leaf first, each certificate as DER
/// bytes) together with one DER-encoded private key. Opaque signing
/// material: the library moves and copies it, never inspects it.
pub struct CertificatePair {
    pub chain: Vec<Vec<u8>>,
    pub key: Vec<u8>,
}

impl View for CertificatePair {
    type V = CertificatePairView;

    open spec fn view(&self) -> CertificatePairView {
        CertificatePairView { chain: byte_views(self.chain@), key: self.key@ }
    }
}

impl CertificatePair {
    /// A pair is never partially valid: the chain is non-empty.
    pub open spec fn wf(self) -> bool {
        self@.chain.len() > 0
    }

    /// Returns an identical copy of the signing material.
    pub fn duplicate(&self) -> (r: CertificatePair)
        ensures
            r@ == self@,
    {
        let mut chain: Vec<Vec<u8>> = Vec::new();
        let mut i: usize = 0;
        proof {
            assert(byte_views(chain@) =~= self@.chain.take(0));
        }
        while i < self.chain.len()
            invariant
                i <= self.chain.len(),
                chain.len() == i,
                byte_views(chain@) == self@.chain.take(i as int),
            decreases self.chain.len() - i,
        {
            let ghost prev = chain@;
            chain.push(copy_bytes(&self.chain[i]));
            i += 1;
            proof {
                assert forall|j: int| 0 <= j < i implies byte_views(chain@)[j] == self@.chain.take(
                    i as int,
                )[j] by {
                    if j < i - 1 {
                        assert(byte_views(prev)[j] == prev[j]@);
                    }
                }
                assert(byte_views(chain@) =~= self@.chain.take(i as int));
            }
        }
        let r = CertificatePair { chain, key: copy_bytes(&self.key) };
        proof {
            assert(r@.chain =~= self@.chain);
        }
        r
    }
}

/// Why a certificate fetch failed. Recoverable and connection-scoped:
/// the failing handshake is refused and the next one retries.
#[derive(Clone, Copy, Debug, PartialEq, Eq, Structural)]
pub enum FetchError {
    /// The worker carrying the asynchronous control-plane call could not
    /// be started or joined.
    WorkerFailed,
    /// The control-plane call itself failed, or broke its contract by
    /// returning no certificate chain.
    ControlPlane,
    /// The returned private key is not a supported signature algorithm.
    UnsupportedKey,
}

/// Whether a DER-encoded private key parses as a signature algorithm the
/// TLS layer supports: a function of the key bytes alone.
pub uninterp spec fn supported_key(key: Seq<u8>) -> bool;

/// Relies on rustls::sign::any_supported_type: it succeeds exactly on
/// the private keys whose signature algorithm rustls supports, decided
/// from the key bytes alone.
#[verifier::external_body]
fn key_supported(key: &Vec<u8>) -> (r: bool)
    ensures
        r == supported_key(key@),
{
    rustls::sign::any_supported_type(&rustls::PrivateKey(key.clone())).is_ok()
}

/// Builds signing material from what a certificate fetch returned: an
/// empty chain is a control-plane contract violation, a private key of
/// an unsupported signature algorithm is rejected, and anything else is
/// a well-formed pair of exactly the returned bytes.
pub fn classify_fetched(chain: Vec<Vec<u8>>, key: Vec<u8>) -> (r: Result<
    CertificatePair,
    FetchError,
>)
    ensures
        r is Ok <==> chain@.len() > 0 && supported_key(key@),
        r is Ok ==> r->Ok_0@.chain == byte_views(chain@) && r->Ok_0@.key == key@
            && r->Ok_0.wf(),
        chain@.len() == 0 ==> r == Err::<CertificatePair, FetchError>(FetchError::ControlPlane),
        chain@.len() > 0 && !supported_key(key@) ==> r == Err::<CertificatePair, FetchError>(
            FetchError::UnsupportedKey,
        ),
{
    if chain.len() == 0 {
        Err(FetchError::ControlPlane)
    } else if !key_supported(&key) {
        Err(FetchError::UnsupportedKey)
    } else {
        Ok(CertificatePair { chain, key })
    }
}

} // verus!
