//! Listener orchestration: from the control plane's one startup answer
//! — candidate domains and reachable addresses — to the domain the
//! resolver serves and the exact set of listeners to stand up: one
//! plaintext-redirect listener and one TLS listener per address.

use vstd::prelude::*;

use crate::bytes::append_bytes;
use crate::bytes::copy_bytes;
use crate::bytes::dec_digits;
use crate::bytes::u16_to_decimal;
use crate::material::byte_views;

verus! {

/// The default port of the plaintext-redirect listeners, overridable by
/// the environment.
pub const DEFAULT_PLAIN_PORT: u16 = 3000;

/// The default port of the TLS listeners, overridable by the
/// environment.
pub const DEFAULT_TLS_PORT: u16 = 3443;

/// What the control plane reports at startup: candidate domains for
/// certificates (in order of preference) and the local addresses that
/// are reachable, both as plain bytes (a domain name, an address in its
/// textual form).
pub struct ControlPlaneStatus {
    pub cert_domains: Vec<Vec<u8>>,
    pub addresses: Vec<Vec<u8>>,
}

/// The one fatal startup error of domain selection: without a candidate
/// domain no certificate can ever be resolved.
#[derive(Clone, Copy, Debug, PartialEq, Eq, Structural)]
pub enum StartupError {
    NoCertDomain,
}

/// Selects the domain to serve: the first candidate the control plane
/// reported, or a fatal error when it reported none.
pub fn select_domain(status: &ControlPlaneStatus) -> (r: Result<Vec<u8>, StartupError>)
    ensures
        status.cert_domains@.len() > 0 ==> r is Ok && r->Ok_0@ == status.cert_domains@[0]@,
        status.cert_domains@.len() == 0 ==> r is Err && r->Err_0 == StartupError::NoCertDomain,
{
    if status.cert_domains.len() == 0 {
        Err(StartupError::NoCertDomain)
    } else {
        Ok(copy_bytes(&status.cert_domains[0]))
    }
}

/// Which of the two paired listeners a plan entry describes.
#[derive(Clone, Copy, Debug, PartialEq, Eq, Structural)]
pub enum ListenerKind {
    /// Answers every connection with a permanent redirect to the TLS
    /// listener.
    PlainRedirect,
    /// Terminates TLS with the certificate resolver, then serves the
    /// application.
    Tls,
}

/// Model of one listener to stand up.
pub ghost struct ListenerPlanView {
    pub address: Seq<u8>,
    pub port: u16,
    pub kind: ListenerKind,
}

/// One listener to stand up: an address, the port to bind there, and
/// what the listener does.
pub struct ListenerPlan {
    pub address: Vec<u8>,
    pub port: u16,
    pub kind: ListenerKind,
}

impl View for ListenerPlan {
    type V = ListenerPlanView;

    open spec fn view(&self) -> ListenerPlanView {
        ListenerPlanView { address: self.address@, port: self.port, kind: self.kind }
    }
}

/// The views of a sequence of listener plans, element by element.
pub open spec fn plan_views(s: Seq<ListenerPlan>) -> Seq<ListenerPlanView> {
    Seq::new(s.len(), |i: int| s[i]@)
}

/// The full listener plan over a sequence of addresses: two listeners
/// per address, the plaintext one at `plain_port` first, the TLS one at
/// `tls_port` second.
pub open spec fn planned(addrs: Seq<Seq<u8>>, plain_port: u16, tls_port: u16) -> Seq<
    ListenerPlanView,
> {
    Seq::new(
        2 * addrs.len(),
        |j: int|
            ListenerPlanView {
                address: addrs[j / 2],
                port: if j % 2 == 0 {
                    plain_port
                } else {
                    tls_port
                },
                kind: if j % 2 == 0 {
                    ListenerKind::PlainRedirect
                } else {
                    ListenerKind::Tls
                },
            },
    )
}

/// Produces the listeners to stand up for the control plane's reachable
/// addresses: for each address, a plaintext-redirect listener at
/// `plain_port` and a TLS listener at `tls_port`.
pub fn plan_listeners(status: &ControlPlaneStatus, plain_port: u16, tls_port: u16) -> (plans: Vec<
    ListenerPlan,
>)
    ensures
        plan_views(plans@) == planned(byte_views(status.addresses@), plain_port, tls_port),
        plans@.len() == 2 * status.addresses@.len(),
{
    let ghost target = planned(byte_views(status.addresses@), plain_port, tls_port);
    let mut plans: Vec<ListenerPlan> = Vec::new();
    let mut i: usize = 0;
    proof {
        assert(plan_views(plans@) =~= target.take(0));
    }
    while i < status.addresses.len()
        invariant
            i <= status.addresses.len(),
            plans.len() == 2 * i,
            target == planned(byte_views(status.addresses@), plain_port, tls_port),
            plan_views(plans@) == target.take(2 * i),
        decreases status.addresses.len() - i,
    {
        let ghost prev = plans@;
        plans.push(
            ListenerPlan {
                address: copy_bytes(&status.addresses[i]),
                port: plain_port,
                kind: ListenerKind::PlainRedirect,
            },
        );
        plans.push(
            ListenerPlan {
                address: copy_bytes(&status.addresses[i]),
                port: tls_port,
                kind: ListenerKind::Tls,
            },
        );
        i += 1;
        proof {
            assert forall|j: int| 0 <= j < 2 * i implies plan_views(plans@)[j] == target.take(
                2 * i,
            )[j] by {
                if j < 2 * i - 2 {
                    assert(plan_views(prev)[j] == prev[j]@);
                }
                assert(byte_views(status.addresses@)[j / 2] == status.addresses@[j / 2]@);
            }
            assert(plan_views(plans@) =~= target.take(2 * i));
        }
    }
    proof {
        assert(plan_views(plans@) =~= target);
    }
    plans
}

/// Law: the plan over a set of addresses holds exactly two listeners
/// per address — the plaintext redirect at `plain_port` and TLS at
/// `tls_port`, both at that address — and nothing else.
pub proof fn lemma_paired_listeners(addrs: Seq<Seq<u8>>, plain_port: u16, tls_port: u16)
    ensures
        planned(addrs, plain_port, tls_port).len() == 2 * addrs.len(),
        forall|i: int|
            0 <= i < addrs.len() ==> planned(addrs, plain_port, tls_port)[2 * i] == (
            ListenerPlanView {
                address: #[trigger] addrs[i],
                port: plain_port,
                kind: ListenerKind::PlainRedirect,
            }),
        forall|i: int|
            0 <= i < addrs.len() ==> planned(addrs, plain_port, tls_port)[2 * i + 1] == (
            ListenerPlanView {
                address: #[trigger] addrs[i],
                port: tls_port,
                kind: ListenerKind::Tls,
            }),
{
    assert forall|i: int| 0 <= i < addrs.len() implies planned(addrs, plain_port, tls_port)[2 * i]
        == (ListenerPlanView {
        address: addrs[i],
        port: plain_port,
        kind: ListenerKind::PlainRedirect,
    }) && planned(addrs, plain_port, tls_port)[2 * i + 1] == (ListenerPlanView {
        address: addrs[i],
        port: tls_port,
        kind: ListenerKind::Tls,
    }) by {
        assert((2 * i) % 2 == 0 && (2 * i) / 2 == i) by (nonlinear_arith);
        assert((2 * i + 1) % 2 == 1 && (2 * i + 1) / 2 == i) by (nonlinear_arith);
    }
}

/// The scheme prefix of every redirect target: the bytes of "https://".
pub open spec fn https_prefix() -> Seq<u8> {
    seq![
        'h' as u8,
        't' as u8,
        't' as u8,
        'p' as u8,
        's' as u8,
        ':' as u8,
        '/' as u8,
        '/' as u8,
    ]
}

/// The redirect target for `domain`: the bytes of
/// `https://<domain>[:<tls_port>]`, with the port segment omitted
/// exactly when `tls_port` is the scheme default 443.
pub open spec fn redirect_target_spec(domain: Seq<u8>, tls_port: u16) -> Seq<u8> {
    if tls_port == 443 {
        https_prefix() + domain
    } else {
        https_prefix() + domain + seq![':' as u8] + dec_digits(tls_port as nat)
    }
}

/// Builds the permanent-redirect target the plaintext listeners answer
/// with: `https://<domain>`, with `:<tls_port>` appended only when the
/// TLS port is not 443.
pub fn redirect_target(domain: &Vec<u8>, tls_port: u16) -> (r: Vec<u8>)
    ensures
        r@ == redirect_target_spec(domain@, tls_port),
{
    let mut r: Vec<u8> = Vec::new();
    r.push('h' as u8);
    r.push('t' as u8);
    r.push('t' as u8);
    r.push('p' as u8);
    r.push('s' as u8);
    r.push(':' as u8);
    r.push('/' as u8);
    r.push('/' as u8);
    proof {
        assert(r@ =~= https_prefix());
    }
    append_bytes(&mut r, domain);
    if tls_port != 443 {
        r.push(':' as u8);
        let digits = u16_to_decimal(tls_port);
        append_bytes(&mut r, &digits);
        proof {
            assert(r@ =~= redirect_target_spec(domain@, tls_port));
        }
    }
    proof {
        assert(r@ =~= redirect_target_spec(domain@, tls_port));
    }
    r
}

/// The application-layer protocols every TLS listener advertises, in
/// order: the bytes of "h2", then of "http/1.1".
pub open spec fn alpn_spec() -> Seq<Seq<u8>> {
    seq![
        seq!['h' as u8, '2' as u8],
        seq![
            'h' as u8,
            't' as u8,
            't' as u8,
            'p' as u8,
            '/' as u8,
            '1' as u8,
            '.' as u8,
            '1' as u8,
        ],
    ]
}

/// The application-layer protocol list for the TLS configuration:
/// "h2" then "http/1.1".
pub fn alpn_protocols() -> (r: Vec<Vec<u8>>)
    ensures
        byte_views(r@) == alpn_spec(),
{
    let mut h2: Vec<u8> = Vec::new();
    h2.push('h' as u8);
    h2.push('2' as u8);
    let mut http11: Vec<u8> = Vec::new();
    http11.push('h' as u8);
    http11.push('t' as u8);
    http11.push('t' as u8);
    http11.push('p' as u8);
    http11.push('/' as u8);
    http11.push('1' as u8);
    http11.push('.' as u8);
    http11.push('1' as u8);
    proof {
        assert(h2@ =~= alpn_spec()[0]);
        assert(http11@ =~= alpn_spec()[1]);
    }
    let mut r: Vec<Vec<u8>> = Vec::new();
    r.push(h2);
    r.push(http11);
    proof {
        assert(byte_views(r@) =~= alpn_spec());
    }
    r
}

} // verus!
