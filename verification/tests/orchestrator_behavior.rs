use tailcert::bytes::bytes_eq;
use tailcert::bytes::u16_to_decimal;
use tailcert::orchestrator::alpn_protocols;
use tailcert::orchestrator::plan_listeners;
use tailcert::orchestrator::redirect_target;
use tailcert::orchestrator::select_domain;
use tailcert::orchestrator::ControlPlaneStatus;
use tailcert::orchestrator::ListenerKind;
use tailcert::orchestrator::StartupError;

#[test]
fn select_domain_takes_first_candidate() {
    let status = ControlPlaneStatus {
        cert_domains: vec![b"foo.example".to_vec(), b"other.example".to_vec()],
        addresses: vec![],
    };
    assert_eq!(select_domain(&status), Ok(b"foo.example".to_vec()));
}

#[test]
fn select_domain_fails_without_candidates() {
    let status = ControlPlaneStatus {
        cert_domains: vec![],
        addresses: vec![b"100.64.0.1".to_vec()],
    };
    assert_eq!(select_domain(&status), Err(StartupError::NoCertDomain));
}

#[test]
fn scenario_two_addresses_give_four_listeners() {
    let a1 = b"100.64.0.1".to_vec();
    let a2 = b"fd7a:115c:a1e0::1".to_vec();
    let status = ControlPlaneStatus {
        cert_domains: vec![b"foo.example".to_vec()],
        addresses: vec![a1.clone(), a2.clone()],
    };

    let plans = plan_listeners(&status, 3000, 3443);
    assert_eq!(plans.len(), 4);

    // Two plaintext-redirect listeners and two TLS listeners, at the
    // 2x2 address/port combinations, paired per address.
    assert_eq!(plans[0].address, a1);
    assert_eq!(plans[0].port, 3000);
    assert!(matches!(plans[0].kind, ListenerKind::PlainRedirect));
    assert_eq!(plans[1].address, a1);
    assert_eq!(plans[1].port, 3443);
    assert!(matches!(plans[1].kind, ListenerKind::Tls));
    assert_eq!(plans[2].address, a2);
    assert_eq!(plans[2].port, 3000);
    assert!(matches!(plans[2].kind, ListenerKind::PlainRedirect));
    assert_eq!(plans[3].address, a2);
    assert_eq!(plans[3].port, 3443);
    assert!(matches!(plans[3].kind, ListenerKind::Tls));
}

#[test]
fn no_addresses_give_no_listeners() {
    let status = ControlPlaneStatus {
        cert_domains: vec![b"foo.example".to_vec()],
        addresses: vec![],
    };
    assert!(plan_listeners(&status, 3000, 3443).is_empty());
}

#[test]
fn redirect_omits_port_for_default_tls_port() {
    let target = redirect_target(&b"foo.example".to_vec(), 443);
    assert_eq!(target, b"https://foo.example".to_vec());
}

#[test]
fn redirect_appends_nondefault_tls_port() {
    let target = redirect_target(&b"foo.example".to_vec(), 8443);
    assert_eq!(target, b"https://foo.example:8443".to_vec());

    let target = redirect_target(&b"foo.example".to_vec(), 3443);
    assert_eq!(target, b"https://foo.example:3443".to_vec());
}

#[test]
fn decimal_rendering_is_exact() {
    assert_eq!(u16_to_decimal(0), b"0".to_vec());
    assert_eq!(u16_to_decimal(7), b"7".to_vec());
    assert_eq!(u16_to_decimal(443), b"443".to_vec());
    assert_eq!(u16_to_decimal(3000), b"3000".to_vec());
    assert_eq!(u16_to_decimal(65535), b"65535".to_vec());
}

#[test]
fn alpn_advertises_h2_then_http11() {
    let protocols = alpn_protocols();
    assert_eq!(protocols, vec![b"h2".to_vec(), b"http/1.1".to_vec()]);
}

#[test]
fn byte_equality_is_exact() {
    assert!(bytes_eq(&b"foo.example".to_vec(), &b"foo.example".to_vec()));
    assert!(!bytes_eq(&b"foo.example".to_vec(), &b"foo.exampl".to_vec()));
    assert!(!bytes_eq(&b"foo.example".to_vec(), &b"bar.example".to_vec()));
    assert!(bytes_eq(&Vec::new(), &Vec::new()));
}
