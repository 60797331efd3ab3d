use tunnel::{
    after_attempt, IpAddress, LoopAction, LoopPolicy, SessionError, SessionSetup, SetupEvent,
    SetupStep, SignatureScheme, SocketAddress, Verifier, VerifierPolicy,
};

fn peer() -> SocketAddress {
    SocketAddress { ip: IpAddress::V4(127, 0, 0, 1), port: 40000 }
}

fn attempt(events: &[SetupEvent], hostname: &str) -> SessionSetup {
    let mut s = SessionSetup::new();
    for e in events {
        s.on_event(*e, hostname);
    }
    s
}

#[test]
fn strict_verifier_rejects_untrusted_certificate() {
    let v = Verifier::strict();
    assert_eq!(v.policy, VerifierPolicy::Strict);
    assert!(v.consults_trust_store());
    assert!(!v.verify_server_cert(false));
    assert!(v.verify_server_cert(true));
    assert!(!v.verify_tls12_signature(false));
    assert!(!v.verify_tls13_signature(false));
    assert!(v.verify_tls13_signature(true));
    assert_eq!(v.supported_verify_schemes(), None);
}

#[test]
fn permissive_verifier_accepts_everything() {
    let v = Verifier::permissive();
    assert!(!v.consults_trust_store());
    assert!(v.verify_server_cert(false));
    assert!(v.verify_tls12_signature(false));
    assert!(v.verify_tls13_signature(false));
    assert_eq!(
        v.supported_verify_schemes(),
        Some(vec![
            SignatureScheme::Ed25519,
            SignatureScheme::RsaPssSha256,
            SignatureScheme::RsaPssSha384,
            SignatureScheme::RsaPssSha512,
            SignatureScheme::EcdsaNistp256Sha256,
            SignatureScheme::EcdsaNistp384Sha384,
            SignatureScheme::EcdsaNistp521Sha512,
        ])
    );
}

#[test]
fn established_session_reports_peer() {
    let s = attempt(
        &[SetupEvent::Accepted(peer()), SetupEvent::Connected, SetupEvent::HandshakeDone],
        "svc.internal",
    );
    assert_eq!(s.step(), SetupStep::Established);
    match s.outcome() {
        Some(Ok(meta)) => assert_eq!(meta.get_peer_addr(), peer()),
        _ => panic!("session should be established"),
    }
}

#[test]
fn ip_address_is_a_server_name() {
    let s = attempt(&[SetupEvent::Accepted(peer()), SetupEvent::Connected], "127.0.0.1");
    assert_eq!(s.step(), SetupStep::Handshaking);
    assert!(s.outcome().is_none());
}

#[test]
fn invalid_identity_fails_the_attempt() {
    let s = attempt(&[SetupEvent::Accepted(peer()), SetupEvent::Connected], "not a host!");
    assert_eq!(s.step(), SetupStep::Failed(SessionError::InvalidServerName));
    assert_eq!(s.outcome(), Some(Err(SessionError::InvalidServerName)));
}

#[test]
fn each_failure_has_its_error() {
    assert_eq!(
        attempt(&[SetupEvent::AcceptFailed], "svc.internal").outcome(),
        Some(Err(SessionError::Accept))
    );
    assert_eq!(
        attempt(&[SetupEvent::Accepted(peer()), SetupEvent::ConnectFailed], "svc.internal")
            .outcome(),
        Some(Err(SessionError::UpstreamConnect))
    );
    assert_eq!(
        attempt(
            &[SetupEvent::Accepted(peer()), SetupEvent::Connected, SetupEvent::HandshakeFailed],
            "svc.internal"
        )
        .outcome(),
        Some(Err(SessionError::TlsHandshake))
    );
}

#[test]
fn advance_takes_the_name_check_as_given() {
    let mut s = SessionSetup::new();
    s.advance(SetupEvent::Accepted(peer()), false);
    assert_eq!(s.step(), SetupStep::Connecting);
    s.advance(SetupEvent::Connected, false);
    assert_eq!(s.step(), SetupStep::Failed(SessionError::InvalidServerName));
    let mut t = SessionSetup::new();
    t.advance(SetupEvent::Accepted(peer()), true);
    t.advance(SetupEvent::Connected, true);
    assert_eq!(t.step(), SetupStep::Handshaking);
}

#[test]
fn refusals_then_success_keep_the_loop_alive() {
    let n = 3;
    for _ in 0..n {
        let s = attempt(&[SetupEvent::Accepted(peer()), SetupEvent::ConnectFailed], "svc.internal");
        assert_eq!(s.outcome(), Some(Err(SessionError::UpstreamConnect)));
        assert_eq!(after_attempt(LoopPolicy::ContinueOnError, false), LoopAction::Retry);
    }
    let s = attempt(
        &[SetupEvent::Accepted(peer()), SetupEvent::Connected, SetupEvent::HandshakeDone],
        "svc.internal",
    );
    assert!(matches!(s.outcome(), Some(Ok(_))));
    assert_eq!(after_attempt(LoopPolicy::ContinueOnError, true), LoopAction::Spawn);
}

#[test]
fn stop_policy_stops_at_first_failure() {
    assert_eq!(after_attempt(LoopPolicy::StopOnError, false), LoopAction::Stop);
    assert_eq!(after_attempt(LoopPolicy::StopOnError, true), LoopAction::Spawn);
}
