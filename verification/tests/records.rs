use node_supervisor::addr::{Cidr, Endpoint, Ipv4, ListenConfig, ProbedAddr};
use node_supervisor::filter::FilterReason;
use node_supervisor::record::{build, KeyScheme, NodeIdentity, RecordBuildError};
use node_supervisor::record::verify_record_text;
use node_supervisor::supervisor::{plan_bootstrap, ConfigWarning};

fn listen_9000() -> ListenConfig {
    ListenConfig {
        endpoint: Some(Endpoint { ip: Ipv4::from_octets(127, 0, 0, 1), port: 9000 }),
        cidr: None,
    }
}

fn identity(scheme: KeyScheme, byte: u8) -> NodeIdentity {
    NodeIdentity::new(scheme, vec![byte; 32]).unwrap()
}

#[test]
fn identity_rejects_short_key_material() {
    let r = NodeIdentity::new(KeyScheme::Secp256k1, vec![1u8; 31]);
    assert!(matches!(r, Err(RecordBuildError::WrongKeyLength)));
    let r = NodeIdentity::new(KeyScheme::Ed25519, vec![1u8; 33]);
    assert!(matches!(r, Err(RecordBuildError::WrongKeyLength)));
}

#[test]
fn build_rejects_invalid_secp256k1_scalar() {
    let zero = identity(KeyScheme::Secp256k1, 0);
    let r = build(&zero, &listen_9000());
    assert!(matches!(r, Err(RecordBuildError::KeyRejected)));
    let huge = identity(KeyScheme::Secp256k1, 0xff);
    let r = build(&huge, &listen_9000());
    assert!(matches!(r, Err(RecordBuildError::KeyRejected)));
}

#[test]
fn built_record_self_verifies() {
    for id in [identity(KeyScheme::Secp256k1, 1), identity(KeyScheme::Ed25519, 7)] {
        let rec = build(&id, &listen_9000()).unwrap();
        assert!(verify_record_text(rec.base64_text()));
    }
}

#[test]
fn record_text_rejected_when_tampered() {
    assert!(!verify_record_text("enr:not-a-record"));
    assert!(!verify_record_text(""));
}

#[test]
fn ed25519_build_is_byte_deterministic() {
    let a = build(&identity(KeyScheme::Ed25519, 7), &listen_9000()).unwrap();
    let b = build(&identity(KeyScheme::Ed25519, 7), &listen_9000()).unwrap();
    assert_eq!(a.base64_text(), b.base64_text());
    assert_eq!(a.node_id_text(), b.node_id_text());
}

#[test]
fn secp256k1_build_content_is_deterministic() {
    let a = build(&identity(KeyScheme::Secp256k1, 1), &listen_9000()).unwrap();
    let b = build(&identity(KeyScheme::Secp256k1, 1), &listen_9000()).unwrap();
    assert_eq!(a.node_id_text(), b.node_id_text());
    assert_eq!(a.endpoint(), b.endpoint());
}

#[test]
fn record_declares_the_configured_endpoint() {
    let rec = build(&identity(KeyScheme::Secp256k1, 1), &listen_9000()).unwrap();
    let parsed: discv5::Enr = rec.base64_text().parse().unwrap();
    assert!(parsed.verify());
    assert_eq!(parsed.ip4().unwrap().octets(), [127, 0, 0, 1]);
    assert_eq!(parsed.udp4(), Some(9000));
    assert_eq!(rec.node_id_text(), &format!("{}", parsed.node_id()));
}

#[test]
fn record_without_endpoint_is_private() {
    let cfg = ListenConfig { endpoint: None, cidr: None };
    let rec = build(&identity(KeyScheme::Ed25519, 3), &cfg).unwrap();
    assert_eq!(rec.endpoint(), None);
    let parsed: discv5::Enr = rec.base64_text().parse().unwrap();
    assert_eq!(parsed.ip4(), None);
    assert_eq!(parsed.udp4(), None);
}

#[test]
fn error_messages_are_fixed() {
    assert_eq!(
        RecordBuildError::WrongKeyLength.message(),
        "the signing key must be exactly 32 bytes"
    );
    assert_eq!(
        RecordBuildError::KeyRejected.message(),
        "the bytes do not form a valid signing key"
    );
    assert_eq!(
        RecordBuildError::BuildRejected.message(),
        "the node record could not be assembled and signed"
    );
}

#[test]
fn bootstrap_serves_record_at_configured_endpoint() {
    let plan = plan_bootstrap(&identity(KeyScheme::Secp256k1, 1), &listen_9000(), &None).unwrap();
    assert!(!plan.filter.enabled);
    assert_eq!(plan.filter.reason, FilterReason::NoRange);
    assert!(plan.warnings.is_empty());

    let response = plan.response.clone();
    let text = String::from_utf8(response.clone()).unwrap();
    assert!(text.starts_with("HTTP/1.1 200 OK\r\n"));
    assert!(text.contains("Content-Type: text/plain\r\n"));
    assert!(text.contains("Connection: close\r\n"));
    let body_at = text.find("\r\n\r\n").unwrap() + 4;
    let body = &text[body_at..];
    assert_eq!(body, plan.record.base64_text().as_str());
    let declared_len: usize = text
        .lines()
        .find(|l| l.starts_with("Content-Length: "))
        .unwrap()
        .trim_start_matches("Content-Length: ")
        .parse()
        .unwrap();
    assert_eq!(declared_len, body.len());
    let parsed: discv5::Enr = body.parse().unwrap();
    assert!(parsed.verify());
    assert_eq!(parsed.ip4().unwrap().octets(), [127, 0, 0, 1]);
    assert_eq!(parsed.udp4(), Some(9000));
}

#[test]
fn bootstrap_warns_on_cidr_mismatch_and_still_proceeds() {
    let cfg = ListenConfig {
        endpoint: Some(Endpoint { ip: Ipv4::from_octets(127, 0, 0, 1), port: 9000 }),
        cidr: Some(Cidr { network: Ipv4::from_octets(10, 0, 0, 0), prefix: 8 }),
    };
    let probed = Some(ProbedAddr::V4(Ipv4::from_octets(192, 168, 1, 5)));
    let plan = plan_bootstrap(&identity(KeyScheme::Secp256k1, 1), &cfg, &probed).unwrap();
    assert!(!plan.filter.enabled);
    assert_eq!(plan.filter.reason, FilterReason::LocalOutOfRange);
    assert_eq!(plan.filter.admitted, None);
    assert_eq!(plan.warnings, vec![ConfigWarning::CidrLocalMismatch]);
    assert!(verify_record_text(plan.record.base64_text()));
}

#[test]
fn bootstrap_warns_when_record_not_advertisable() {
    let cfg = ListenConfig { endpoint: None, cidr: None };
    let plan = plan_bootstrap(&identity(KeyScheme::Ed25519, 9), &cfg, &None).unwrap();
    assert_eq!(plan.warnings, vec![ConfigWarning::RecordNotAdvertisable]);
}

#[test]
fn bootstrap_enables_filter_when_local_in_range() {
    let range = Cidr { network: Ipv4::from_octets(10, 0, 0, 0), prefix: 8 };
    let cfg = ListenConfig {
        endpoint: Some(Endpoint { ip: Ipv4::from_octets(127, 0, 0, 1), port: 9000 }),
        cidr: Some(range),
    };
    let probed = Some(ProbedAddr::V4(Ipv4::from_octets(10, 44, 0, 2)));
    let plan = plan_bootstrap(&identity(KeyScheme::Secp256k1, 1), &cfg, &probed).unwrap();
    assert!(plan.filter.enabled);
    assert_eq!(plan.filter.admitted, Some(range));
    assert!(plan.warnings.is_empty());
}

#[test]
fn bootstrap_fails_before_anything_starts_on_bad_key() {
    let r = plan_bootstrap(&identity(KeyScheme::Secp256k1, 0), &listen_9000(), &None);
    assert!(matches!(r, Err(RecordBuildError::KeyRejected)));
}
