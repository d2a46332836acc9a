use herdogrelay::enrollment::EnrollmentError;
use herdogrelay::error::RelayError;
use herdogrelay::pki::{
    app_id_from_csr, current_epoch_seconds, epoch_seconds_of, finish_issuance,
    first_certificate_valid_at, first_pem_certificate, issue_certificate, issue_core_certificate,
    leaf_profile, plan_signing, request_identity, validate_device_intermediate_chain,
    IssuerMaterial, SecurityPaths,
};
use herdogrelay::quic_server::trust::{
    load_certificates, load_certificates_from_bytes, load_private_key, peer_certificate_fingerprint,
};
use herdogrelay::random::{challenge_from, epoch_from, fresh_challenge, fresh_epoch};
use rcgen::{
    date_time_ymd, BasicConstraints, CertificateParams, CertifiedIssuer, DnType, IsCa, KeyPair,
    KeyUsagePurpose,
};

fn authority(name: &str) -> CertificateParams {
    let mut params = CertificateParams::new(Vec::<String>::new()).expect("params");
    params.distinguished_name.push(DnType::CommonName, name);
    params.is_ca = IsCa::Ca(BasicConstraints::Unconstrained);
    params.key_usages = vec![KeyUsagePurpose::KeyCertSign, KeyUsagePurpose::DigitalSignature];
    params
}

fn root(name: &str) -> CertifiedIssuer<'static, KeyPair> {
    CertifiedIssuer::self_signed(authority(name), KeyPair::generate().expect("root key"))
        .expect("root")
}

fn csr(name: &str) -> Vec<u8> {
    let key = KeyPair::generate().expect("key");
    let mut params = CertificateParams::new(Vec::<String>::new()).expect("params");
    params.distinguished_name.push(DnType::CommonName, name);
    params.serialize_request(&key).expect("csr").der().to_vec()
}

fn material(issuer: &CertifiedIssuer<'static, KeyPair>) -> IssuerMaterial {
    let key = KeyPair::generate().expect("intermediate key");
    let certificate =
        authority("device-intermediate").signed_by(&key, issuer).expect("intermediate");
    IssuerMaterial {
        intermediate_certificate: certificate.pem().into_bytes(),
        intermediate_key: key.serialize_pem().into_bytes(),
        root_certificate: issuer.pem().into_bytes(),
    }
}

#[test]
fn csr_identity_is_bound() {
    let request = csr("app-a");
    assert_eq!(app_id_from_csr(&request).expect("identity"), "app-a");
    assert!(request_identity(Ok(request.len()), "app-a", &request, 2).is_ok());
    assert_eq!(
        request_identity(Ok(request.len()), "app-b", &request, 2),
        Err(EnrollmentError::CsrMismatch)
    );
}

#[test]
fn malformed_requests_are_refused() {
    assert!(app_id_from_csr(b"not a request").is_err());
    assert_eq!(
        request_identity(Ok(13), "app-a", b"not a request", 2),
        Err(EnrollmentError::InvalidCsr)
    );
    let mut forged = csr("app-a");
    let last = forged.len() - 1;
    forged[last] ^= 1;
    assert_eq!(
        request_identity(Ok(forged.len()), "app-a", &forged, 2),
        Err(EnrollmentError::InvalidCsr)
    );
    let request = csr("app-a");
    assert_eq!(
        request_identity(Ok(request.len()), "app-a", &request, 0),
        Err(EnrollmentError::InvalidGeneration)
    );
    assert_eq!(
        request_identity(Err(EnrollmentError::InvalidMetadata), "app-a", &request, 2),
        Err(EnrollmentError::InvalidMetadata)
    );
}

#[test]
fn identities_follow_the_key() {
    let first = csr("app-a");
    let second = csr("app-a");
    let one = request_identity(Ok(first.len()), "app-a", &first, 2).expect("identity");
    let again = request_identity(Ok(first.len()), "app-a", &first, 9).expect("identity");
    let other = request_identity(Ok(second.len()), "app-a", &second, 2).expect("identity");
    assert_eq!(one, again);
    assert_ne!(one, other);
}

#[test]
fn protected_material_can_issue_leaf() {
    let issuer = root("deployment-root");
    let mut files = material(&issuer);
    let request = csr("app-a");
    let issued = issue_certificate(Ok(request.len()), "app-a", &request, 2, Some(&files))
        .expect("issued");
    assert_eq!(issued.certificate_chain().len(), 2);

    // A different authority is well formed but did not sign this intermediate.
    files.root_certificate = root("unrelated-root").pem().into_bytes();
    assert!(
        issue_certificate(Ok(request.len()), "app-a", &request, 2, Some(&files)).is_err()
    );
}

#[test]
fn issued_leaf_describes_the_request() {
    let issuer = root("deployment-root");
    let files = material(&issuer);
    let request = csr("app-a");
    let issued = issue_certificate(Ok(request.len()), "app-a", &request, 2, Some(&files))
        .expect("issued");
    let chain = issued.certificate_chain();
    assert_eq!(
        peer_certificate_fingerprint(Some(&chain)).expect("fingerprint"),
        issued.fingerprint()
    );
    assert_eq!(
        issued.app_identity(),
        request_identity(Ok(request.len()), "app-a", &request, 2).expect("identity")
    );
    assert_eq!(
        chain[1],
        first_pem_certificate(&files.intermediate_certificate).expect("intermediate")
    );
    assert_ne!(issued.serial(), 0);
    let metadata = issued.metadata("app-a".to_owned(), 2);
    assert_eq!(
        metadata.not_after_epoch_seconds - metadata.not_before_epoch_seconds,
        7_776_060
    );
    assert_eq!(metadata.not_after_epoch_seconds, issued.not_after_epoch_seconds());
    assert_eq!(metadata.fingerprint, issued.fingerprint());
}

#[test]
fn issued_leaf_is_a_client_of_its_issuer() {
    let issuer = root("deployment-root");
    let files = material(&issuer);
    let request = csr("app-a");
    let issued = issue_certificate(Ok(request.len()), "app-a", &request, 2, Some(&files))
        .expect("issued");
    let chain = issued.certificate_chain();
    let (_, leaf) = x509_parser::parse_x509_certificate(&chain[0]).expect("leaf");
    let (_, above) = x509_parser::parse_x509_certificate(&chain[1]).expect("intermediate");
    let names: Vec<&str> = leaf
        .subject()
        .iter_common_name()
        .map(|name| name.as_str().expect("text"))
        .collect();
    assert_eq!(names, vec!["app-a"]);
    assert_eq!(leaf.issuer(), above.subject());
    assert!(leaf.verify_signature(Some(above.public_key())).is_ok());
    assert!(!leaf.is_ca());
    let usage = leaf.key_usage().expect("usage").expect("usage").value;
    assert!(usage.digital_signature() && !usage.key_cert_sign());
    let purpose = leaf.extended_key_usage().expect("purpose").expect("purpose").value;
    assert!(purpose.client_auth && !purpose.server_auth && !purpose.any);
    let metadata = issued.metadata("app-a".to_owned(), 2);
    let not_before = leaf.validity().not_before.timestamp();
    assert_eq!(u64::try_from(not_before).expect("start"), metadata.not_before_epoch_seconds);
    let not_after = leaf.validity().not_after.timestamp();
    assert_eq!(u64::try_from(not_after).expect("end"), metadata.not_after_epoch_seconds);
}

#[test]
fn core_certificate_is_named_by_its_request() {
    let issuer = root("deployment-root");
    let files = material(&issuer);
    let request = csr("core-1");
    let issued =
        issue_core_certificate(Ok(request.len()), &request, Some(&files)).expect("issued");
    assert_eq!(issued.certificate_chain().len(), 2);
    assert!(issue_core_certificate(Ok(3), b"xyz", Some(&files)).is_err());
}

#[test]
fn missing_or_foreign_material_issues_nothing() {
    let issuer = root("deployment-root");
    let request = csr("app-a");
    assert!(issue_certificate(Ok(request.len()), "app-a", &request, 2, None).is_err());
    let mut files = material(&issuer);
    files.intermediate_key = KeyPair::generate().expect("other key").serialize_pem().into_bytes();
    assert!(
        issue_certificate(Ok(request.len()), "app-a", &request, 2, Some(&files)).is_err()
    );
    let mut garbled = material(&issuer);
    garbled.intermediate_key = vec![0xff, 0xfe];
    assert!(
        issue_certificate(Ok(request.len()), "app-a", &request, 2, Some(&garbled)).is_err()
    );
}

#[test]
fn expired_material_signs_nothing() {
    let issuer = root("deployment-root");
    let files = material(&issuer);
    let request = csr("app-a");
    assert!(plan_signing(Ok(request.len()), "app-a", &request, 2, Some(&files), true, true).is_ok());
    assert!(
        plan_signing(Ok(request.len()), "app-a", &request, 2, Some(&files), false, true).is_err()
    );
    assert!(
        plan_signing(Ok(request.len()), "app-a", &request, 2, Some(&files), true, false).is_err()
    );
}

#[test]
fn device_chain_is_checked() {
    let issuer = root("deployment-root");
    let files = material(&issuer);
    let intermediate = first_pem_certificate(&files.intermediate_certificate).expect("certificate");
    let anchor = first_pem_certificate(&files.root_certificate).expect("certificate");
    assert!(validate_device_intermediate_chain(&intermediate, &anchor, true, true).is_ok());
    assert_eq!(
        validate_device_intermediate_chain(&anchor, &intermediate, true, true),
        Err(EnrollmentError::InvalidMetadata)
    );
    let leaf = rcgen::generate_simple_self_signed(vec!["leaf".to_owned()]).expect("leaf");
    assert!(validate_device_intermediate_chain(leaf.cert.der(), &anchor, true, true).is_err());
}

#[test]
fn leaf_profile_states_the_validity() {
    let profile = leaf_profile("app-a", 1000).expect("profile");
    assert_eq!(profile.common_name, "app-a");
    assert_eq!(profile.not_before, 940);
    assert_eq!(profile.not_after, 7_777_000);
    assert!(matches!(leaf_profile("app-a", 59), Err(EnrollmentError::InvalidMetadata)));
    assert!(leaf_profile("app-a", u64::MAX).is_err());
}

#[test]
fn issuance_ends_with_its_digest() {
    let issued = finish_issuance(Some(b"abc".to_vec()), vec![9], [7; 32], 1000, 5, 5)
        .expect("issued");
    assert_eq!(issued.serial(), 0xba78_16bf_8f01_cfea);
    assert_eq!(issued.not_after_epoch_seconds(), 7_777_000);
    assert!(finish_issuance(None, vec![9], [7; 32], 1000, 5, 5).is_err());
    assert!(finish_issuance(Some(b"abc".to_vec()), vec![9], [7; 32], 1000, 4, 5).is_err());
}

#[test]
fn pem_files_are_read() {
    let issuer = root("deployment-root");
    let files = material(&issuer);
    let chain = load_certificates_from_bytes(&files.intermediate_certificate, "chain")
        .expect("certificates");
    assert_eq!(chain.len(), 1);
    assert!(load_certificates_from_bytes(b"", "chain").expect("no certificate").is_empty());
    let broken = b"-----BEGIN CERTIFICATE-----\n*\n-----END CERTIFICATE-----\n";
    assert!(load_certificates_from_bytes(broken, "chain").is_err());
    assert_eq!(first_pem_certificate(b"nothing"), Err(EnrollmentError::InvalidMetadata));
    let key = load_private_key(&Ok(files.intermediate_key.clone())).expect("key");
    assert!(!key.der.is_empty());
    let refused = |reason: &'static str| RelayError::TlsConfiguration { reason };
    assert_eq!(
        load_private_key(&Ok(vec![])).err(),
        Some(refused("private-key PEM is empty"))
    );
    assert_eq!(
        load_private_key(&Err(RelayError::ConfigurationRead)).err(),
        Some(refused("private-key material is unsafe"))
    );
    assert_eq!(load_certificates(&Ok(files.intermediate_certificate.clone())), Ok(chain));
    assert_eq!(
        load_certificates(&Ok(broken.to_vec())),
        Err(refused("certificate PEM is invalid"))
    );
    assert_eq!(
        load_certificates(&Err(RelayError::ConfigurationRead)),
        Err(refused("certificate material is unsafe"))
    );
}

#[test]
fn clocks_and_chance_are_used() {
    assert!(current_epoch_seconds().expect("clock") > 1_700_000_000);
    assert_eq!(epoch_seconds_of(Some(3)), Ok(3));
    assert_eq!(epoch_seconds_of(None), Err(EnrollmentError::InvalidMetadata));
    assert_ne!(fresh_challenge(), fresh_challenge());
    assert_ne!(fresh_epoch(), 0);
    let mut drawn = [0_u8; 32];
    assert_ne!(epoch_from(&drawn), 0);
    assert_ne!(challenge_from(drawn), [0; 32]);
    drawn[7] = 5;
    assert_eq!(epoch_from(&drawn), 5);
    assert_eq!(challenge_from([3; 32]), [3; 32]);
}

#[test]
fn certificates_are_in_force_between_their_bounds() {
    let mut params = authority("bounded-root");
    params.not_before = date_time_ymd(2020, 1, 1);
    params.not_after = date_time_ymd(2030, 1, 1);
    let key = KeyPair::generate().expect("key");
    let pem = params.self_signed(&key).expect("certificate").pem().into_bytes();
    let second: i128 = 1_000_000_000;
    let start = 1_577_836_800 * second;
    let end = 1_893_456_000 * second;
    assert!(!first_certificate_valid_at(&pem, start - 1));
    assert!(first_certificate_valid_at(&pem, start));
    assert!(first_certificate_valid_at(&pem, start + 1));
    assert!(first_certificate_valid_at(&pem, end - 1));
    assert!(first_certificate_valid_at(&pem, end));
    assert!(!first_certificate_valid_at(&pem, end + 1));
    assert!(!first_certificate_valid_at(&pem, i128::MAX));
    assert!(!first_certificate_valid_at(&pem, i128::MIN));
    assert!(!first_certificate_valid_at(b"nothing", start));
}

#[test]
fn expired_material_issues_nothing() {
    let issuer = root("deployment-root");
    let mut params = authority("device-intermediate");
    params.not_after = date_time_ymd(2020, 1, 1);
    let key = KeyPair::generate().expect("intermediate key");
    let certificate = params.signed_by(&key, &issuer).expect("intermediate");
    let files = IssuerMaterial {
        intermediate_certificate: certificate.pem().into_bytes(),
        intermediate_key: key.serialize_pem().into_bytes(),
        root_certificate: issuer.pem().into_bytes(),
    };
    let request = csr("app-a");
    assert_eq!(
        issue_certificate(Ok(request.len()), "app-a", &request, 2, Some(&files)).err(),
        Some(EnrollmentError::InvalidMetadata)
    );
}

#[test]
fn core_certificates_come_from_their_own_issuer() {
    let paths = SecurityPaths {
        device_intermediate_certificate: "/srv/device.pem".to_owned(),
        device_intermediate_key: "/srv/device.key".to_owned(),
        core_intermediate_certificate: "/srv/core.pem".to_owned(),
        core_intermediate_key: "/srv/core.key".to_owned(),
        root_certificate: "/srv/root.pem".to_owned(),
    };
    let core = paths.core_issuer();
    assert_eq!(core.intermediate_certificate, "/srv/core.pem");
    assert_eq!(core.intermediate_key, "/srv/core.key");
    assert_eq!(core.root_certificate, "/srv/root.pem");
    let device = paths.device_issuer();
    assert_eq!(device.intermediate_certificate, "/srv/device.pem");
    assert_eq!(device.intermediate_key, "/srv/device.key");
    assert_eq!(device.root_certificate, "/srv/root.pem");
    let issuer = root("deployment-root");
    let files = material(&issuer);
    let request = csr("core-a");
    let issued = issue_core_certificate(Ok(request.len()), &request, Some(&files)).expect("core");
    let chain = issued.certificate_chain();
    assert_eq!(chain.len(), 2);
    assert_eq!(
        chain[1],
        first_pem_certificate(&files.intermediate_certificate).expect("intermediate")
    );
    assert!(issue_core_certificate(Ok(request.len()), &request, None).is_err());
}
