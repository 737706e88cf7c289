use openssl::asn1::Asn1Time;
use openssl::pkcs12::Pkcs12;
use openssl::x509::X509;
use qsync::auth::{
    build_auth_certificate, derive_signing_seed, generate_auth_certificate, issue_certificate,
    read_certificate_fields, verify_auth_certificate,
};
use qsync::error::{AuthError, NameField, ValidityProblem};

fn unix_now() -> i64 {
    std::time::SystemTime::now()
        .duration_since(std::time::UNIX_EPOCH)
        .unwrap()
        .as_secs() as i64
}

fn issued_cert(password: &str, name: &str) -> X509 {
    let der = generate_auth_certificate(password, name).expect("issuance failed");
    let parsed = Pkcs12::from_der(&der).unwrap().parse2("").unwrap();
    assert!(parsed.pkey.is_some());
    parsed.cert.expect("archive holds no certificate")
}

fn entries(name: &openssl::x509::X509NameRef) -> Vec<Vec<u8>> {
    name.entries().map(|e| e.data().as_slice().to_vec()).collect()
}

fn salt_with_top_bit() -> Vec<u8> {
    let mut salt = vec![0x5au8; 64];
    salt[0] = 0x9c;
    salt
}

#[test]
fn issue_then_verify_round_trip() {
    let cert = issued_cert("correct horse", "qsync");
    let serial = cert.serial_number().to_bn().unwrap();
    assert!(serial.num_bytes() >= 8 && serial.num_bytes() <= 64);
    assert_eq!(entries(cert.subject_name()), vec![b"qsync".to_vec()]);
    assert_eq!(entries(cert.issuer_name()), vec![b"qsync".to_vec()]);
    assert_eq!(verify_auth_certificate("correct horse", "qsync", &cert), Ok(()));
}

#[test]
fn issued_window_spans_skew_and_a_year() {
    let before = unix_now();
    let cert = issued_cert("pw", "qsync");
    let after = unix_now();
    let epoch = Asn1Time::from_unix(0).unwrap();
    let secs = |t: &openssl::asn1::Asn1TimeRef| {
        let d = epoch.diff(t).unwrap();
        d.days as i64 * 86400 + d.secs as i64
    };
    let nb = secs(cert.not_before());
    let na = secs(cert.not_after());
    assert!(nb >= before - 300 && nb <= after - 300);
    assert!(na >= before + 366 * 86400 && na <= after + 366 * 86400);
}

#[test]
fn signature_is_not_made_with_subject_key() {
    let cert = issued_cert("pw", "qsync");
    let own_key = cert.public_key().unwrap();
    assert_eq!(cert.verify(&own_key).unwrap(), false);
}

#[test]
fn wrong_secret_is_signature_invalid() {
    let cert = issued_cert("the secret", "qsync");
    assert_eq!(
        verify_auth_certificate("another secret", "qsync", &cert),
        Err(AuthError::SignatureInvalid)
    );
}

#[test]
fn wrong_identity_is_name_mismatch() {
    let cert = issued_cert("the secret", "qsync");
    assert_eq!(
        verify_auth_certificate("the secret", "other", &cert),
        Err(AuthError::NameMismatch(NameField::Issuer))
    );
}

#[test]
fn expired_certificate_rejected() {
    let now = unix_now();
    let cert = build_auth_certificate(
        "pw",
        "qsync",
        &salt_with_top_bit(),
        now - 400 * 86400,
        now - 86400,
    )
    .unwrap()
    .cert;
    assert_eq!(
        verify_auth_certificate("pw", "qsync", &cert),
        Err(AuthError::ValidityWindowViolation(ValidityProblem::Expired))
    );
}

#[test]
fn not_yet_valid_certificate_rejected() {
    let now = unix_now();
    let cert = build_auth_certificate(
        "pw",
        "qsync",
        &salt_with_top_bit(),
        now + 86400,
        now + 400 * 86400,
    )
    .unwrap()
    .cert;
    assert_eq!(
        verify_auth_certificate("pw", "qsync", &cert),
        Err(AuthError::ValidityWindowViolation(ValidityProblem::NotYetValid))
    );
}

#[test]
fn oversized_serial_rejected() {
    let now = unix_now();
    let mut salt = vec![0x11u8; 65];
    salt[0] = 0x01;
    let cert =
        build_auth_certificate("pw", "qsync", &salt, now - 300, now + 86400).unwrap().cert;
    assert_eq!(
        verify_auth_certificate("pw", "qsync", &cert),
        Err(AuthError::SerialNumberSizeInvalid)
    );
}

#[test]
fn short_serial_rejected() {
    let now = unix_now();
    let salt = vec![0x7fu8, 1, 2, 3, 4, 5, 6, 7];
    let cert =
        build_auth_certificate("pw", "qsync", &salt, now - 300, now + 86400).unwrap().cert;
    assert_eq!(
        verify_auth_certificate("pw", "qsync", &cert),
        Err(AuthError::SerialNumberSizeInvalid)
    );
}

#[test]
fn sixty_four_bit_serial_accepted() {
    let now = unix_now();
    let mut salt = vec![0u8; 56];
    salt.extend_from_slice(&[0x80, 1, 2, 3, 4, 5, 6, 7]);
    let cert =
        build_auth_certificate("pw", "qsync", &salt, now - 300, now + 86400).unwrap().cert;
    assert_eq!(verify_auth_certificate("pw", "qsync", &cert), Ok(()));
}

#[test]
fn short_salt_passes_size_check_but_not_signature() {
    let now = unix_now();
    let salt = vec![0x80u8, 1, 2, 3, 4, 5, 6, 7];
    let cert =
        build_auth_certificate("pw", "qsync", &salt, now - 300, now + 86400).unwrap().cert;
    assert_eq!(
        verify_auth_certificate("pw", "qsync", &cert),
        Err(AuthError::SignatureInvalid)
    );
}

#[test]
fn leading_zero_salt_round_trips() {
    let now = unix_now();
    let mut salt = salt_with_top_bit();
    salt[0] = 0;
    salt[1] = 0;
    let cert =
        build_auth_certificate("pw", "qsync", &salt, now - 300, now + 86400).unwrap().cert;
    assert_eq!(verify_auth_certificate("pw", "qsync", &cert), Ok(()));
    assert_eq!(
        verify_auth_certificate("wrong", "qsync", &cert),
        Err(AuthError::SignatureInvalid)
    );
}

#[test]
fn hunter2_scenario() {
    let cert = issued_cert("hunter2", "qsync");
    assert_eq!(verify_auth_certificate("hunter2", "qsync", &cert), Ok(()));
    assert_eq!(
        verify_auth_certificate("wrong", "qsync", &cert),
        Err(AuthError::SignatureInvalid)
    );
}

#[test]
fn two_issuances_differ_in_serial() {
    let a = issued_cert("pw", "qsync");
    let b = issued_cert("pw", "qsync");
    let sa = a.serial_number().to_bn().unwrap().to_vec();
    let sb = b.serial_number().to_bn().unwrap().to_vec();
    assert_ne!(sa, sb);
}

#[test]
fn derivation_is_deterministic() {
    let salt = salt_with_top_bit();
    let a = derive_signing_seed("secret", &salt).unwrap();
    let b = derive_signing_seed("secret", &salt).unwrap();
    assert_eq!(a.len(), 57);
    assert_eq!(a, b);
    assert_ne!(a, b"secret".to_vec());
}

#[test]
fn derivation_matches_pbkdf2_hmac_sha512() {
    let salt = salt_with_top_bit();
    let mut expected = [0u8; 57];
    openssl::pkcs5::pbkdf2_hmac(
        b"secret",
        &salt,
        15000,
        openssl::hash::MessageDigest::sha512(),
        &mut expected,
    )
    .unwrap();
    assert_eq!(derive_signing_seed("secret", &salt).unwrap(), expected.to_vec());
}

#[test]
fn derivation_separates_secrets() {
    let salt = salt_with_top_bit();
    let mut seen: Vec<Vec<u8>> = Vec::new();
    for i in 0..24 {
        let secret = format!("secret-{}", i);
        let seed = derive_signing_seed(&secret, &salt).unwrap();
        assert!(!seen.contains(&seed));
        seen.push(seed);
    }
}

#[test]
fn derivation_depends_on_salt() {
    let mut other = salt_with_top_bit();
    other[63] ^= 1;
    let a = derive_signing_seed("secret", &salt_with_top_bit()).unwrap();
    let b = derive_signing_seed("secret", &other).unwrap();
    assert_ne!(a, b);
}

#[test]
fn built_certificate_reads_back_its_fields() {
    let salt = salt_with_top_bit();
    let issued = build_auth_certificate("pw", "qsync", &salt, 1_000_000, 2_000_000).unwrap();
    assert_eq!(issued.fields.serial, salt);
    assert_eq!(issued.fields.not_before, 1_000_000);
    assert_eq!(issued.fields.not_after, 2_000_000);
    assert_eq!(issued.fields.issuer, vec![b"qsync".to_vec()]);
    assert_eq!(issued.fields.subject, vec![b"qsync".to_vec()]);
    let again = read_certificate_fields(&issued.cert).unwrap();
    assert_eq!(again.serial, salt);
    assert_eq!(again.not_after, 2_000_000);
}

#[test]
fn issue_certificate_sets_window_around_now() {
    let now = unix_now();
    let issued = issue_certificate("pw", "qsync", &salt_with_top_bit(), now).unwrap();
    assert_eq!(issued.fields.not_before, now - 300);
    assert_eq!(issued.fields.not_after, now + 366 * 86400);
    assert_eq!(verify_auth_certificate("pw", "qsync", &issued.cert), Ok(()));
}

#[test]
fn issue_certificate_refuses_weak_salt() {
    let now = unix_now();
    let mut weak = vec![0u8; 64];
    weak[63] = 1;
    assert!(matches!(
        issue_certificate("pw", "qsync", &weak, now),
        Err(AuthError::CertificateBuildFailure)
    ));
    assert!(matches!(
        issue_certificate("pw", "qsync", &[0x80u8; 8], now),
        Err(AuthError::CertificateBuildFailure)
    ));
    assert!(matches!(
        issue_certificate("pw", "qsync", &salt_with_top_bit(), i64::MAX),
        Err(AuthError::TimeComputationFailure)
    ));
}

#[test]
fn name_with_nul_is_refused() {
    assert_eq!(
        generate_auth_certificate("pw", "qs\0ync"),
        Err(AuthError::CertificateBuildFailure)
    );
}
