//! Password-derived self-signed certificates: issuing one, and verifying one
//! that a peer presents, both anchored to the same shared secret.
use crate::certificate::{
    carries_issued_fields, check_certificate, is_single_name, issue_validity, issued_window,
    seconds_from_diff, unix_time_from_reading, CertificateFields,
};
use crate::crypto::{
    asn1_time_diff, asn1_time_from_unix, bignum_from_slice, bignum_to_asn1_integer, bignum_to_vec,
    pbkdf2_hmac_sha512, pbkdf2_hmac_sha512_of, pkcs12_build, pkcs12_builder,
    pkcs12_cert_algorithm, pkcs12_key_algorithm, pkcs12_key_iter, pkcs12_mac_iter, pkcs12_to_der,
    pkey_ed448_from_raw_bytes, pkey_generate_ed448, random_bytes, unix_time_now, x509_build,
    x509_builder_new, x509_issuer_entries, x509_name_append_entry, x509_name_build,
    x509_name_builder_new, x509_not_after, x509_not_before, x509_serial_bignum,
    x509_set_issuer_name, x509_set_not_after, x509_set_not_before, x509_set_pubkey,
    x509_set_serial_number, x509_set_subject_name, x509_set_version, x509_sign_without_digest,
    x509_subject_entries, x509_verify,
};
use crate::error::{is_issuance_error, is_verification_error, AuthError};
use crate::serial::{salt_from_serial, same_magnitude, serial_size_valid, SIGNING_SALT_LENGTH};
use openssl::asn1::{Asn1Time, Asn1TimeRef};
use openssl::pkey::{PKey, Private};
use openssl::x509::X509;
use vstd::prelude::*;
use vstd::string::StringSliceAdditionalSpecFns;

verus! {

/// PBKDF2 iteration count used to derive a signing key.
pub const PBKDF_ITERATIONS: usize = 15000;

/// Length of a raw Ed448 private key seed.
pub const ED448_KEYLEN: usize = 57;

/// X.509 version field of issued certificates (zero-based: version 3).
pub const CERT_VERSION: i32 = 2;

/// Raw NID that selects no encryption inside a PKCS#12 archive.
pub const PKCS12_NO_ENCRYPTION: i32 = -1;

/// The signing-key seed for a shared secret and a salt: PBKDF2 with
/// HMAC-SHA512, 15000 iterations, 57 bytes.
pub open spec fn signing_seed(secret: Seq<u8>, salt: Seq<u8>) -> Seq<u8> {
    pbkdf2_hmac_sha512_of(secret, salt, PBKDF_ITERATIONS as nat, ED448_KEYLEN as nat)
}

/// Determinism: two derivations from the same secret and salt give the same
/// seed.
pub proof fn lemma_derivation_deterministic(
    secret: Seq<u8>,
    salt: Seq<u8>,
    first: Seq<u8>,
    second: Seq<u8>,
)
    requires
        first == signing_seed(secret, salt),
        second == signing_seed(secret, salt),
    ensures
        first == second,
{
}

/// Whether a byte string holds a zero byte.
pub fn has_nul(bytes: &[u8]) -> (r: bool)
    ensures
        r == bytes@.contains(0u8),
{
    let mut i: usize = 0;
    while i < bytes.len()
        invariant
            i <= bytes@.len(),
            forall|j: int| 0 <= j < i ==> bytes@[j] != 0u8,
        decreases bytes@.len() - i,
    {
        if bytes[i] == 0 {
            assert(bytes@[i as int] == 0u8);
            return true;
        }
        i = i + 1;
    }
    false
}

/// Derives the 57-byte Ed448 seed of the signing key from the shared secret
/// and the salt. The same inputs always give the same seed.
pub fn derive_signing_seed(password: &str, salt: &[u8]) -> (r: Result<Vec<u8>, AuthError>)
    ensures
        match r {
            Ok(seed) => seed@.len() == ED448_KEYLEN && seed@ == signing_seed(
                password.spec_bytes(),
                salt@,
            ),
            Err(e) => e == AuthError::KeyDerivationFailure,
        },
        password.spec_bytes().len() > i32::MAX || salt@.len() > i32::MAX ==> r
            == Err::<Vec<u8>, AuthError>(AuthError::KeyDerivationFailure),
{
    let pass = password.as_bytes();
    if pass.len() > i32::MAX as usize || salt.len() > i32::MAX as usize {
        return Err(AuthError::KeyDerivationFailure);
    }
    match pbkdf2_hmac_sha512(pass, salt, PBKDF_ITERATIONS, ED448_KEYLEN) {
        Ok(seed) => Ok(seed),
        Err(_) => Err(AuthError::KeyDerivationFailure),
    }
}

/// Derives the Ed448 signing key from the shared secret and the salt.
pub fn generate_signing_key(password: &str, salt: &[u8]) -> (r: Result<PKey<Private>, AuthError>)
    ensures
        r matches Err(e) ==> e == AuthError::KeyDerivationFailure,
        password.spec_bytes().len() > i32::MAX || salt@.len() > i32::MAX ==> r matches Err(
            AuthError::KeyDerivationFailure,
        ),
{
    let seed = derive_signing_seed(password, salt)?;
    match pkey_ed448_from_raw_bytes(seed.as_slice()) {
        Ok(key) => Ok(key),
        Err(_) => Err(AuthError::KeyDerivationFailure),
    }
}

/// An X.509 time read as seconds since the Unix epoch.
fn unix_seconds_of(epoch: &Asn1Time, t: &Asn1TimeRef) -> (r: Result<i64, AuthError>)
    ensures
        r matches Err(e) ==> e == AuthError::TimeComputationFailure,
{
    match asn1_time_diff(epoch, t) {
        Ok((days, secs)) => Ok(seconds_from_diff(days, secs)),
        Err(_) => Err(AuthError::TimeComputationFailure),
    }
}

/// Reads the fields that authentication depends on from a certificate: the
/// serial's magnitude (`SerialNumberSizeInvalid` where it cannot be read), the
/// validity window in seconds since the Unix epoch (`TimeComputationFailure`
/// where it cannot be computed), and the issuer and subject name entries.
pub fn read_certificate_fields(cert: &X509) -> (r: Result<CertificateFields, AuthError>)
    ensures
        r matches Err(e) ==> e == AuthError::SerialNumberSizeInvalid || e
            == AuthError::TimeComputationFailure,
{
    let serial_bn = match x509_serial_bignum(cert) {
        Ok(bn) => bn,
        Err(_) => return Err(AuthError::SerialNumberSizeInvalid),
    };
    let serial = bignum_to_vec(&serial_bn);
    let epoch = match asn1_time_from_unix(0) {
        Ok(t) => t,
        Err(_) => return Err(AuthError::TimeComputationFailure),
    };
    let not_before = unix_seconds_of(&epoch, x509_not_before(cert))?;
    let not_after = unix_seconds_of(&epoch, x509_not_after(cert))?;
    Ok(CertificateFields {
        serial,
        not_before,
        not_after,
        issuer: x509_issuer_entries(cert),
        subject: x509_subject_entries(cert),
    })
}

/// A freshly built certificate, its subject key pair, and the fields read
/// back from it.
pub struct IssuedCertificate {
    pub cert: X509,
    pub subject_key: PKey<Private>,
    pub fields: CertificateFields,
}

/// Builds and signs the certificate for `cert_name` whose serial number is
/// `salt` and whose validity window is [`not_before`, `not_after`] in seconds
/// since the Unix epoch. The subject key pair is freshly generated and
/// returned beside the certificate; the signature is made with the key derived
/// from `password` and `salt`, not with the subject key. The certificate is
/// read back, and returned only if it carries exactly these fields.
pub fn build_auth_certificate(
    password: &str,
    cert_name: &str,
    salt: &[u8],
    not_before: i64,
    not_after: i64,
) -> (r: Result<IssuedCertificate, AuthError>)
    ensures
        r matches Err(e) ==> e == AuthError::CertificateBuildFailure || e
            == AuthError::TimeComputationFailure || e == AuthError::KeyDerivationFailure,
        salt@.len() > i32::MAX || cert_name.spec_bytes().len() > i32::MAX ==> r matches Err(
            AuthError::CertificateBuildFailure,
        ),
        r matches Ok(issued) ==> carries_issued_fields(
            issued.fields@,
            salt@,
            not_before as int,
            not_after as int,
            cert_name.spec_bytes(),
        ),
{
    if salt.len() > i32::MAX as usize || cert_name.as_bytes().len() > i32::MAX as usize {
        return Err(AuthError::CertificateBuildFailure);
    }
    let serial = match bignum_from_slice(salt) {
        Ok(bn) => bn,
        Err(_) => return Err(AuthError::CertificateBuildFailure),
    };
    let serial_number = match bignum_to_asn1_integer(&serial) {
        Ok(sn) => sn,
        Err(_) => return Err(AuthError::CertificateBuildFailure),
    };
    let mut builder = match x509_builder_new() {
        Ok(b) => b,
        Err(_) => return Err(AuthError::CertificateBuildFailure),
    };
    if x509_set_version(&mut builder, CERT_VERSION).is_err() {
        return Err(AuthError::CertificateBuildFailure);
    }
    if x509_set_serial_number(&mut builder, &serial_number).is_err() {
        return Err(AuthError::CertificateBuildFailure);
    }
    let end = match asn1_time_from_unix(not_after) {
        Ok(t) => t,
        Err(_) => return Err(AuthError::TimeComputationFailure),
    };
    if x509_set_not_after(&mut builder, &end).is_err() {
        return Err(AuthError::CertificateBuildFailure);
    }
    let start = match asn1_time_from_unix(not_before) {
        Ok(t) => t,
        Err(_) => return Err(AuthError::TimeComputationFailure),
    };
    if x509_set_not_before(&mut builder, &start).is_err() {
        return Err(AuthError::CertificateBuildFailure);
    }
    let subject_key = match pkey_generate_ed448() {
        Ok(k) => k,
        Err(_) => return Err(AuthError::CertificateBuildFailure),
    };
    if x509_set_pubkey(&mut builder, &subject_key).is_err() {
        return Err(AuthError::CertificateBuildFailure);
    }
    let mut name_builder = match x509_name_builder_new() {
        Ok(b) => b,
        Err(_) => return Err(AuthError::CertificateBuildFailure),
    };
    // The identity is the certificate's common name.
    let attribute = "CN";
    if has_nul(attribute.as_bytes()) {
        return Err(AuthError::CertificateBuildFailure);
    }
    if x509_name_append_entry(&mut name_builder, attribute, cert_name).is_err() {
        return Err(AuthError::CertificateBuildFailure);
    }
    let name = x509_name_build(name_builder);
    if x509_set_subject_name(&mut builder, &name).is_err() {
        return Err(AuthError::CertificateBuildFailure);
    }
    if x509_set_issuer_name(&mut builder, &name).is_err() {
        return Err(AuthError::CertificateBuildFailure);
    }
    let signing_key = generate_signing_key(password, salt)?;
    if x509_sign_without_digest(&mut builder, &signing_key).is_err() {
        return Err(AuthError::CertificateBuildFailure);
    }
    let cert = x509_build(builder);
    let fields = match read_certificate_fields(&cert) {
        Ok(f) => f,
        Err(_) => return Err(AuthError::CertificateBuildFailure),
    };
    if !same_magnitude(fields.serial.as_slice(), salt) || fields.not_before != not_before
        || fields.not_after != not_after || !is_single_name(&fields.issuer, cert_name)
        || !is_single_name(&fields.subject, cert_name) {
        return Err(AuthError::CertificateBuildFailure);
    }
    Ok(IssuedCertificate { cert, subject_key, fields })
}

/// Issues the certificate for `cert_name` at time `now` (seconds since the
/// Unix epoch) with serial number `salt`, which must be 64 bytes of at least
/// 64 significant bits (else `CertificateBuildFailure`). Its validity window
/// runs from five minutes before `now` to 366 days after (else
/// `TimeComputationFailure`).
pub fn issue_certificate(password: &str, cert_name: &str, salt: &[u8], now: i64) -> (r: Result<
    IssuedCertificate,
    AuthError,
>)
    ensures
        r matches Err(e) ==> e == AuthError::CertificateBuildFailure || e
            == AuthError::TimeComputationFailure || e == AuthError::KeyDerivationFailure,
        !(salt@.len() == SIGNING_SALT_LENGTH && serial_size_valid(salt@)) ==> r matches Err(
            AuthError::CertificateBuildFailure,
        ),
        salt@.len() == SIGNING_SALT_LENGTH && serial_size_valid(salt@) && (issued_window(
            now as int,
        ).0 < i64::MIN || issued_window(now as int).1 > i64::MAX) ==> r matches Err(
            AuthError::TimeComputationFailure,
        ),
        r matches Ok(issued) ==> salt@.len() == SIGNING_SALT_LENGTH && serial_size_valid(salt@)
            && carries_issued_fields(
            issued.fields@,
            salt@,
            issued_window(now as int).0,
            issued_window(now as int).1,
            cert_name.spec_bytes(),
        ),
{
    if salt.len() != SIGNING_SALT_LENGTH || salt_from_serial(salt).is_err() {
        return Err(AuthError::CertificateBuildFailure);
    }
    let (not_before, not_after) = issue_validity(now)?;
    build_auth_certificate(password, cert_name, salt, not_before, not_after)
}

/// Most salts drawn before issuance gives up on the random source.
pub const SALT_DRAWS: usize = 8;

/// Issues a certificate for `cert_name` anchored to `password`, packaged with
/// its subject private key as a DER-encoded PKCS#12 archive that has an empty
/// passphrase and no encryption. The archive must stay in memory.
///
/// A name holding a zero byte or longer than `i32::MAX` bytes is refused with
/// `CertificateBuildFailure` before anything else. The serial number is a fresh
/// 64-byte random salt of at least 64 significant bits (drawn again where it
/// falls short, `RandomnessFailure` after `SALT_DRAWS` draws); the certificate
/// is then made by `issue_certificate` at the current time.
pub fn generate_auth_certificate(password: &str, cert_name: &str) -> (r: Result<Vec<u8>, AuthError>)
    ensures
        r matches Err(e) ==> is_issuance_error(e),
        cert_name.spec_bytes().contains(0u8) || cert_name.spec_bytes().len() > i32::MAX ==> r
            == Err::<Vec<u8>, AuthError>(AuthError::CertificateBuildFailure),
{
    if has_nul(cert_name.as_bytes()) || cert_name.as_bytes().len() > i32::MAX as usize {
        return Err(AuthError::CertificateBuildFailure);
    }
    let mut draws: usize = 0;
    let mut salt: Vec<u8> = Vec::new();
    let mut drawn = false;
    while !drawn && draws < SALT_DRAWS
        invariant
            draws <= SALT_DRAWS,
            !cert_name.spec_bytes().contains(0u8),
            cert_name.spec_bytes().len() <= i32::MAX,
        decreases SALT_DRAWS - draws,
    {
        salt = match random_bytes(SIGNING_SALT_LENGTH) {
            Ok(bytes) => bytes,
            Err(_) => return Err(AuthError::RandomnessFailure),
        };
        drawn = salt_from_serial(salt.as_slice()).is_ok();
        draws = draws + 1;
    }
    if !drawn {
        return Err(AuthError::RandomnessFailure);
    }
    let now = unix_time_from_reading(unix_time_now())?;
    let issued = issue_certificate(password, cert_name, salt.as_slice(), now)?;
    let passphrase = "";
    if has_nul(passphrase.as_bytes()) || passphrase.as_bytes().len() > i32::MAX as usize {
        return Err(AuthError::CertificateBuildFailure);
    }
    let mut archive = pkcs12_builder();
    pkcs12_key_algorithm(&mut archive, PKCS12_NO_ENCRYPTION);
    pkcs12_cert_algorithm(&mut archive, PKCS12_NO_ENCRYPTION);
    pkcs12_key_iter(&mut archive, 0);
    pkcs12_mac_iter(&mut archive, 0);
    let pkcs12 = match pkcs12_build(
        archive,
        passphrase,
        cert_name,
        &issued.subject_key,
        &issued.cert,
    ) {
        Ok(p) => p,
        Err(_) => return Err(AuthError::CertificateBuildFailure),
    };
    match pkcs12_to_der(&pkcs12) {
        Ok(der) => Ok(der),
        Err(_) => Err(AuthError::CertificateBuildFailure),
    }
}

/// Verifies a certificate presented by a peer against the shared secret and
/// the expected identity.
///
/// The serial number is read back as the salt (between 64 bits and 64 bytes,
/// else `SerialNumberSizeInvalid` before any key derivation); the signing key
/// is derived from `password` and that salt; then the validity window, the
/// issuer and subject names (one entry each, equal to `cert_name`) and the
/// signature under the derived key are checked, in that order, as
/// `check_certificate` states.
pub fn verify_auth_certificate(password: &str, cert_name: &str, cert: &X509) -> (r: Result<
    (),
    AuthError,
>)
    ensures
        r matches Err(e) ==> is_verification_error(e),
{
    let serial_bn = match x509_serial_bignum(cert) {
        Ok(bn) => bn,
        Err(_) => return Err(AuthError::SerialNumberSizeInvalid),
    };
    let serial = bignum_to_vec(&serial_bn);
    let salt = salt_from_serial(serial.as_slice())?;
    let key = generate_signing_key(password, salt.as_slice())?;
    let now = unix_time_from_reading(unix_time_now())?;
    let fields = read_certificate_fields(cert)?;
    // Every check but the signature's; the signature is checked last, under
    // the derived key and never under the certificate's own public key.
    check_certificate(&fields, cert_name, now, true, true)?;
    let signature_valid = match x509_verify(cert, &key) {
        Ok(valid) => valid,
        Err(_) => false,
    };
    if signature_valid {
        Ok(())
    } else {
        Err(AuthError::SignatureInvalid)
    }
}

} // verus!
