//! What a verifier reads from a certificate, as plain values, and the checks
//! it makes on them.
use crate::error::{AuthError, NameField, ValidityProblem};
use crate::serial::{
    significant_bytes,
    lemma_salt_round_trip, lemma_valid_serial_byte_length, salt_from_serial, serial_byte_length,
    serial_salt_result, serial_size_valid, SIGNING_SALT_LENGTH,
};
use vstd::prelude::*;
use vstd::string::StringSliceAdditionalSpecFns;

verus! {

/// Seconds a certificate's start of validity is set back, to absorb clock skew
/// between peers.
pub const CLOCK_SKEW_SECONDS: i64 = 300;

/// Days a certificate stays valid after it is issued.
pub const CERT_VALIDITY_DAYS: i64 = 366;

/// Seconds in a day.
pub const SECONDS_PER_DAY: i64 = 86400;

/// The fields of an X.509 certificate that authentication depends on.
pub struct CertificateFields {
    /// Big-endian bytes of the serial number's magnitude.
    pub serial: Vec<u8>,
    /// Start of validity, in seconds since the Unix epoch.
    pub not_before: i64,
    /// End of validity, in seconds since the Unix epoch.
    pub not_after: i64,
    /// Value bytes of each issuer name entry, in order.
    pub issuer: Vec<Vec<u8>>,
    /// Value bytes of each subject name entry, in order.
    pub subject: Vec<Vec<u8>>,
}

/// Mathematical view of [`CertificateFields`].
pub struct CertificateModel {
    pub serial: Seq<u8>,
    pub not_before: int,
    pub not_after: int,
    pub issuer: Seq<Seq<u8>>,
    pub subject: Seq<Seq<u8>>,
}

/// The byte strings held by a list of name entries.
pub open spec fn entries_view(entries: Seq<Vec<u8>>) -> Seq<Seq<u8>> {
    entries.map_values(|e: Vec<u8>| e@)
}

impl View for CertificateFields {
    type V = CertificateModel;

    open spec fn view(&self) -> CertificateModel {
        CertificateModel {
            serial: self.serial@,
            not_before: self.not_before as int,
            not_after: self.not_after as int,
            issuer: entries_view(self.issuer@),
            subject: entries_view(self.subject@),
        }
    }
}

/// Whether `now` lies in the validity window, and if not, on which side.
pub open spec fn validity_verdict(not_before: int, not_after: int, now: int) -> Result<
    (),
    AuthError,
> {
    if not_before > now {
        Err(AuthError::ValidityWindowViolation(ValidityProblem::NotYetValid))
    } else if not_after < now {
        Err(AuthError::ValidityWindowViolation(ValidityProblem::Expired))
    } else {
        Ok(())
    }
}

/// A name matches an identity when it has exactly one entry, equal to it byte
/// for byte.
pub open spec fn name_matches(entries: Seq<Seq<u8>>, expected: Seq<u8>) -> bool {
    entries.len() == 1 && entries[0] == expected
}

/// The outcome of checking one name of a certificate against an identity.
pub open spec fn name_verdict(entries: Seq<Seq<u8>>, expected: Seq<u8>, field: NameField) -> Result<
    (),
    AuthError,
> {
    if name_matches(entries, expected) {
        Ok(())
    } else {
        Err(AuthError::NameMismatch(field))
    }
}

/// The outcome of verifying a certificate with the given fields against an
/// identity at time `now`, where `key_derived` tells whether the signing key
/// could be derived from the serial number and `signature_valid` whether the
/// signature checks out under that key. The checks come in this order: serial
/// size, key derivation, validity window, issuer name, subject name, signature.
pub open spec fn certificate_verdict(
    c: CertificateModel,
    identity: Seq<u8>,
    now: int,
    key_derived: bool,
    signature_valid: bool,
) -> Result<(), AuthError> {
    if !serial_size_valid(c.serial) {
        Err(AuthError::SerialNumberSizeInvalid)
    } else if !key_derived {
        Err(AuthError::KeyDerivationFailure)
    } else if validity_verdict(c.not_before, c.not_after, now) is Err {
        validity_verdict(c.not_before, c.not_after, now)
    } else if !name_matches(c.issuer, identity) {
        Err(AuthError::NameMismatch(NameField::Issuer))
    } else if !name_matches(c.subject, identity) {
        Err(AuthError::NameMismatch(NameField::Subject))
    } else if !signature_valid {
        Err(AuthError::SignatureInvalid)
    } else {
        Ok(())
    }
}

/// The validity window of a certificate issued at `now`.
pub open spec fn issued_window(now: int) -> (int, int) {
    (now - CLOCK_SKEW_SECONDS, now + CERT_VALIDITY_DAYS * SECONDS_PER_DAY)
}

/// A certificate's fields are those it was issued with: a serial of the same
/// magnitude as `salt`, the window [`not_before`, `not_after`], and one name
/// entry equal to `identity` as issuer and as subject.
pub open spec fn carries_issued_fields(
    c: CertificateModel,
    salt: Seq<u8>,
    not_before: int,
    not_after: int,
    identity: Seq<u8>,
) -> bool {
    &&& significant_bytes(c.serial) == significant_bytes(salt)
    &&& c.not_before == not_before
    &&& c.not_after == not_after
    &&& c.issuer == seq![identity]
    &&& c.subject == seq![identity]
}

/// A time difference of whole days and remaining seconds, in seconds.
pub fn seconds_from_diff(days: i32, secs: i32) -> (r: i64)
    ensures
        r as int == days as int * SECONDS_PER_DAY + secs as int,
{
    days as i64 * SECONDS_PER_DAY + secs as i64
}

/// A clock reading in seconds since the Unix epoch as an `i64`, or
/// `TimeComputationFailure` where there is no reading or it does not fit.
pub fn unix_time_from_reading(reading: Option<u64>) -> (r: Result<i64, AuthError>)
    ensures
        r == match reading {
            Some(s) => if s <= i64::MAX as u64 {
                Ok(s as i64)
            } else {
                Err(AuthError::TimeComputationFailure)
            },
            None => Err(AuthError::TimeComputationFailure),
        },
{
    match reading {
        Some(s) => {
            if s <= i64::MAX as u64 {
                Ok(s as i64)
            } else {
                Err(AuthError::TimeComputationFailure)
            }
        },
        None => Err(AuthError::TimeComputationFailure),
    }
}

/// Whether a list of name entries is exactly one entry equal to `identity`.
pub fn is_single_name(entries: &Vec<Vec<u8>>, identity: &str) -> (r: bool)
    ensures
        r == (entries_view(entries@) == seq![identity.spec_bytes()]),
{
    let r = check_cert_name(entries, identity, NameField::Issuer).is_ok();
    proof {
        if r {
            assert(entries_view(entries@) =~= seq![identity.spec_bytes()]);
        } else if entries_view(entries@) == seq![identity.spec_bytes()] {
            assert(entries_view(entries@)[0] == identity.spec_bytes());
        }
    }
    r
}

/// Byte-wise equality of two byte strings.
pub fn bytes_equal(a: &[u8], b: &[u8]) -> (r: bool)
    ensures
        r == (a@ == b@),
{
    if a.len() != b.len() {
        return false;
    }
    let mut i: usize = 0;
    while i < a.len()
        invariant
            a@.len() == b@.len(),
            i <= a@.len(),
            forall|j: int| 0 <= j < i ==> a@[j] == b@[j],
        decreases a@.len() - i,
    {
        if a[i] != b[i] {
            return false;
        }
        i = i + 1;
    }
    assert(a@ =~= b@);
    true
}

/// Checks one name of a certificate: exactly one entry, equal to the expected
/// identity byte for byte.
pub fn check_cert_name(actual_entries: &Vec<Vec<u8>>, expected_name: &str, field: NameField) -> (r:
    Result<(), AuthError>)
    ensures
        r == name_verdict(entries_view(actual_entries@), expected_name.spec_bytes(), field),
{
    if actual_entries.len() != 1 {
        return Err(AuthError::NameMismatch(field));
    }
    if bytes_equal(actual_entries[0].as_slice(), expected_name.as_bytes()) {
        Ok(())
    } else {
        Err(AuthError::NameMismatch(field))
    }
}

/// Checks that `now` lies within [`not_before`, `not_after`].
pub fn check_validity(not_before: i64, not_after: i64, now: i64) -> (r: Result<(), AuthError>)
    ensures
        r == validity_verdict(not_before as int, not_after as int, now as int),
{
    if not_before > now {
        Err(AuthError::ValidityWindowViolation(ValidityProblem::NotYetValid))
    } else if not_after < now {
        Err(AuthError::ValidityWindowViolation(ValidityProblem::Expired))
    } else {
        Ok(())
    }
}

/// Decides the verification of a certificate from its fields, the identity,
/// the current time and the outcomes of key derivation and of the signature
/// check.
pub fn check_certificate(
    fields: &CertificateFields,
    identity: &str,
    now: i64,
    key_derived: bool,
    signature_valid: bool,
) -> (r: Result<(), AuthError>)
    ensures
        r == certificate_verdict(fields@, identity.spec_bytes(), now as int, key_derived, signature_valid),
{
    if let Err(e) = salt_from_serial(fields.serial.as_slice()) {
        return Err(e);
    }
    if !key_derived {
        return Err(AuthError::KeyDerivationFailure);
    }
    check_validity(fields.not_before, fields.not_after, now)?;
    check_cert_name(&fields.issuer, identity, NameField::Issuer)?;
    check_cert_name(&fields.subject, identity, NameField::Subject)?;
    if signature_valid {
        Ok(())
    } else {
        Err(AuthError::SignatureInvalid)
    }
}

/// The validity window of a certificate issued at `now`: from five minutes
/// before to 366 days after, or `TimeComputationFailure` where that leaves the
/// range of `i64`.
pub fn issue_validity(now: i64) -> (r: Result<(i64, i64), AuthError>)
    ensures
        match r {
            Ok((not_before, not_after)) => (not_before as int, not_after as int) == issued_window(
                now as int,
            ),
            Err(e) => e == AuthError::TimeComputationFailure && (issued_window(now as int).0
                < i64::MIN || issued_window(now as int).1 > i64::MAX),
        },
{
    if now < i64::MIN + CLOCK_SKEW_SECONDS || now > i64::MAX - CERT_VALIDITY_DAYS * SECONDS_PER_DAY {
        return Err(AuthError::TimeComputationFailure);
    }
    Ok((now - CLOCK_SKEW_SECONDS, now + CERT_VALIDITY_DAYS * SECONDS_PER_DAY))
}

/// Round trip: a certificate that carries the fields it was issued with at
/// `issued_at` for `identity`, with a 64-byte salt of at least 64 significant
/// bits as its serial number, has a serial of 8 to 64 bytes that gives back the
/// very salt it was issued with (so a verifier derives the same signing key),
/// and passes every check at any time within its validity window once that
/// key signs it.
pub proof fn lemma_issued_certificate_verifies(
    c: CertificateModel,
    salt: Seq<u8>,
    issued_at: int,
    now: int,
    identity: Seq<u8>,
)
    requires
        salt.len() == SIGNING_SALT_LENGTH,
        serial_size_valid(salt),
        carries_issued_fields(
            c,
            salt,
            issued_window(issued_at).0,
            issued_window(issued_at).1,
            identity,
        ),
        issued_window(issued_at).0 <= now <= issued_window(issued_at).1,
    ensures
        8 <= serial_byte_length(c.serial) <= SIGNING_SALT_LENGTH,
        serial_salt_result(c.serial) == Ok::<Seq<u8>, AuthError>(salt),
        certificate_verdict(c, identity, now, true, true) == Ok::<(), AuthError>(()),
{
    lemma_valid_serial_byte_length(salt);
    lemma_salt_round_trip(salt);
}

/// Wrong secret: when every other check passes but the signature does not
/// check out under the key derived from the verifier's secret, verification
/// fails with `SignatureInvalid`.
pub proof fn lemma_bad_signature_rejected(c: CertificateModel, identity: Seq<u8>, now: int)
    requires
        serial_size_valid(c.serial),
        c.not_before <= now <= c.not_after,
        name_matches(c.issuer, identity),
        name_matches(c.subject, identity),
    ensures
        certificate_verdict(c, identity, now, true, false) == Err::<(), AuthError>(
            AuthError::SignatureInvalid,
        ),
{
}

/// Wrong identity: a certificate issued for one identity and checked against
/// another within its validity window fails with a name mismatch, whether or
/// not its signature would verify.
pub proof fn lemma_wrong_identity_rejected(
    c: CertificateModel,
    salt: Seq<u8>,
    not_before: int,
    not_after: int,
    identity: Seq<u8>,
    other: Seq<u8>,
    now: int,
    signature_valid: bool,
)
    requires
        serial_size_valid(salt),
        carries_issued_fields(c, salt, not_before, not_after, identity),
        not_before <= now <= not_after,
        identity != other,
    ensures
        certificate_verdict(
            c,
            other,
            now,
            true,
            signature_valid,
        ) == Err::<(), AuthError>(AuthError::NameMismatch(NameField::Issuer)),
{
}

/// Expired: a certificate whose validity window ended before `now` fails
/// with `ValidityWindowViolation(Expired)`.
pub proof fn lemma_expired_rejected(
    c: CertificateModel,
    identity: Seq<u8>,
    now: int,
    signature_valid: bool,
)
    requires
        serial_size_valid(c.serial),
        c.not_before <= c.not_after < now,
    ensures
        certificate_verdict(c, identity, now, true, signature_valid) == Err::<(), AuthError>(
            AuthError::ValidityWindowViolation(ValidityProblem::Expired),
        ),
{
}

/// Not yet valid: a certificate whose validity window starts after `now`
/// fails with `ValidityWindowViolation(NotYetValid)`.
pub proof fn lemma_not_yet_valid_rejected(
    c: CertificateModel,
    identity: Seq<u8>,
    now: int,
    signature_valid: bool,
)
    requires
        serial_size_valid(c.serial),
        now < c.not_before,
    ensures
        certificate_verdict(c, identity, now, true, signature_valid) == Err::<(), AuthError>(
            AuthError::ValidityWindowViolation(ValidityProblem::NotYetValid),
        ),
{
}

/// Oversized serial: a certificate whose serial number takes more than 64
/// bytes fails with `SerialNumberSizeInvalid`, whatever key derivation would
/// have given: the outcome does not depend on it.
pub proof fn lemma_oversized_serial_rejected(
    c: CertificateModel,
    identity: Seq<u8>,
    now: int,
    key_derived: bool,
    signature_valid: bool,
)
    requires
        serial_byte_length(c.serial) > SIGNING_SALT_LENGTH,
    ensures
        certificate_verdict(c, identity, now, key_derived, signature_valid) == Err::<
            (),
            AuthError,
        >(AuthError::SerialNumberSizeInvalid),
{
}

} // verus!
