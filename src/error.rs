use vstd::prelude::*;

verus! {

/// Which name of a certificate failed the identity check.
#[derive(Clone, Copy, Debug, PartialEq, Eq, Structural)]
pub enum NameField {
    Issuer,
    Subject,
}

/// Which side of the validity window the current time falls outside of.
#[derive(Clone, Copy, Debug, PartialEq, Eq, Structural)]
pub enum ValidityProblem {
    NotYetValid,
    Expired,
}

/// Why issuing or verifying an authentication certificate failed.
#[derive(Clone, Copy, Debug, PartialEq, Eq, Structural)]
pub enum AuthError {
    RandomnessFailure,
    KeyDerivationFailure,
    CertificateBuildFailure,
    TimeComputationFailure,
    SerialNumberSizeInvalid,
    NameMismatch(NameField),
    ValidityWindowViolation(ValidityProblem),
    SignatureInvalid,
}

/// The failures that issuing a certificate can end in.
pub open spec fn is_issuance_error(e: AuthError) -> bool {
    match e {
        AuthError::RandomnessFailure => true,
        AuthError::KeyDerivationFailure => true,
        AuthError::CertificateBuildFailure => true,
        AuthError::TimeComputationFailure => true,
        _ => false,
    }
}

/// The failures that verifying a certificate can end in.
pub open spec fn is_verification_error(e: AuthError) -> bool {
    match e {
        AuthError::SerialNumberSizeInvalid => true,
        AuthError::KeyDerivationFailure => true,
        AuthError::TimeComputationFailure => true,
        AuthError::ValidityWindowViolation(_) => true,
        AuthError::NameMismatch(_) => true,
        AuthError::SignatureInvalid => true,
        _ => false,
    }
}

} // verus!
