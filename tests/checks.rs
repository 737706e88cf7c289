use qsync::certificate::{
    check_cert_name, check_certificate, check_validity, is_single_name, issue_validity,
    seconds_from_diff, unix_time_from_reading, CertificateFields,
};
use qsync::deltas::{resolution_method, Bottleneck, Resolution};
use qsync::error::{AuthError, NameField, ValidityProblem};
use qsync::files::FileInfo;
use qsync::serial::{bit_length_of_byte, leading_zero_count, salt_from_serial, same_magnitude};

fn good_fields(name: &str) -> CertificateFields {
    let mut serial = vec![7u8; 64];
    serial[0] = 0xff;
    CertificateFields {
        serial,
        not_before: 1000,
        not_after: 2000,
        issuer: vec![name.as_bytes().to_vec()],
        subject: vec![name.as_bytes().to_vec()],
    }
}

#[test]
fn salt_from_full_serial_is_unchanged() {
    let serial: Vec<u8> = (1..=64).collect();
    assert_eq!(salt_from_serial(&serial), Ok(serial.clone()));
}

#[test]
fn salt_from_short_serial_is_left_padded() {
    let serial = vec![0u8, 0, 0x80, 1, 2, 3, 4, 5, 6, 7];
    let salt = salt_from_serial(&serial).unwrap();
    assert_eq!(salt.len(), 64);
    assert!(salt[..56].iter().all(|b| *b == 0));
    assert_eq!(&salt[56..], &[0x80, 1, 2, 3, 4, 5, 6, 7]);
}

#[test]
fn serial_size_limits() {
    assert_eq!(salt_from_serial(&[]), Err(AuthError::SerialNumberSizeInvalid));
    assert_eq!(
        salt_from_serial(&[0x7f, 0xff, 0xff, 0xff, 0xff, 0xff, 0xff, 0xff]),
        Err(AuthError::SerialNumberSizeInvalid)
    );
    assert!(salt_from_serial(&[0x80, 0, 0, 0, 0, 0, 0, 0]).is_ok());
    let mut big = vec![1u8; 65];
    assert_eq!(salt_from_serial(&big), Err(AuthError::SerialNumberSizeInvalid));
    big[0] = 0;
    assert!(salt_from_serial(&big).is_ok());
}

#[test]
fn bit_length_of_bytes() {
    assert_eq!(bit_length_of_byte(0), 0);
    assert_eq!(bit_length_of_byte(1), 1);
    assert_eq!(bit_length_of_byte(0x7f), 7);
    assert_eq!(bit_length_of_byte(0x80), 8);
    assert_eq!(bit_length_of_byte(0xff), 8);
}

#[test]
fn validity_window_bounds() {
    assert_eq!(check_validity(10, 20, 10), Ok(()));
    assert_eq!(check_validity(10, 20, 20), Ok(()));
    assert_eq!(
        check_validity(10, 20, 9),
        Err(AuthError::ValidityWindowViolation(ValidityProblem::NotYetValid))
    );
    assert_eq!(
        check_validity(10, 20, 21),
        Err(AuthError::ValidityWindowViolation(ValidityProblem::Expired))
    );
}

#[test]
fn name_check_needs_one_equal_entry() {
    assert_eq!(check_cert_name(&vec![b"qsync".to_vec()], "qsync", NameField::Issuer), Ok(()));
    assert_eq!(
        check_cert_name(&vec![], "qsync", NameField::Subject),
        Err(AuthError::NameMismatch(NameField::Subject))
    );
    assert_eq!(
        check_cert_name(&vec![b"qsync".to_vec(), b"qsync".to_vec()], "qsync", NameField::Issuer),
        Err(AuthError::NameMismatch(NameField::Issuer))
    );
    assert_eq!(
        check_cert_name(&vec![b"qsyn".to_vec()], "qsync", NameField::Issuer),
        Err(AuthError::NameMismatch(NameField::Issuer))
    );
}

#[test]
fn certificate_checks_in_order() {
    let f = good_fields("qsync");
    assert_eq!(check_certificate(&f, "qsync", 1500, true, true), Ok(()));
    assert_eq!(
        check_certificate(&f, "qsync", 1500, true, false),
        Err(AuthError::SignatureInvalid)
    );
    assert_eq!(
        check_certificate(&f, "qsync", 1500, false, true),
        Err(AuthError::KeyDerivationFailure)
    );
    assert_eq!(
        check_certificate(&f, "other", 1500, true, true),
        Err(AuthError::NameMismatch(NameField::Issuer))
    );
    assert_eq!(
        check_certificate(&f, "qsync", 2500, true, true),
        Err(AuthError::ValidityWindowViolation(ValidityProblem::Expired))
    );
    let mut g = good_fields("qsync");
    g.subject = vec![b"other".to_vec()];
    assert_eq!(
        check_certificate(&g, "qsync", 1500, true, true),
        Err(AuthError::NameMismatch(NameField::Subject))
    );
    let mut h = good_fields("qsync");
    h.serial = vec![1u8; 65];
    assert_eq!(
        check_certificate(&h, "other", 5000, false, false),
        Err(AuthError::SerialNumberSizeInvalid)
    );
}

#[test]
fn issue_validity_window() {
    assert_eq!(issue_validity(1_000_000), Ok((999_700, 1_000_000 + 366 * 86400)));
    assert_eq!(issue_validity(i64::MAX), Err(AuthError::TimeComputationFailure));
    assert_eq!(issue_validity(i64::MIN), Err(AuthError::TimeComputationFailure));
}

#[test]
fn resolution_for_each_bottleneck() {
    assert_eq!(resolution_method(Bottleneck::Disk, true), Resolution::DirectoryDelta);
    assert_eq!(resolution_method(Bottleneck::Network, true), Resolution::DirectoryDeltaCompressed);
    assert_eq!(resolution_method(Bottleneck::CPU, true), Resolution::DirectoryDelta);
    assert_eq!(resolution_method(Bottleneck::Disk, false), Resolution::FileDelta);
    assert_eq!(resolution_method(Bottleneck::Network, false), Resolution::FileDeltaCompressed);
    assert_eq!(resolution_method(Bottleneck::CPU, false), Resolution::FileComplete);
}

#[test]
fn file_info_holds_plain_values() {
    let info = FileInfo {
        file_path: String::from("a/b.txt"),
        file_size: 12,
        is_dir: false,
        modification_time: 1_700_000_000,
    };
    assert_eq!(info.file_path, "a/b.txt");
    assert_eq!(info.file_size, 12);
    assert!(!info.is_dir);
    assert_eq!(info.modification_time, 1_700_000_000);
}

#[test]
fn seconds_from_day_and_second_parts() {
    assert_eq!(seconds_from_diff(2, 5), 2 * 86400 + 5);
    assert_eq!(seconds_from_diff(-1, -10), -86410);
    assert_eq!(seconds_from_diff(0, 0), 0);
}

#[test]
fn clock_readings() {
    assert_eq!(unix_time_from_reading(Some(1_700_000_000)), Ok(1_700_000_000));
    assert_eq!(unix_time_from_reading(Some(i64::MAX as u64)), Ok(i64::MAX));
    assert_eq!(
        unix_time_from_reading(Some(i64::MAX as u64 + 1)),
        Err(AuthError::TimeComputationFailure)
    );
    assert_eq!(unix_time_from_reading(None), Err(AuthError::TimeComputationFailure));
}

#[test]
fn magnitudes_ignore_leading_zeros() {
    assert_eq!(leading_zero_count(&[0, 0, 5, 0]), 2);
    assert_eq!(leading_zero_count(&[0, 0]), 2);
    assert!(same_magnitude(&[0, 0, 1, 2], &[1, 2]));
    assert!(same_magnitude(&[], &[0, 0]));
    assert!(!same_magnitude(&[1, 2], &[1, 3]));
    assert!(!same_magnitude(&[1, 2], &[1, 2, 0]));
}

#[test]
fn single_name_entries() {
    assert!(is_single_name(&vec![b"qsync".to_vec()], "qsync"));
    assert!(!is_single_name(&vec![], "qsync"));
    assert!(!is_single_name(&vec![b"qsync".to_vec(), b"x".to_vec()], "qsync"));
}
