//! Trusted entry points into OpenSSL and the system clock.
//!
//! Every item here is believed by the verifier without proof. Each wrapper
//! makes one call into the `openssl` crate (or std) and converts its
//! arguments and result; what it promises is stated over plain values only.
use openssl::asn1::{Asn1Integer, Asn1Time, Asn1TimeRef};
use openssl::bn::BigNum;
use openssl::error::ErrorStack;
use openssl::hash::MessageDigest;
use openssl::nid::Nid;
use openssl::pkcs12::{Pkcs12, Pkcs12Builder};
use openssl::pkey::{Id, PKey, Private};
use openssl::x509::{X509Builder, X509Name, X509NameBuilder, X509};
use vstd::prelude::*;
use vstd::string::StringSliceAdditionalSpecFns;

verus! {

#[verifier::external_type_specification]
#[verifier::external_body]
pub struct ExErrorStack(ErrorStack);

#[verifier::external_type_specification]
#[verifier::external_body]
pub struct ExX509(X509);

#[verifier::external_type_specification]
#[verifier::external_body]
pub struct ExX509Builder(X509Builder);

#[verifier::external_type_specification]
#[verifier::external_body]
pub struct ExX509Name(X509Name);

#[verifier::external_type_specification]
#[verifier::external_body]
pub struct ExX509NameBuilder(X509NameBuilder);

#[verifier::external_type_specification]
#[verifier::external_body]
pub struct ExAsn1Time(Asn1Time);

#[verifier::external_type_specification]
#[verifier::external_body]
pub struct ExAsn1TimeRef(Asn1TimeRef);

#[verifier::external_type_specification]
#[verifier::external_body]
pub struct ExAsn1Integer(Asn1Integer);

#[verifier::external_type_specification]
#[verifier::external_body]
pub struct ExBigNum(BigNum);

#[verifier::external_type_specification]
#[verifier::external_body]
#[verifier::reject_recursive_types(T)]
pub struct ExPKey<T>(PKey<T>);

#[verifier::external_type_specification]
#[verifier::external_body]
pub struct ExPrivate(Private);

#[verifier::external_type_specification]
#[verifier::external_body]
pub struct ExPkcs12(Pkcs12);

#[verifier::external_type_specification]
#[verifier::external_body]
pub struct ExPkcs12Builder(Pkcs12Builder);

/// What PBKDF2 with HMAC-SHA512 yields for a password, a salt, an iteration
/// count and an output length.
pub uninterp spec fn pbkdf2_hmac_sha512_of(
    pass: Seq<u8>,
    salt: Seq<u8>,
    iterations: nat,
    len: nat,
) -> Seq<u8>;

/// Relies on `openssl::pkcs5::pbkdf2_hmac` with `MessageDigest::sha512()`: on
/// success the output buffer of `len` bytes holds the derived key, which depends
/// on its inputs alone. The lengths and the count are converted to C `int`s
/// with `unwrap`, hence the bounds.
#[verifier::external_body]
pub(crate) fn pbkdf2_hmac_sha512(pass: &[u8], salt: &[u8], iterations: usize, len: usize) -> (r:
    Result<Vec<u8>, ErrorStack>)
    requires
        pass@.len() <= i32::MAX,
        salt@.len() <= i32::MAX,
        iterations <= i32::MAX,
        len <= i32::MAX,
    ensures
        r matches Ok(key) ==> key@.len() == len && key@ == pbkdf2_hmac_sha512_of(
            pass@,
            salt@,
            iterations as nat,
            len as nat,
        ),
{
    let mut key = vec![0u8; len];
    openssl::pkcs5::pbkdf2_hmac(pass, salt, iterations, MessageDigest::sha512(), &mut key).map(
        |_| key,
    )
}

/// Relies on `openssl::rand::rand_bytes`: on success a buffer of `len` bytes
/// from the cryptographically secure generator (it asserts the length fits a
/// C `int`).
#[verifier::external_body]
pub(crate) fn random_bytes(len: usize) -> (r: Result<Vec<u8>, ErrorStack>)
    requires
        len <= i32::MAX,
    ensures
        r matches Ok(bytes) ==> bytes@.len() == len,
{
    let mut buf = vec![0u8; len];
    openssl::rand::rand_bytes(&mut buf).map(|_| buf)
}

/// Relies on `std::time::SystemTime::now`, read as whole seconds since the
/// Unix epoch; `None` where the clock stands before the epoch.
#[verifier::external_body]
pub(crate) fn unix_time_now() -> (r: Option<u64>) {
    std::time::SystemTime::now().duration_since(std::time::UNIX_EPOCH).ok().map(|d| d.as_secs())
}

/// Relies on `BigNum::from_slice`: the unsigned big-endian integer of the
/// bytes (it asserts the length fits a C `int`).
#[verifier::external_body]
pub(crate) fn bignum_from_slice(bytes: &[u8]) -> (r: Result<BigNum, ErrorStack>)
    requires
        bytes@.len() <= i32::MAX,
{
    BigNum::from_slice(bytes)
}

/// Relies on `BigNumRef::to_asn1_integer`.
#[verifier::external_body]
pub(crate) fn bignum_to_asn1_integer(n: &BigNum) -> (r: Result<Asn1Integer, ErrorStack>) {
    n.to_asn1_integer()
}

/// Relies on `BigNumRef::to_vec`: the big-endian bytes of the magnitude.
#[verifier::external_body]
pub(crate) fn bignum_to_vec(n: &BigNum) -> (r: Vec<u8>) {
    n.to_vec()
}

/// Relies on `X509Ref::serial_number` and `Asn1IntegerRef::to_bn`: the
/// certificate's serial number as a `BigNum`.
#[verifier::external_body]
pub(crate) fn x509_serial_bignum(cert: &X509) -> (r: Result<BigNum, ErrorStack>) {
    cert.serial_number().to_bn()
}

/// Relies on `X509Ref::not_before`.
#[verifier::external_body]
pub(crate) fn x509_not_before(cert: &X509) -> (r: &Asn1TimeRef) {
    cert.not_before()
}

/// Relies on `X509Ref::not_after`.
#[verifier::external_body]
pub(crate) fn x509_not_after(cert: &X509) -> (r: &Asn1TimeRef) {
    cert.not_after()
}

/// Relies on `X509Ref::issuer_name`, read entry by entry through
/// `X509NameRef::entries` and `X509NameEntryRef::data`: the raw bytes of each
/// entry's value, in order.
#[verifier::external_body]
pub(crate) fn x509_issuer_entries(cert: &X509) -> (r: Vec<Vec<u8>>) {
    cert.issuer_name().entries().map(|e| e.data().as_slice().to_vec()).collect()
}

/// Relies on `X509Ref::subject_name`, read entry by entry through
/// `X509NameRef::entries` and `X509NameEntryRef::data`: the raw bytes of each
/// entry's value, in order.
#[verifier::external_body]
pub(crate) fn x509_subject_entries(cert: &X509) -> (r: Vec<Vec<u8>>) {
    cert.subject_name().entries().map(|e| e.data().as_slice().to_vec()).collect()
}

/// Relies on `Asn1TimeRef::diff`: the time from `from` to `to` as whole days
/// and the remaining seconds, which are less than a day in size.
#[verifier::external_body]
pub(crate) fn asn1_time_diff(from: &Asn1Time, to: &Asn1TimeRef) -> (r: Result<(i32, i32), ErrorStack>)
    ensures
        r matches Ok((days, secs)) ==> -86400 < secs < 86400,
{
    from.diff(to).map(|d| (d.days, d.secs))
}

/// Relies on `Asn1Time::from_unix`: the time `t` seconds after the Unix epoch.
#[verifier::external_body]
pub(crate) fn asn1_time_from_unix(t: i64) -> (r: Result<Asn1Time, ErrorStack>) {
    Asn1Time::from_unix(t)
}

/// Relies on `X509Builder::new`.
#[verifier::external_body]
pub(crate) fn x509_builder_new() -> (r: Result<X509Builder, ErrorStack>) {
    X509Builder::new()
}

/// Relies on `X509Builder::set_version` (zero-based: 2 is X.509 version 3).
#[verifier::external_body]
pub(crate) fn x509_set_version(b: &mut X509Builder, version: i32) -> (r: Result<(), ErrorStack>) {
    b.set_version(version)
}

/// Relies on `X509Builder::set_serial_number`.
#[verifier::external_body]
pub(crate) fn x509_set_serial_number(b: &mut X509Builder, serial: &Asn1Integer) -> (r: Result<
    (),
    ErrorStack,
>) {
    b.set_serial_number(serial)
}

/// Relies on `X509Builder::set_not_before`.
#[verifier::external_body]
pub(crate) fn x509_set_not_before(b: &mut X509Builder, t: &Asn1Time) -> (r: Result<(), ErrorStack>) {
    b.set_not_before(t)
}

/// Relies on `X509Builder::set_not_after`.
#[verifier::external_body]
pub(crate) fn x509_set_not_after(b: &mut X509Builder, t: &Asn1Time) -> (r: Result<(), ErrorStack>) {
    b.set_not_after(t)
}

/// Relies on `X509Builder::set_pubkey`: the certificate carries the key's
/// public half.
#[verifier::external_body]
pub(crate) fn x509_set_pubkey(b: &mut X509Builder, key: &PKey<Private>) -> (r: Result<
    (),
    ErrorStack,
>) {
    b.set_pubkey(key)
}

/// Relies on `X509Builder::set_subject_name`.
#[verifier::external_body]
pub(crate) fn x509_set_subject_name(b: &mut X509Builder, name: &X509Name) -> (r: Result<
    (),
    ErrorStack,
>) {
    b.set_subject_name(name)
}

/// Relies on `X509Builder::set_issuer_name`.
#[verifier::external_body]
pub(crate) fn x509_set_issuer_name(b: &mut X509Builder, name: &X509Name) -> (r: Result<
    (),
    ErrorStack,
>) {
    b.set_issuer_name(name)
}

/// Relies on `X509Builder::sign` with `MessageDigest::null()`, the form that
/// pre-hash-free schemes such as Ed448 take.
#[verifier::external_body]
pub(crate) fn x509_sign_without_digest(b: &mut X509Builder, key: &PKey<Private>) -> (r: Result<
    (),
    ErrorStack,
>) {
    b.sign(key, MessageDigest::null())
}

/// Relies on `X509Builder::build`.
#[verifier::external_body]
pub(crate) fn x509_build(b: X509Builder) -> (r: X509) {
    b.build()
}

/// Relies on `X509Ref::verify`: whether the certificate's signature checks
/// out under `key`.
#[verifier::external_body]
pub(crate) fn x509_verify(cert: &X509, key: &PKey<Private>) -> (r: Result<bool, ErrorStack>) {
    cert.verify(key)
}

/// Relies on `X509NameBuilder::new`.
#[verifier::external_body]
pub(crate) fn x509_name_builder_new() -> (r: Result<X509NameBuilder, ErrorStack>) {
    X509NameBuilder::new()
}

/// Relies on `X509NameBuilder::append_entry_by_text`: the value is stored as
/// UTF-8. It unwraps a C string made of `field` and asserts the value's length
/// fits a C `int`, hence the bounds.
#[verifier::external_body]
pub(crate) fn x509_name_append_entry(b: &mut X509NameBuilder, field: &str, value: &str) -> (r:
    Result<(), ErrorStack>)
    requires
        !field.spec_bytes().contains(0u8),
        value.spec_bytes().len() <= i32::MAX,
{
    b.append_entry_by_text(field, value)
}

/// Relies on `X509NameBuilder::build`.
#[verifier::external_body]
pub(crate) fn x509_name_build(b: X509NameBuilder) -> (r: X509Name) {
    b.build()
}

/// Relies on `PKey::generate_ed448`: a fresh Ed448 key pair.
#[verifier::external_body]
pub(crate) fn pkey_generate_ed448() -> (r: Result<PKey<Private>, ErrorStack>) {
    PKey::generate_ed448()
}

/// Relies on `PKey::private_key_from_raw_bytes` with `Id::ED448`: the Ed448
/// private key whose raw seed is `seed`.
#[verifier::external_body]
pub(crate) fn pkey_ed448_from_raw_bytes(seed: &[u8]) -> (r: Result<PKey<Private>, ErrorStack>) {
    PKey::private_key_from_raw_bytes(seed, Id::ED448)
}

/// Relies on `Pkcs12::builder`.
#[verifier::external_body]
pub(crate) fn pkcs12_builder() -> (r: Pkcs12Builder) {
    Pkcs12::builder()
}

/// Relies on `Pkcs12Builder::key_algorithm`, with the raw NID given
/// (`-1` selects no encryption).
#[verifier::external_body]
pub(crate) fn pkcs12_key_algorithm(b: &mut Pkcs12Builder, nid: i32) {
    b.key_algorithm(Nid::from_raw(nid));
}

/// Relies on `Pkcs12Builder::cert_algorithm`, with the raw NID given
/// (`-1` selects no encryption).
#[verifier::external_body]
pub(crate) fn pkcs12_cert_algorithm(b: &mut Pkcs12Builder, nid: i32) {
    b.cert_algorithm(Nid::from_raw(nid));
}

/// Relies on `Pkcs12Builder::key_iter`.
#[verifier::external_body]
pub(crate) fn pkcs12_key_iter(b: &mut Pkcs12Builder, iter: u32) {
    b.key_iter(iter);
}

/// Relies on `Pkcs12Builder::mac_iter`.
#[verifier::external_body]
pub(crate) fn pkcs12_mac_iter(b: &mut Pkcs12Builder, iter: u32) {
    b.mac_iter(iter);
}

/// Relies on `Pkcs12Builder::build`: the archive of `pkey` and `cert` under
/// `password` and `friendly_name`. It unwraps C strings made of both and
/// converts the password's length to a C `int` with `unwrap`, hence the bounds.
#[verifier::external_body]
#[allow(deprecated)]
pub(crate) fn pkcs12_build(
    b: Pkcs12Builder,
    password: &str,
    friendly_name: &str,
    pkey: &PKey<Private>,
    cert: &X509,
) -> (r: Result<Pkcs12, ErrorStack>)
    requires
        !password.spec_bytes().contains(0u8),
        password.spec_bytes().len() <= i32::MAX,
        !friendly_name.spec_bytes().contains(0u8),
{
    b.build(password, friendly_name, pkey, cert)
}

/// Relies on the `to_der` of `Pkcs12Ref`: the archive's DER encoding.
#[verifier::external_body]
pub(crate) fn pkcs12_to_der(p: &Pkcs12) -> (r: Result<Vec<u8>, ErrorStack>) {
    p.to_der()
}

} // verus!
