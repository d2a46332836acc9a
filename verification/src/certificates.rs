//! Digests and X.509 material, as the cryptography crates read and make them.

use rcgen::{
    CertificateParams, CertificateSigningRequestParams, DnType, ExtendedKeyUsagePurpose, Issuer,
    KeyPair, KeyUsagePurpose,
};
use rustls::pki_types::{CertificateDer, CertificateSigningRequestDer, PrivateKeyDer};
use sha2::{Digest, Sha256};
use time::OffsetDateTime;
use vstd::prelude::*;
use x509_parser::certification_request::X509CertificationRequest;
use x509_parser::prelude::FromDer;
use x509_parser::time::ASN1Time;

verus! {

/// The SHA-256 digest of `bytes`.
pub uninterp spec fn sha256_of(bytes: Seq<u8>) -> Seq<u8>;

/// Calls `sha2::Sha256::digest`.
///
/// Claimed: the digest is a function of the bytes alone.
#[verifier::external_body]
pub(crate) fn sha256(bytes: &[u8]) -> (digest: [u8; 32])
    ensures
        digest@ == sha256_of(bytes@),
{
    Sha256::digest(bytes).into()
}

/// What the Relay reads of a certificate signing request.
pub struct CsrFields {
    /// First common name of the subject, where it is text.
    pub common_name: Option<String>,
    /// DER of the SubjectPublicKeyInfo.
    pub public_key_info: Vec<u8>,
}

/// The first common name and the SubjectPublicKeyInfo of the signing request `csr`, if it parses.
pub uninterp spec fn csr_fields_of(csr: Seq<u8>) -> Option<(Option<Seq<char>>, Seq<u8>)>;

/// The contents of an optional text.
pub open spec fn text_of(text: Option<String>) -> Option<Seq<char>> {
    match text {
        Some(inner) => Some(inner@),
        None => None,
    }
}

/// The contents of what was read of a signing request.
pub open spec fn csr_fields_view(
    fields: Option<CsrFields>,
) -> Option<(Option<Seq<char>>, Seq<u8>)> {
    match fields {
        Some(inner) => Some((text_of(inner.common_name), inner.public_key_info@)),
        None => None,
    }
}

/// Calls `x509_parser`'s `X509CertificationRequest::from_der` and copies two fields out.
///
/// Claimed: the outcome and the fields are a function of the bytes alone.
#[verifier::external_body]
pub(crate) fn read_csr(csr: &[u8]) -> (fields: Option<CsrFields>)
    ensures
        csr_fields_view(fields) == csr_fields_of(csr@),
{
    let (_, parsed) = X509CertificationRequest::from_der(csr).ok()?;
    let info = &parsed.certification_request_info;
    let name = info.subject.iter_common_name().next().and_then(|value| value.as_str().ok());
    Some(CsrFields {
        common_name: name.map(|text| text.to_owned()),
        public_key_info: info.subject_pki.raw.to_vec(),
    })
}

/// The signing request `csr` parses and is signed by the key that it carries.
pub uninterp spec fn csr_signed(csr: Seq<u8>) -> bool;

/// Calls `x509_parser`'s `X509CertificationRequest::verify_signature`.
///
/// Claimed: the answer is a function of the bytes alone; a request that does not parse is not
/// signed.
#[verifier::external_body]
pub(crate) fn csr_signature_holds(csr: &[u8]) -> (holds: bool)
    ensures
        holds == csr_signed(csr@),
{
    X509CertificationRequest::from_der(csr).is_ok_and(|(_, parsed)| parsed.verify_signature().is_ok())
}

/// What the Relay reads of a certificate.
pub struct CertificateFields {
    /// DER of the issuer name.
    pub issuer: Vec<u8>,
    /// DER of the subject name.
    pub subject: Vec<u8>,
    /// DER of the SubjectPublicKeyInfo.
    pub public_key_info: Vec<u8>,
    /// Bits of the public key.
    pub public_key: Vec<u8>,
    /// The basic constraints mark a certificate authority.
    pub is_authority: bool,
    /// The key usage allows signing certificates.
    pub signs_certificates: bool,
    /// Start of the validity, in nanoseconds since the Unix epoch.
    pub not_before: i128,
    /// End of the validity, in nanoseconds since the Unix epoch.
    pub not_after: i128,
}

/// Contents of what is read of a certificate.
#[verifier::ext_equal]
pub struct CertificateView {
    /// DER of the issuer name.
    pub issuer: Seq<u8>,
    /// DER of the subject name.
    pub subject: Seq<u8>,
    /// DER of the SubjectPublicKeyInfo.
    pub public_key_info: Seq<u8>,
    /// Bits of the public key.
    pub public_key: Seq<u8>,
    /// The basic constraints mark a certificate authority.
    pub is_authority: bool,
    /// The key usage allows signing certificates.
    pub signs_certificates: bool,
    /// Start of the validity, in nanoseconds since the Unix epoch.
    pub not_before: i128,
    /// End of the validity, in nanoseconds since the Unix epoch.
    pub not_after: i128,
}

impl View for CertificateFields {
    type V = CertificateView;

    open spec fn view(&self) -> CertificateView {
        CertificateView {
            issuer: self.issuer@,
            subject: self.subject@,
            public_key_info: self.public_key_info@,
            public_key: self.public_key@,
            is_authority: self.is_authority,
            signs_certificates: self.signs_certificates,
            not_before: self.not_before,
            not_after: self.not_after,
        }
    }
}

/// The fields of the DER certificate `der`, if it parses.
pub uninterp spec fn certificate_fields_of(der: Seq<u8>) -> Option<CertificateView>;

/// The contents of what was read of a certificate.
pub open spec fn certificate_view(fields: Option<CertificateFields>) -> Option<CertificateView> {
    match fields {
        Some(inner) => Some(inner@),
        None => None,
    }
}

/// Calls `x509_parser::parse_x509_certificate` and copies eight fields out.
///
/// Claimed: the outcome and the fields are a function of the bytes alone. An extension that is
/// absent, repeated or malformed reads as false.
#[verifier::external_body]
pub(crate) fn read_certificate(der: &[u8]) -> (fields: Option<CertificateFields>)
    ensures
        certificate_view(fields) == certificate_fields_of(der@),
{
    let (_, parsed) = x509_parser::parse_x509_certificate(der).ok()?;
    let constraints = parsed.basic_constraints().ok().flatten();
    let usage = parsed.key_usage().ok().flatten();
    Some(CertificateFields {
        issuer: parsed.issuer().as_raw().to_vec(),
        subject: parsed.subject().as_raw().to_vec(),
        public_key_info: parsed.public_key().raw.to_vec(),
        public_key: parsed.public_key().subject_public_key.data.to_vec(),
        is_authority: constraints.is_some_and(|extension| extension.value.ca),
        signs_certificates: usage.is_some_and(|extension| extension.value.key_cert_sign()),
        not_before: parsed.validity().not_before.to_datetime().unix_timestamp_nanos(),
        not_after: parsed.validity().not_after.to_datetime().unix_timestamp_nanos(),
    })
}

/// Both certificates parse, and `certificate` is signed by the public key of `issuer`.
pub uninterp spec fn certificate_signed(certificate: Seq<u8>, issuer: Seq<u8>) -> bool;

/// Calls `x509_parser`'s `X509Certificate::verify_signature` with the key of `issuer`.
///
/// Claimed: the answer is a function of the two certificates alone; it is false where one of
/// them does not parse.
#[verifier::external_body]
pub(crate) fn certificate_signed_by(certificate: &[u8], issuer: &[u8]) -> (signed: bool)
    ensures
        signed == certificate_signed(certificate@, issuer@),
{
    let Ok((_, signer)) = x509_parser::parse_x509_certificate(issuer) else { return false };
    x509_parser::parse_x509_certificate(certificate)
        .is_ok_and(|(_, parsed)| parsed.verify_signature(Some(signer.public_key())).is_ok())
}

/// The certificate `der` parses, and `at`, in nanoseconds since the Unix epoch, is within its
/// validity.
pub uninterp spec fn certificate_in_force(der: Seq<u8>, at: i128) -> bool;

/// Calls `x509_parser`'s `Validity::is_valid_at` with the instant `at`, in nanoseconds since the
/// Unix epoch.
///
/// Claimed: the answer is a function of the bytes and the instant alone. A certificate that does
/// not parse is not in force; one that does is in force between its two bounds and not outside of
/// them. Which answer an instant gets that equals a bound also depends on how the bound is encoded,
/// and is left to the name.
#[verifier::external_body]
pub(crate) fn certificate_valid_at(der: &[u8], at: i128) -> (valid: bool)
    ensures
        valid == certificate_in_force(der@, at),
        match certificate_fields_of(der@) {
            None => !valid,
            Some(fields) => {
                &&& fields.not_before < at < fields.not_after ==> valid
                &&& at < fields.not_before || fields.not_after < at ==> !valid
            },
        },
{
    let Ok(instant) = OffsetDateTime::from_unix_timestamp_nanos(at) else { return false };
    x509_parser::parse_x509_certificate(der)
        .is_ok_and(|(_, parsed)| parsed.validity().is_valid_at(ASN1Time::new(instant)))
}

/// Calls `x509_parser`'s `ASN1Time::now`, which reads the clock, for nanoseconds since the Unix
/// epoch.
///
/// Nothing is claimed of the reading: it changes with time.
#[verifier::external_body]
pub(crate) fn certificate_clock() -> (at: i128)
{
    ASN1Time::now().to_datetime().unix_timestamp_nanos()
}

/// The certificates of the PEM text `pem`, in order; `None` stands for a section that cannot be
/// decoded.
pub uninterp spec fn pem_certificates_of(pem: Seq<u8>) -> Seq<Option<Seq<u8>>>;

/// The contents of an optional byte string.
pub open spec fn bytes_of(bytes: Option<Vec<u8>>) -> Option<Seq<u8>> {
    match bytes {
        Some(inner) => Some(inner@),
        None => None,
    }
}

/// Calls `rustls_pemfile::certs` and collects what it yields.
///
/// Claimed: the yielded items are a function of the bytes alone.
#[verifier::external_body]
pub(crate) fn pem_certificates(pem: &[u8]) -> (items: Vec<Option<Vec<u8>>>)
    ensures
        items@.map_values(|item: Option<Vec<u8>>| bytes_of(item)) == pem_certificates_of(pem@),
{
    rustls_pemfile::certs(&mut std::io::BufReader::new(pem))
        .map(|item| item.ok().map(|der| der.to_vec()))
        .collect()
}

/// Encodings of a private key.
#[derive(Debug, Clone, Copy, PartialEq, Eq, Structural)]
pub enum PrivateKeyEncoding {
    /// PKCS #1.
    Pkcs1,
    /// SEC 1.
    Sec1,
    /// PKCS #8.
    Pkcs8,
}

/// One private key as its PEM section holds it.
pub struct PrivateKeyBytes {
    /// Encoding of the key.
    pub encoding: PrivateKeyEncoding,
    /// DER of the key.
    pub der: Vec<u8>,
}

/// The first private key of the PEM text `pem`: `None` if a section before it cannot be decoded,
/// `Some(None)` if there is no private key.
pub uninterp spec fn pem_private_key_of(
    pem: Seq<u8>,
) -> Option<Option<(PrivateKeyEncoding, Seq<u8>)>>;

/// The contents of an optional private key.
pub open spec fn private_key_view(
    key: Option<PrivateKeyBytes>,
) -> Option<(PrivateKeyEncoding, Seq<u8>)> {
    match key {
        Some(inner) => Some((inner.encoding, inner.der@)),
        None => None,
    }
}

/// Calls `rustls_pemfile::private_key` and copies the key out.
///
/// Claimed: the outcome is a function of the bytes alone.
#[verifier::external_body]
pub(crate) fn pem_private_key(pem: &[u8]) -> (key: Option<Option<PrivateKeyBytes>>)
    ensures
        pem_private_key_of(pem@) == (match key {
            Some(found) => Some(private_key_view(found)),
            None => None,
        }),
{
    let found = rustls_pemfile::private_key(&mut std::io::BufReader::new(pem)).ok()?;
    Some(found.and_then(|key| {
        let encoding = match key {
            PrivateKeyDer::Pkcs1(_) => PrivateKeyEncoding::Pkcs1,
            PrivateKeyDer::Sec1(_) => PrivateKeyEncoding::Sec1,
            PrivateKeyDer::Pkcs8(_) => PrivateKeyEncoding::Pkcs8,
            _ => return None,
        };
        Some(PrivateKeyBytes { encoding, der: key.secret_der().to_vec() })
    }))
}

/// The public key of the private key in the PEM text `pem`, if it can be loaded.
pub uninterp spec fn key_pem_public_key_of(pem: Seq<char>) -> Option<Seq<u8>>;

/// Calls `rcgen::KeyPair::from_pem` and copies `public_key_raw`.
///
/// Claimed: the outcome and the public key are a function of the text alone.
#[verifier::external_body]
pub(crate) fn key_pem_public_key(pem: &str) -> (public_key: Option<Vec<u8>>)
    ensures
        bytes_of(public_key) == key_pem_public_key_of(pem@),
{
    KeyPair::from_pem(pem).ok().map(|key| key.public_key_raw().to_vec())
}

/// The certificate `certificate` can be used as an issuer with the private key `key_pem`.
pub uninterp spec fn issuer_usable_of(certificate: Seq<u8>, key_pem: Seq<char>) -> bool;

/// Calls `rcgen::Issuer::from_ca_cert_der` with a key loaded by `rcgen::KeyPair::from_pem`.
///
/// Claimed: the answer is a function of the two arguments alone.
#[verifier::external_body]
pub(crate) fn issuer_usable(certificate: &[u8], key_pem: &str) -> (usable: bool)
    ensures
        usable == issuer_usable_of(certificate@, key_pem@),
{
    KeyPair::from_pem(key_pem)
        .is_ok_and(|key| Issuer::from_ca_cert_der(&CertificateDer::from(certificate), key).is_ok())
}

/// The signing request `csr` can be turned into certificate parameters.
pub uninterp spec fn csr_usable_of(csr: Seq<u8>) -> bool;

/// Calls `rcgen::CertificateSigningRequestParams::from_der`.
///
/// Claimed: the answer is a function of the bytes alone.
#[verifier::external_body]
pub(crate) fn csr_usable(csr: &[u8]) -> (usable: bool)
    ensures
        usable == csr_usable_of(csr@),
{
    CertificateSigningRequestParams::from_der(&CertificateSigningRequestDer::from(csr)).is_ok()
}

/// Key usages of a certificate to be signed.
#[derive(Debug, Clone, Copy, PartialEq, Eq, Structural)]
pub enum LeafUsage {
    /// Digital signatures.
    DigitalSignature,
}

/// Extended key usages of a certificate to be signed.
#[derive(Debug, Clone, Copy, PartialEq, Eq, Structural)]
pub enum LeafPurpose {
    /// TLS client authentication.
    ClientAuth,
}

/// What a certificate to be signed states of its subject.
pub struct LeafProfile {
    /// The one common name of the subject.
    pub common_name: String,
    /// The one key usage.
    pub usage: LeafUsage,
    /// The one extended key usage.
    pub purpose: LeafPurpose,
    /// Validity start in epoch seconds.
    pub not_before: i64,
    /// Validity end in epoch seconds.
    pub not_after: i64,
}

/// `leaf` is a certificate that `rcgen` makes when it signs the public key of `csr`, with these
/// statements on its subject, as the issuer of `certificate` and `key_pem`.
///
/// It relates many leaves to the same arguments: a signature is drawn anew each time.
pub uninterp spec fn leaf_signed(
    leaf: Seq<u8>,
    common_name: Seq<char>,
    usage: LeafUsage,
    purpose: LeafPurpose,
    not_before: i64,
    not_after: i64,
    certificate: Seq<u8>,
    key_pem: Seq<char>,
    csr: Seq<u8>,
) -> bool;

/// Calls `rcgen::CertificateSigningRequestParams::signed_by`: signs the public key of `csr` under
/// `profile` with the issuer made of `certificate` and `key_pem`. What the profile leaves open is
/// `rcgen`'s default: not an authority, and no other name.
///
/// Claimed: a leaf is one that is signed from these arguments; the signed bytes themselves are
/// left open, since a signature is drawn anew at each call. `None` says that a part of the input
/// could not be used. A validity that starts or ends before the epoch is left out: `rcgen` cannot
/// encode a year before the year zero.
#[verifier::external_body]
pub(crate) fn sign_leaf(
    profile: &LeafProfile,
    certificate: &[u8],
    key_pem: &str,
    csr: &[u8],
) -> (leaf: Option<Vec<u8>>)
    requires
        0 <= profile.not_before,
        0 <= profile.not_after,
    ensures
        leaf matches Some(der) ==> leaf_signed(
            der@,
            profile.common_name@,
            profile.usage,
            profile.purpose,
            profile.not_before,
            profile.not_after,
            certificate@,
            key_pem@,
            csr@,
        ),
{
    let key = KeyPair::from_pem(key_pem).ok()?;
    let issuer = Issuer::from_ca_cert_der(&certificate.into(), key).ok()?;
    let mut request = CertificateSigningRequestParams::from_der(&csr.into()).ok()?;
    let mut leaf = CertificateParams::default();
    leaf.distinguished_name.push(DnType::CommonName, profile.common_name.as_str());
    leaf.key_usages.push(match profile.usage {
        LeafUsage::DigitalSignature => KeyUsagePurpose::DigitalSignature,
    });
    leaf.extended_key_usages.push(match profile.purpose {
        LeafPurpose::ClientAuth => ExtendedKeyUsagePurpose::ClientAuth,
    });
    leaf.not_before = OffsetDateTime::from_unix_timestamp(profile.not_before).ok()?;
    leaf.not_after = OffsetDateTime::from_unix_timestamp(profile.not_after).ok()?;
    request.params = leaf;
    Some(request.signed_by(&issuer).ok()?.der().to_vec())
}

/// Calls `core::str::from_utf8`.
///
/// Claimed: bytes are text exactly if they are well-formed UTF-8, and the text then encodes to
/// them.
#[verifier::external_body]
pub(crate) fn text_from_utf8(bytes: &[u8]) -> (text: Option<&str>)
    ensures
        text is Some <==> vstd::utf8::valid_utf8(bytes@),
        text matches Some(inner) ==> vstd::utf8::encode_utf8(inner@) == bytes@,
{
    std::str::from_utf8(bytes).ok()
}

} // verus!
