//! Issuance of short-lived client certificates from protected device material.

use crate::bytes::{is_all_zero, read_be, same_bytes};
use crate::certificates::{
    certificate_clock, certificate_signed_by, certificate_valid_at, csr_signature_holds,
    csr_usable, issuer_usable, key_pem_public_key, pem_certificates, read_certificate, read_csr,
    sha256, sign_leaf, text_from_utf8, LeafProfile, LeafPurpose, LeafUsage,
};
use crate::clock::epoch_reading;
use crate::enrollment::EnrollmentError;
use crate::paths::same_text;
use vstd::prelude::*;

verus! {

/// Seconds by which the validity of an issued certificate starts in the past.
pub const ISSUANCE_BACKDATE_SECS: u64 = 60;

/// Seconds for which an issued certificate is valid after its issuance.
pub const ISSUANCE_VALIDITY_SECS: u64 = 7776000;

/// One public leaf chain and its metadata.
pub struct IssuedCertificate {
    certificate_chain: Vec<Vec<u8>>,
    fingerprint: [u8; 32],
    app_identity: [u8; 32],
    serial: u64,
    not_before_epoch_seconds: u64,
    not_after_epoch_seconds: u64,
}

/// Contents of an issued certificate.
pub struct IssuedView {
    /// DER leaf followed by the intermediate certificate.
    pub certificate_chain: Seq<Vec<u8>>,
    /// Digest of the leaf.
    pub fingerprint: Seq<u8>,
    /// Digest of the public key of the signing request.
    pub app_identity: Seq<u8>,
    /// Serial derived from the leaf digest.
    pub serial: u64,
    /// Validity start.
    pub not_before_epoch_seconds: u64,
    /// Validity end.
    pub not_after_epoch_seconds: u64,
}

impl View for IssuedCertificate {
    type V = IssuedView;

    closed spec fn view(&self) -> IssuedView {
        IssuedView {
            certificate_chain: self.certificate_chain@,
            fingerprint: self.fingerprint@,
            app_identity: self.app_identity@,
            serial: self.serial,
            not_before_epoch_seconds: self.not_before_epoch_seconds,
            not_after_epoch_seconds: self.not_after_epoch_seconds,
        }
    }
}

/// Fields from which an allowlist entry is made.
pub struct CertificateMetadata {
    /// App of the certificate.
    pub app_id: String,
    /// Digest of the leaf.
    pub fingerprint: [u8; 32],
    /// Serial of the certificate.
    pub serial: u64,
    /// Allowlist generation of the entry.
    pub allowlist_generation: u64,
    /// Validity start.
    pub not_before_epoch_seconds: u64,
    /// Validity end.
    pub not_after_epoch_seconds: u64,
}

impl IssuedCertificate {
    /// The public certificate chain: the leaf, then the intermediate certificate.
    pub fn certificate_chain(&self) -> (chain: Vec<Vec<u8>>)
        ensures
            chain@.len() == self@.certificate_chain.len(),
            forall|i: int|
                0 <= i < chain@.len() ==> (#[trigger] chain@[i])@ == self@.certificate_chain[i]@,
    {
        copy_chain(&self.certificate_chain)
    }

    /// The digest of the leaf.
    pub fn fingerprint(&self) -> (fingerprint: [u8; 32])
        ensures
            fingerprint@ == self@.fingerprint,
    {
        self.fingerprint
    }

    /// The digest of the certified public key.
    pub fn app_identity(&self) -> (identity: [u8; 32])
        ensures
            identity@ == self@.app_identity,
    {
        self.app_identity
    }

    /// The end of validity.
    pub fn not_after_epoch_seconds(&self) -> (seconds: u64)
        ensures
            seconds == self@.not_after_epoch_seconds,
    {
        self.not_after_epoch_seconds
    }

    /// The serial.
    pub fn serial(&self) -> (serial: u64)
        ensures
            serial == self@.serial,
    {
        self.serial
    }

    /// The metadata of an allowlist entry for this certificate.
    pub fn metadata(&self, app_id: String, allowlist_generation: u64) -> (metadata:
        CertificateMetadata)
        ensures
            metadata.app_id == app_id,
            metadata.fingerprint@ == self@.fingerprint,
            metadata.serial == self@.serial,
            metadata.allowlist_generation == allowlist_generation,
            metadata.not_before_epoch_seconds == self@.not_before_epoch_seconds,
            metadata.not_after_epoch_seconds == self@.not_after_epoch_seconds,
    {
        CertificateMetadata {
            app_id,
            fingerprint: self.fingerprint,
            serial: self.serial,
            allowlist_generation,
            not_before_epoch_seconds: self.not_before_epoch_seconds,
            not_after_epoch_seconds: self.not_after_epoch_seconds,
        }
    }
}

/// Copies a byte string.
pub fn copy_bytes(bytes: &Vec<u8>) -> (copy: Vec<u8>)
    ensures
        copy@ == bytes@,
{
    vstd::slice::slice_to_vec(bytes.as_slice())
}

/// Copies a certificate chain.
pub fn copy_chain(chain: &Vec<Vec<u8>>) -> (copy: Vec<Vec<u8>>)
    ensures
        copy@.len() == chain@.len(),
        forall|i: int| 0 <= i < copy@.len() ==> (#[trigger] copy@[i])@ == chain@[i]@,
{
    let mut copy: Vec<Vec<u8>> = Vec::new();
    let mut i: usize = 0;
    while i < chain.len()
        invariant
            i <= chain@.len(),
            copy@.len() == i,
            forall|j: int| 0 <= j < i ==> (#[trigger] copy@[j])@ == chain@[j]@,
        decreases chain@.len() - i,
    {
        copy.push(copy_bytes(&chain[i]));
        i = i + 1;
    }
    copy
}

/// The name that the signing request `csr` asks for.
pub open spec fn csr_identity(csr: Seq<u8>) -> Result<Seq<char>, EnrollmentError> {
    match crate::certificates::csr_fields_of(csr) {
        None => Err(EnrollmentError::InvalidCsr),
        Some((name, public_key_info)) => if !crate::certificates::csr_signed(csr) {
            Err(EnrollmentError::InvalidCsr)
        } else {
            match name {
                Some(text) => Ok(text),
                None => Err(EnrollmentError::CsrMismatch),
            }
        },
    }
}

/// Reads the name that a self-signed signing request asks for.
///
/// Whether an App may have that name is for the caller to decide.
pub fn app_id_from_csr(csr: &[u8]) -> (app_id: Result<String, EnrollmentError>)
    ensures
        match app_id {
            Ok(name) => csr_identity(csr@) == Ok::<Seq<char>, EnrollmentError>(name@),
            Err(error) => csr_identity(csr@) == Err::<Seq<char>, EnrollmentError>(error),
        },
{
    match read_csr(csr) {
        None => Err(EnrollmentError::InvalidCsr),
        Some(fields) => {
            if !csr_signature_holds(csr) {
                return Err(EnrollmentError::InvalidCsr);
            }
            match fields.common_name {
                Some(name) => Ok(name),
                None => Err(EnrollmentError::CsrMismatch),
            }
        },
    }
}

/// The identity digest that a request for `app_id` leads to, or why it is refused.
///
/// `measured` is what measuring the signing request gave.
pub open spec fn requested_identity(
    measured: Result<usize, EnrollmentError>,
    app_id: Seq<char>,
    csr: Seq<u8>,
    allowlist_generation: u64,
) -> Result<Seq<u8>, EnrollmentError> {
    match (measured, csr_identity(csr)) {
        (Err(error), _) => Err(error),
        (Ok(_), name) => if allowlist_generation == 0 {
            Err(EnrollmentError::InvalidGeneration)
        } else {
            match name {
                Err(error) => Err(error),
                Ok(text) => if text != app_id {
                    Err(EnrollmentError::CsrMismatch)
                } else {
                    let digest = crate::certificates::sha256_of(
                        crate::certificates::csr_fields_of(csr)->Some_0.1,
                    );
                    if crate::bytes::all_zero(digest) {
                        Err(EnrollmentError::InvalidCsr)
                    } else {
                        Ok(digest)
                    }
                },
            }
        },
    }
}

/// Checks a request for `app_id` and gives its identity digest.
pub fn request_identity(
    measured: Result<usize, EnrollmentError>,
    app_id: &str,
    csr: &[u8],
    allowlist_generation: u64,
) -> (identity: Result<[u8; 32], EnrollmentError>)
    ensures
        match identity {
            Ok(digest) => requested_identity(measured, app_id@, csr@, allowlist_generation)
                == Ok::<Seq<u8>, EnrollmentError>(digest@),
            Err(error) => requested_identity(measured, app_id@, csr@, allowlist_generation)
                == Err::<Seq<u8>, EnrollmentError>(error),
        },
{
    if let Err(error) = measured {
        return Err(error);
    }
    if allowlist_generation == 0 {
        return Err(EnrollmentError::InvalidGeneration);
    }
    match read_csr(csr) {
        None => Err(EnrollmentError::InvalidCsr),
        Some(fields) => {
            if !csr_signature_holds(csr) {
                return Err(EnrollmentError::InvalidCsr);
            }
            match fields.common_name {
                None => Err(EnrollmentError::CsrMismatch),
                Some(name) => {
                    if !same_text(name.as_str(), app_id) {
                        return Err(EnrollmentError::CsrMismatch);
                    }
                    let digest = sha256(fields.public_key_info.as_slice());
                    if is_all_zero(&digest) {
                        return Err(EnrollmentError::InvalidCsr);
                    }
                    Ok(digest)
                },
            }
        },
    }
}

/// The first certificate of a PEM text.
pub open spec fn first_certificate(pem: Seq<u8>) -> Option<Seq<u8>> {
    let items = crate::certificates::pem_certificates_of(pem);
    if items.len() == 0 {
        None
    } else {
        items[0]
    }
}

/// Extracts the first certificate of a PEM text.
pub fn first_pem_certificate(pem: &[u8]) -> (certificate: Result<Vec<u8>, EnrollmentError>)
    ensures
        match certificate {
            Ok(der) => first_certificate(pem@) == Some(der@),
            Err(error) => first_certificate(pem@) is None && error
                == EnrollmentError::InvalidMetadata,
        },
{
    let items = pem_certificates(pem);
    let ghost views = items@.map_values(
        |item: Option<Vec<u8>>| crate::certificates::bytes_of(item),
    );
    assert(views == crate::certificates::pem_certificates_of(pem@));
    if items.len() == 0 {
        return Err(EnrollmentError::InvalidMetadata);
    }
    assert(views[0] == crate::certificates::bytes_of(items@[0]));
    match &items[0] {
        Some(der) => Ok(copy_bytes(der)),
        None => Err(EnrollmentError::InvalidMetadata),
    }
}

/// The certificate is that of a certificate authority in force.
pub open spec fn is_valid_authority(
    fields: crate::certificates::CertificateView,
    valid_now: bool,
) -> bool {
    valid_now && fields.is_authority && fields.signs_certificates
}

/// `intermediate` is an authority in force that the self-signed authority `root` signed.
pub open spec fn chain_acceptable(
    intermediate: Seq<u8>,
    root: Seq<u8>,
    intermediate_valid: bool,
    root_valid: bool,
) -> bool {
    match (
        crate::certificates::certificate_fields_of(intermediate),
        crate::certificates::certificate_fields_of(root),
    ) {
        (Some(lower), Some(upper)) => {
            &&& is_valid_authority(lower, intermediate_valid)
            &&& is_valid_authority(upper, root_valid)
            &&& lower.issuer == upper.subject
            &&& crate::certificates::certificate_signed(intermediate, root)
            &&& upper.issuer == upper.subject
            &&& crate::certificates::certificate_signed(root, root)
        },
        _ => false,
    }
}

/// Checks the configured root and intermediate certificates before a leaf is issued, and gives
/// the public key of the intermediate certificate.
///
/// The two flags say whether the certificates are within their validity.
pub fn validate_device_intermediate_chain(
    intermediate: &[u8],
    root: &[u8],
    intermediate_valid: bool,
    root_valid: bool,
) -> (public_key: Result<Vec<u8>, EnrollmentError>)
    ensures
        match public_key {
            Ok(key) => chain_acceptable(intermediate@, root@, intermediate_valid, root_valid)
                && key@ == crate::certificates::certificate_fields_of(
                intermediate@,
            )->Some_0.public_key,
            Err(error) => !chain_acceptable(intermediate@, root@, intermediate_valid, root_valid)
                && error == EnrollmentError::InvalidMetadata,
        },
{
    let lower = match read_certificate(intermediate) {
        Some(fields) => fields,
        None => {
            return Err(EnrollmentError::InvalidMetadata);
        },
    };
    let upper = match read_certificate(root) {
        Some(fields) => fields,
        None => {
            return Err(EnrollmentError::InvalidMetadata);
        },
    };
    if !(intermediate_valid && lower.is_authority && lower.signs_certificates) || !(root_valid
        && upper.is_authority && upper.signs_certificates) || !same_bytes(
        lower.issuer.as_slice(),
        upper.subject.as_slice(),
    ) || !certificate_signed_by(intermediate, root) || !same_bytes(
        upper.issuer.as_slice(),
        upper.subject.as_slice(),
    ) || !certificate_signed_by(root, root) {
        return Err(EnrollmentError::InvalidMetadata);
    }
    Ok(lower.public_key)
}

/// Where the certificate authorities of the Relay lie.
pub struct SecurityPaths {
    /// PEM of the intermediate certificate for Apps.
    pub device_intermediate_certificate: String,
    /// PEM of its private key.
    pub device_intermediate_key: String,
    /// PEM of the intermediate certificate for Core enrollment.
    pub core_intermediate_certificate: String,
    /// PEM of its private key.
    pub core_intermediate_key: String,
    /// PEM of the public root certificate.
    pub root_certificate: String,
}

/// Where the files of one issuance lie.
pub struct IssuerPaths {
    /// PEM of the intermediate certificate.
    pub intermediate_certificate: String,
    /// PEM of the intermediate private key.
    pub intermediate_key: String,
    /// PEM of the root certificate.
    pub root_certificate: String,
}

impl SecurityPaths {
    /// The files that the issuance of an App certificate reads.
    pub fn device_issuer(&self) -> (paths: IssuerPaths)
        ensures
            paths.intermediate_certificate@ == self.device_intermediate_certificate@,
            paths.intermediate_key@ == self.device_intermediate_key@,
            paths.root_certificate@ == self.root_certificate@,
    {
        IssuerPaths {
            intermediate_certificate: self.device_intermediate_certificate.as_str().to_owned(),
            intermediate_key: self.device_intermediate_key.as_str().to_owned(),
            root_certificate: self.root_certificate.as_str().to_owned(),
        }
    }

    /// The files that the issuance of a Core certificate reads: none of those for Apps alone.
    pub fn core_issuer(&self) -> (paths: IssuerPaths)
        ensures
            is_core_issuer(paths, *self),
    {
        IssuerPaths {
            intermediate_certificate: self.core_intermediate_certificate.as_str().to_owned(),
            intermediate_key: self.core_intermediate_key.as_str().to_owned(),
            root_certificate: self.root_certificate.as_str().to_owned(),
        }
    }
}

/// `paths` are the files for Core enrollment.
pub open spec fn is_core_issuer(paths: IssuerPaths, security: SecurityPaths) -> bool {
    &&& paths.intermediate_certificate@ == security.core_intermediate_certificate@
    &&& paths.intermediate_key@ == security.core_intermediate_key@
    &&& paths.root_certificate@ == security.root_certificate@
}

/// Protected files that one issuance reads.
pub struct IssuerMaterial {
    /// PEM of the intermediate certificate.
    pub intermediate_certificate: Vec<u8>,
    /// PEM of the intermediate private key.
    pub intermediate_key: Vec<u8>,
    /// PEM of the root certificate.
    pub root_certificate: Vec<u8>,
}

/// The private key PEM `key` belongs to the certificate `intermediate` and can sign with it.
pub open spec fn key_acceptable(intermediate: Seq<u8>, key: Seq<u8>) -> bool {
    let text = vstd::utf8::decode_utf8(key);
    &&& vstd::utf8::valid_utf8(key)
    &&& crate::certificates::certificate_fields_of(intermediate) is Some
    &&& crate::certificates::key_pem_public_key_of(text) == Some(
        crate::certificates::certificate_fields_of(intermediate)->Some_0.public_key,
    )
    &&& crate::certificates::issuer_usable_of(intermediate, text)
}

/// The material can issue certificates.
pub open spec fn material_acceptable(
    material: IssuerMaterial,
    intermediate_valid: bool,
    root_valid: bool,
) -> bool {
    match (
        first_certificate(material.intermediate_certificate@),
        first_certificate(material.root_certificate@),
    ) {
        (Some(intermediate), Some(root)) => {
            &&& chain_acceptable(intermediate, root, intermediate_valid, root_valid)
            &&& key_acceptable(intermediate, material.intermediate_key@)
        },
        _ => false,
    }
}

/// Checks that the private key PEM belongs to the certificate whose public key is `public_key`
/// and can sign with it, and gives its text.
fn accept_key<'a>(intermediate: &[u8], public_key: &Vec<u8>, key: &'a Vec<u8>) -> (text: Result<
    &'a str,
    EnrollmentError,
>)
    requires
        crate::certificates::certificate_fields_of(intermediate@) is Some,
        public_key@ == crate::certificates::certificate_fields_of(
            intermediate@,
        )->Some_0.public_key,
    ensures
        match text {
            Ok(pem) => key_acceptable(intermediate@, key@) && pem@ == vstd::utf8::decode_utf8(key@),
            Err(error) => !key_acceptable(intermediate@, key@) && error
                == EnrollmentError::InvalidMetadata,
        },
{
    match text_from_utf8(key.as_slice()) {
        None => Err(EnrollmentError::InvalidMetadata),
        Some(pem) => {
            proof {
                vstd::utf8::encode_utf8_decode_utf8(pem@);
            }
            match key_pem_public_key(pem) {
                None => Err(EnrollmentError::InvalidMetadata),
                Some(own) => {
                    if !same_bytes(own.as_slice(), public_key.as_slice()) {
                        return Err(EnrollmentError::InvalidMetadata);
                    }
                    if !issuer_usable(intermediate, pem) {
                        return Err(EnrollmentError::InvalidMetadata);
                    }
                    Ok(pem)
                },
            }
        },
    }
}

/// The profile of a leaf for `app_id` that is issued at `now`, if its validity starts after the
/// epoch.
pub open spec fn is_leaf_profile(profile: LeafProfile, app_id: Seq<char>, now: u64) -> bool {
    &&& profile.common_name@ == app_id
    &&& profile.usage == LeafUsage::DigitalSignature
    &&& profile.purpose == LeafPurpose::ClientAuth
    &&& profile.not_before == now - ISSUANCE_BACKDATE_SECS
    &&& profile.not_after == now + ISSUANCE_VALIDITY_SECS
}

/// The validity of a leaf issued at `now` can be stated in signed epoch seconds from the epoch on.
pub open spec fn validity_statable(now: u64) -> bool {
    ISSUANCE_BACKDATE_SECS <= now && now + ISSUANCE_VALIDITY_SECS <= i64::MAX
}

/// Builds the profile of a client leaf for `app_id`: no authority, digital signatures and client
/// authentication only, valid from a minute ago for ninety days.
pub fn leaf_profile(app_id: &str, now: u64) -> (profile: Result<LeafProfile, EnrollmentError>)
    ensures
        match profile {
            Ok(leaf) => validity_statable(now) && is_leaf_profile(leaf, app_id@, now),
            Err(error) => !validity_statable(now) && error == EnrollmentError::InvalidMetadata,
        },
{
    if now < ISSUANCE_BACKDATE_SECS || now > i64::MAX as u64 - ISSUANCE_VALIDITY_SECS {
        return Err(EnrollmentError::InvalidMetadata);
    }
    Ok(
        LeafProfile {
            common_name: app_id.to_owned(),
            usage: LeafUsage::DigitalSignature,
            purpose: LeafPurpose::ClientAuth,
            not_before: (now - ISSUANCE_BACKDATE_SECS) as i64,
            not_after: (now + ISSUANCE_VALIDITY_SECS) as i64,
        },
    )
}

/// The serial that a leaf digest gives: its first eight bytes as a number, and one in place of
/// zero.
pub open spec fn serial_of(digest: Seq<u8>) -> nat {
    let value = crate::bytes::be_value(digest.subrange(0, 8));
    if value == 0 {
        1
    } else {
        value
    }
}

/// `issued` is the result of signing `leaf` at `now` below `intermediate`.
pub open spec fn is_issued(
    issued: IssuedCertificate,
    leaf: Seq<u8>,
    intermediate: Seq<u8>,
    app_identity: Seq<u8>,
    now: u64,
) -> bool {
    &&& issued@.certificate_chain.len() == 2
    &&& issued@.certificate_chain[0]@ == leaf
    &&& issued@.certificate_chain[1]@ == intermediate
    &&& issued@.fingerprint == crate::certificates::sha256_of(leaf)
    &&& issued@.app_identity == app_identity
    &&& issued@.serial == serial_of(crate::certificates::sha256_of(leaf))
    &&& issued@.serial > 0
    &&& issued@.not_before_epoch_seconds == now - ISSUANCE_BACKDATE_SECS
    &&& issued@.not_after_epoch_seconds == now + ISSUANCE_VALIDITY_SECS
}

/// Turns a signed leaf into the issued certificate.
///
/// `None` says that the leaf could not be signed; `measured` is the length that was measured of
/// the signing request, whose length is `csr_len`. A leaf whose digest is all zero is refused.
pub fn finish_issuance(
    leaf: Option<Vec<u8>>,
    intermediate: Vec<u8>,
    app_identity: [u8; 32],
    now: u64,
    measured: usize,
    csr_len: usize,
) -> (issued: Result<IssuedCertificate, EnrollmentError>)
    requires
        validity_statable(now),
    ensures
        match issued {
            Ok(certificate) => leaf is Some && measured == csr_len && !crate::bytes::all_zero(
                crate::certificates::sha256_of(leaf->Some_0@),
            ) && is_issued(certificate, leaf->Some_0@, intermediate@, app_identity@, now),
            Err(error) => (leaf is None || measured != csr_len || crate::bytes::all_zero(
                crate::certificates::sha256_of(leaf->Some_0@),
            )) && error == EnrollmentError::InvalidMetadata,
        },
{
    let leaf = match leaf {
        Some(der) => der,
        None => {
            return Err(EnrollmentError::InvalidMetadata);
        },
    };
    let fingerprint = sha256(leaf.as_slice());
    if is_all_zero(&fingerprint) {
        return Err(EnrollmentError::InvalidMetadata);
    }
    let first: u64 = read_be(&fingerprint, 0, 8);
    let serial: u64 = if first == 0 {
        1
    } else {
        first
    };
    if measured != csr_len {
        return Err(EnrollmentError::InvalidMetadata);
    }
    let mut certificate_chain: Vec<Vec<u8>> = Vec::new();
    certificate_chain.push(leaf);
    certificate_chain.push(intermediate);
    Ok(
        IssuedCertificate {
            certificate_chain,
            fingerprint,
            app_identity,
            serial,
            not_before_epoch_seconds: now - ISSUANCE_BACKDATE_SECS,
            not_after_epoch_seconds: now + ISSUANCE_VALIDITY_SECS,
        },
    )
}

/// Why a request is refused before anything is signed, or `None` if it is not.
///
/// `material` is `None` where a protected file could not be read.
pub open spec fn refusal_before_signing(
    measured: Result<usize, EnrollmentError>,
    app_id: Seq<char>,
    csr: Seq<u8>,
    allowlist_generation: u64,
    material: Option<IssuerMaterial>,
    intermediate_valid: bool,
    root_valid: bool,
) -> Option<EnrollmentError> {
    match requested_identity(measured, app_id, csr, allowlist_generation) {
        Err(error) => Some(error),
        Ok(_) => match material {
            None => Some(EnrollmentError::InvalidMetadata),
            Some(files) => if !material_acceptable(files, intermediate_valid, root_valid) {
                Some(EnrollmentError::InvalidMetadata)
            } else if !crate::certificates::csr_usable_of(csr) {
                Some(EnrollmentError::InvalidCsr)
            } else {
                None
            },
        },
    }
}

/// What one issuance signs with.
pub struct SigningPlan<'a> {
    /// Digest of the certified public key.
    pub app_identity: [u8; 32],
    /// DER of the intermediate certificate.
    pub intermediate: Vec<u8>,
    /// PEM of the intermediate private key.
    pub key_pem: &'a str,
}

/// Makes every check of an issuance that precedes the signature, in order: the request, then the
/// protected material, then the usability of the signing request.
pub fn plan_signing<'a>(
    measured: Result<usize, EnrollmentError>,
    app_id: &str,
    csr: &[u8],
    allowlist_generation: u64,
    material: Option<&'a IssuerMaterial>,
    intermediate_valid: bool,
    root_valid: bool,
) -> (plan: Result<SigningPlan<'a>, EnrollmentError>)
    ensures
        ({
            let files = match material {
                Some(inner) => Some(*inner),
                None => None,
            };
            let refusal = refusal_before_signing(
                measured,
                app_id@,
                csr@,
                allowlist_generation,
                files,
                intermediate_valid,
                root_valid,
            );
            match plan {
                Err(error) => refusal == Some(error),
                Ok(signing) => {
                    &&& refusal is None
                    &&& requested_identity(measured, app_id@, csr@, allowlist_generation) == Ok::<
                        Seq<u8>,
                        EnrollmentError,
                    >(signing.app_identity@)
                    &&& first_certificate(files->Some_0.intermediate_certificate@) == Some(
                        signing.intermediate@,
                    )
                    &&& signing.key_pem@ == vstd::utf8::decode_utf8(
                        files->Some_0.intermediate_key@,
                    )
                },
            }
        }),
{
    let app_identity = match request_identity(measured, app_id, csr, allowlist_generation) {
        Ok(digest) => digest,
        Err(error) => {
            return Err(error);
        },
    };
    let files = match material {
        Some(inner) => inner,
        None => {
            return Err(EnrollmentError::InvalidMetadata);
        },
    };
    let intermediate = match first_pem_certificate(files.intermediate_certificate.as_slice()) {
        Ok(der) => der,
        Err(error) => {
            return Err(error);
        },
    };
    let root = match first_pem_certificate(files.root_certificate.as_slice()) {
        Ok(der) => der,
        Err(error) => {
            return Err(error);
        },
    };
    let public_key = match validate_device_intermediate_chain(
        intermediate.as_slice(),
        root.as_slice(),
        intermediate_valid,
        root_valid,
    ) {
        Ok(key) => key,
        Err(error) => {
            return Err(error);
        },
    };
    let key_pem = match accept_key(intermediate.as_slice(), &public_key, &files.intermediate_key) {
        Ok(text) => text,
        Err(error) => {
            return Err(error);
        },
    };
    if !csr_usable(csr) {
        return Err(EnrollmentError::InvalidCsr);
    }
    Ok(SigningPlan { app_identity, intermediate, key_pem })
}

/// The PEM text starts with a certificate that is within its validity at `at`, in nanoseconds since
/// the Unix epoch.
pub open spec fn first_certificate_in_force(pem: Seq<u8>, at: i128) -> bool {
    match first_certificate(pem) {
        Some(der) => crate::certificates::certificate_in_force(der, at),
        None => false,
    }
}

/// Tells whether the first certificate of a PEM text is within its validity at `at`, in nanoseconds
/// since the Unix epoch: it is between the bounds that the certificate states, and not outside of
/// them.
pub fn first_certificate_valid_at(pem: &[u8], at: i128) -> (valid: bool)
    ensures
        valid == first_certificate_in_force(pem@, at),
        match first_certificate(pem@) {
            None => !valid,
            Some(der) => match crate::certificates::certificate_fields_of(der) {
                None => !valid,
                Some(fields) => {
                    &&& fields.not_before < at < fields.not_after ==> valid
                    &&& at < fields.not_before || fields.not_after < at ==> !valid
                },
            },
        },
{
    match first_pem_certificate(pem) {
        Ok(der) => certificate_valid_at(der.as_slice(), at),
        Err(_) => false,
    }
}

/// Tells whether the first certificate of a PEM text is within its validity at the instant that
/// the clock is read.
fn first_certificate_valid(pem: &Vec<u8>) -> (valid: bool)
    ensures
        exists|at: i128| valid == #[trigger] first_certificate_in_force(pem@, at),
{
    let at: i128 = certificate_clock();
    first_certificate_valid_at(pem.as_slice(), at)
}

/// Issues one client certificate at `now`, given the readings of the clock on the two
/// certificates.
fn issue_at(
    measured: Result<usize, EnrollmentError>,
    app_id: &str,
    csr: &[u8],
    allowlist_generation: u64,
    material: Option<&IssuerMaterial>,
    validity: (bool, bool),
    now: u64,
) -> (issued: Result<IssuedCertificate, EnrollmentError>)
    ensures
        issue_outcome(issued, measured, app_id@, csr@, allowlist_generation, material, validity, now),
{
    let plan = match plan_signing(
        measured,
        app_id,
        csr,
        allowlist_generation,
        material,
        validity.0,
        validity.1,
    ) {
        Ok(signing) => signing,
        Err(error) => {
            return Err(error);
        },
    };
    let profile = match leaf_profile(app_id, now) {
        Ok(leaf) => leaf,
        Err(error) => {
            return Err(error);
        },
    };
    let leaf = sign_leaf(&profile, plan.intermediate.as_slice(), plan.key_pem, csr);
    let length: usize = match measured {
        Ok(bytes) => bytes,
        Err(error) => {
            return Err(error);
        },
    };
    finish_issuance(leaf, plan.intermediate, plan.app_identity, now, length, csr.len())
}

/// `leaf` is signed by the material for the key of the request, under the name of the App, for
/// digital signatures and client authentication, from a minute before `now` for ninety days.
pub open spec fn is_leaf(
    leaf: Seq<u8>,
    app_id: Seq<char>,
    csr: Seq<u8>,
    files: IssuerMaterial,
    now: u64,
) -> bool {
    crate::certificates::leaf_signed(
        leaf,
        app_id,
        LeafUsage::DigitalSignature,
        LeafPurpose::ClientAuth,
        (now - ISSUANCE_BACKDATE_SECS) as i64,
        (now + ISSUANCE_VALIDITY_SECS) as i64,
        first_certificate(files.intermediate_certificate@)->Some_0,
        vstd::utf8::decode_utf8(files.intermediate_key@),
        csr,
    )
}

/// `issued` is a possible outcome of an issuance at `now`.
pub open spec fn issue_outcome(
    issued: Result<IssuedCertificate, EnrollmentError>,
    measured: Result<usize, EnrollmentError>,
    app_id: Seq<char>,
    csr: Seq<u8>,
    allowlist_generation: u64,
    material: Option<&IssuerMaterial>,
    validity: (bool, bool),
    now: u64,
) -> bool {
    let files = match material {
        Some(inner) => Some(*inner),
        None => None,
    };
    let refusal = refusal_before_signing(
        measured,
        app_id,
        csr,
        allowlist_generation,
        files,
        validity.0,
        validity.1,
    );
    match refusal {
        Some(error) => issued == Err::<IssuedCertificate, EnrollmentError>(error),
        None => match issued {
            Err(error) => error == EnrollmentError::InvalidMetadata,
            Ok(certificate) => {
                &&& validity_statable(now)
                &&& measured == Ok::<usize, EnrollmentError>(csr.len() as usize)
                &&& is_issued(
                    certificate,
                    certificate@.certificate_chain[0]@,
                    first_certificate(files->Some_0.intermediate_certificate@)->Some_0,
                    requested_identity(measured, app_id, csr, allowlist_generation)->Ok_0,
                    now,
                )
                &&& is_leaf(certificate@.certificate_chain[0]@, app_id, csr, files->Some_0, now)
            },
        },
    }
}

/// Whether the intermediate and the root certificate of the material are within their validity, each
/// at the instant that the clock was read for it.
pub open spec fn validity_at(
    material: Option<&IssuerMaterial>,
    intermediate_at: i128,
    root_at: i128,
) -> (bool, bool) {
    match material {
        Some(files) => (
            first_certificate_in_force(files.intermediate_certificate@, intermediate_at),
            first_certificate_in_force(files.root_certificate@, root_at),
        ),
        None => (false, false),
    }
}

/// `issued` is a possible outcome of an issuance: that of some readings of the clock.
pub open spec fn issue_possible(
    issued: Result<IssuedCertificate, EnrollmentError>,
    measured: Result<usize, EnrollmentError>,
    app_id: Seq<char>,
    csr: Seq<u8>,
    allowlist_generation: u64,
    material: Option<&IssuerMaterial>,
) -> bool {
    exists|intermediate_at: i128, root_at: i128, now: u64|
        #[trigger] issue_outcome(
            issued,
            measured,
            app_id,
            csr,
            allowlist_generation,
            material,
            validity_at(material, intermediate_at, root_at),
            now,
        )
}

/// Issues one client certificate for `app_id` from the protected material.
///
/// The clock decides the validity of the certificates and of the leaf, and a signature is drawn
/// anew at each call.
pub fn issue_certificate(
    measured: Result<usize, EnrollmentError>,
    app_id: &str,
    csr: &[u8],
    allowlist_generation: u64,
    material: Option<&IssuerMaterial>,
) -> (issued: Result<IssuedCertificate, EnrollmentError>)
    ensures
        issue_possible(issued, measured, app_id@, csr@, allowlist_generation, material),
{
    let validity: (bool, bool) = match material {
        Some(files) => (
            first_certificate_valid(&files.intermediate_certificate),
            first_certificate_valid(&files.root_certificate),
        ),
        None => (false, false),
    };
    // A clock before the epoch leaves no validity that can be stated.
    let now: u64 = match epoch_reading() {
        Some(seconds) => seconds,
        None => 0,
    };
    proof {
        if let Some(files) = material {
            let intermediate_at = choose|at: i128|
                validity.0 == #[trigger] first_certificate_in_force(
                    files.intermediate_certificate@,
                    at,
                );
            let root_at = choose|at: i128|
                validity.1 == #[trigger] first_certificate_in_force(files.root_certificate@, at);
            assert(validity == validity_at(material, intermediate_at, root_at));
        } else {
            assert(validity == validity_at(material, 0, 0));
        }
    }
    issue_at(measured, app_id, csr, allowlist_generation, material, validity, now)
}

/// Issues one Core-enrollment certificate from the dedicated material, under the name that the
/// signing request asks for and the first generation.
///
/// `measured` is what accepting that name and measuring the signing request gave.
pub fn issue_core_certificate(
    measured: Result<usize, EnrollmentError>,
    csr: &[u8],
    material: Option<&IssuerMaterial>,
) -> (issued: Result<IssuedCertificate, EnrollmentError>)
    ensures
        core_possible(issued, measured, csr@, material),
{
    match app_id_from_csr(csr) {
        Err(error) => {
            let issued = Err(error);
            assert(core_outcome(issued, measured, csr@, material, validity_at(material, 0, 0), 0));
            issued
        },
        Ok(name) => {
            let issued = issue_certificate(measured, name.as_str(), csr, 1, material);
            proof {
                let (intermediate_at, root_at, now) = choose|
                    intermediate_at: i128,
                    root_at: i128,
                    now: u64,
                |
                    #[trigger] issue_outcome(
                        issued,
                        measured,
                        name@,
                        csr@,
                        1,
                        material,
                        validity_at(material, intermediate_at, root_at),
                        now,
                    );
                assert(core_outcome(
                    issued,
                    measured,
                    csr@,
                    material,
                    validity_at(material, intermediate_at, root_at),
                    now,
                ));
            }
            issued
        },
    }
}

/// Seconds since the epoch that a clock reading gives.
pub fn epoch_seconds_of(reading: Option<u64>) -> (seconds: Result<u64, EnrollmentError>)
    ensures
        seconds == (match reading {
            Some(value) => Ok::<u64, EnrollmentError>(value),
            None => Err::<u64, EnrollmentError>(EnrollmentError::InvalidMetadata),
        }),
{
    match reading {
        Some(value) => Ok(value),
        None => Err(EnrollmentError::InvalidMetadata),
    }
}

/// Current seconds since the epoch.
pub fn current_epoch_seconds() -> (seconds: Result<u64, EnrollmentError>)
    ensures
        seconds matches Err(error) ==> error == EnrollmentError::InvalidMetadata,
{
    epoch_seconds_of(epoch_reading())
}

/// `issued` is a possible outcome of a Core issuance at `now`.
pub open spec fn core_outcome(
    issued: Result<IssuedCertificate, EnrollmentError>,
    measured: Result<usize, EnrollmentError>,
    csr: Seq<u8>,
    material: Option<&IssuerMaterial>,
    validity: (bool, bool),
    now: u64,
) -> bool {
    match csr_identity(csr) {
        Err(error) => issued == Err::<IssuedCertificate, EnrollmentError>(error),
        Ok(name) => issue_outcome(issued, measured, name, csr, 1, material, validity, now),
    }
}

/// `issued` is a possible outcome of a Core issuance: that of some readings of the clock.
pub open spec fn core_possible(
    issued: Result<IssuedCertificate, EnrollmentError>,
    measured: Result<usize, EnrollmentError>,
    csr: Seq<u8>,
    material: Option<&IssuerMaterial>,
) -> bool {
    exists|intermediate_at: i128, root_at: i128, now: u64|
        #[trigger] core_outcome(
            issued,
            measured,
            csr,
            material,
            validity_at(material, intermediate_at, root_at),
            now,
        )
}

/// Why a Core issuance fails whatever the signature, or `None` if it need not fail.
pub open spec fn core_refusal(
    measured: Result<usize, EnrollmentError>,
    csr: Seq<u8>,
    material: Option<&IssuerMaterial>,
    validity: (bool, bool),
    now: u64,
) -> Option<EnrollmentError> {
    let files = match material {
        Some(inner) => Some(*inner),
        None => None,
    };
    match csr_identity(csr) {
        Err(error) => Some(error),
        Ok(name) => match refusal_before_signing(
            measured,
            name,
            csr,
            1,
            files,
            validity.0,
            validity.1,
        ) {
            Some(error) => Some(error),
            None => if !validity_statable(now) || measured != Ok::<usize, EnrollmentError>(
                csr.len() as usize,
            ) {
                Some(EnrollmentError::InvalidMetadata)
            } else {
                None
            },
        },
    }
}

/// `material` is what reading the files of `paths` gives on a host that holds `host`: nothing if one
/// of them cannot be read.
pub open spec fn material_read(
    material: Option<&IssuerMaterial>,
    paths: IssuerPaths,
    host: spec_fn(Seq<char>) -> Option<Seq<u8>>,
) -> bool {
    match (
        host(paths.intermediate_certificate@),
        host(paths.intermediate_key@),
        host(paths.root_certificate@),
    ) {
        (Some(certificate), Some(key), Some(root)) => material matches Some(files) && {
            &&& files.intermediate_certificate@ == certificate
            &&& files.intermediate_key@ == key
            &&& files.root_certificate@ == root
        },
        _ => material is None,
    }
}

/// A Core issuance depends on the files for Core enrollment alone. On two hosts that agree on them,
/// the same request at the same readings of the clock is refused alike; one that is not refused is
/// issued unless it cannot be signed. What is issued ends in the intermediate certificate for Core
/// enrollment.
pub proof fn law_core_issuance_depends_on_its_own_files(
    first: Result<IssuedCertificate, EnrollmentError>,
    second: Result<IssuedCertificate, EnrollmentError>,
    measured: Result<usize, EnrollmentError>,
    csr: Seq<u8>,
    security: SecurityPaths,
    paths: IssuerPaths,
    here: spec_fn(Seq<char>) -> Option<Seq<u8>>,
    there: spec_fn(Seq<char>) -> Option<Seq<u8>>,
    read_here: Option<&IssuerMaterial>,
    read_there: Option<&IssuerMaterial>,
    instants: (i128, i128),
    now: u64,
)
    requires
        is_core_issuer(paths, security),
        here(security.core_intermediate_certificate@) == there(
            security.core_intermediate_certificate@,
        ),
        here(security.core_intermediate_key@) == there(security.core_intermediate_key@),
        here(security.root_certificate@) == there(security.root_certificate@),
        material_read(read_here, paths, here),
        material_read(read_there, paths, there),
        core_outcome(
            first,
            measured,
            csr,
            read_here,
            validity_at(read_here, instants.0, instants.1),
            now,
        ),
        core_outcome(
            second,
            measured,
            csr,
            read_there,
            validity_at(read_there, instants.0, instants.1),
            now,
        ),
    ensures
        ({
            let refusal = core_refusal(
                measured,
                csr,
                read_here,
                validity_at(read_here, instants.0, instants.1),
                now,
            );
            match refusal {
                Some(error) => {
                    &&& first == Err::<IssuedCertificate, EnrollmentError>(error)
                    &&& second == Err::<IssuedCertificate, EnrollmentError>(error)
                },
                None => {
                    &&& first matches Err(error) ==> error == EnrollmentError::InvalidMetadata
                    &&& second matches Err(error) ==> error == EnrollmentError::InvalidMetadata
                },
            }
        }),
        first matches Ok(issued) ==> {
            &&& issued@.certificate_chain.len() == 2
            &&& here(security.core_intermediate_certificate@) matches Some(pem)
            &&& first_certificate(pem) == Some(issued@.certificate_chain[1]@)
        },
        second matches Ok(issued) ==> {
            &&& issued@.certificate_chain.len() == 2
            &&& here(security.core_intermediate_certificate@) matches Some(pem)
            &&& first_certificate(pem) == Some(issued@.certificate_chain[1]@)
        },
{
    assert(validity_at(read_here, instants.0, instants.1) == validity_at(
        read_there,
        instants.0,
        instants.1,
    ));
}

/// A certificate is issued only for a self-signed request that names the App it is issued to, and
/// only from a root and an intermediate certificate that form a chain in force whose key is the
/// loaded one; its leaf is signed by that key, under that name.
pub proof fn law_issuance_is_bound(
    issued: IssuedCertificate,
    measured: Result<usize, EnrollmentError>,
    app_id: Seq<char>,
    csr: Seq<u8>,
    allowlist_generation: u64,
    material: Option<&IssuerMaterial>,
    validity: (bool, bool),
    now: u64,
)
    requires
        issue_outcome(
            Ok::<IssuedCertificate, EnrollmentError>(issued),
            measured,
            app_id,
            csr,
            allowlist_generation,
            material,
            validity,
            now,
        ),
    ensures
        csr_identity(csr) == Ok::<Seq<char>, EnrollmentError>(app_id),
        allowlist_generation > 0,
        material is Some,
        material_acceptable(*material->Some_0, validity.0, validity.1),
        issued@.app_identity == crate::certificates::sha256_of(
            crate::certificates::csr_fields_of(csr)->Some_0.1,
        ),
        issued@.certificate_chain.len() == 2,
        is_leaf(issued@.certificate_chain[0]@, app_id, csr, *material->Some_0, now),
        issued@.fingerprint == crate::certificates::sha256_of(issued@.certificate_chain[0]@),
        issued@.not_before_epoch_seconds < now < issued@.not_after_epoch_seconds,
        issued@.serial > 0,
{
}

/// A request that is refused on its own account is answered with its own error, whatever the
/// material, the clock and the signature.
pub proof fn law_refused_request_is_answered(
    issued: Result<IssuedCertificate, EnrollmentError>,
    measured: Result<usize, EnrollmentError>,
    app_id: Seq<char>,
    csr: Seq<u8>,
    allowlist_generation: u64,
    material: Option<&IssuerMaterial>,
    error: EnrollmentError,
)
    requires
        issue_possible(issued, measured, app_id, csr, allowlist_generation, material),
        requested_identity(measured, app_id, csr, allowlist_generation) == Err::<
            Seq<u8>,
            EnrollmentError,
        >(error),
    ensures
        issued == Err::<IssuedCertificate, EnrollmentError>(error),
{
}

/// A request names an App if and only if it can be read, is signed by its own key, and holds a name;
/// one without a name is told apart from one that cannot be used at all.
pub proof fn law_requests_name_their_app(csr: Seq<u8>)
    ensures
        ({
            let fields = crate::certificates::csr_fields_of(csr);
            let usable = fields is Some && crate::certificates::csr_signed(csr);
            &&& csr_identity(csr) is Ok <==> usable && fields->Some_0.0 is Some
            &&& csr_identity(csr) matches Ok(name) ==> fields->Some_0.0 == Some(name)
            &&& csr_identity(csr) == Err::<Seq<char>, EnrollmentError>(EnrollmentError::InvalidCsr)
                <==> !usable
            &&& csr_identity(csr) == Err::<Seq<char>, EnrollmentError>(EnrollmentError::CsrMismatch)
                <==> usable && fields->Some_0.0 is None
        }),
{
}

/// A request is accepted if and only if it was measured, its generation is not zero, and it names
/// exactly the App that it is for. Its identity is the digest of its key, which is never empty. What
/// could not be measured is told first, then a missing generation, then the request itself.
pub proof fn law_requests_are_for_their_app(
    measured: Result<usize, EnrollmentError>,
    app_id: Seq<char>,
    csr: Seq<u8>,
    allowlist_generation: u64,
)
    ensures
        ({
            let identity = requested_identity(measured, app_id, csr, allowlist_generation);
            let digest = crate::certificates::sha256_of(
                crate::certificates::csr_fields_of(csr)->Some_0.1,
            );
            &&& identity is Ok <==> measured is Ok && allowlist_generation > 0 && csr_identity(csr)
                == Ok::<Seq<char>, EnrollmentError>(app_id) && !crate::bytes::all_zero(digest)
            &&& identity matches Ok(told) ==> told == digest
            &&& measured matches Err(error) ==> identity == Err::<Seq<u8>, EnrollmentError>(error)
            &&& measured is Ok && allowlist_generation == 0 ==> identity == Err::<
                Seq<u8>,
                EnrollmentError,
            >(EnrollmentError::InvalidGeneration)
            &&& measured is Ok && allowlist_generation > 0 ==> (csr_identity(csr) matches Err(error)
                ==> identity == Err::<Seq<u8>, EnrollmentError>(error))
            &&& measured is Ok && allowlist_generation > 0 ==> (csr_identity(csr) matches Ok(name)
                ==> (name != app_id ==> identity == Err::<Seq<u8>, EnrollmentError>(
                EnrollmentError::CsrMismatch,
            )))
        }),
{
}

/// A chain is accepted if and only if both certificates can be read, are authorities that sign
/// certificates and are valid now, the root signed the intermediate under its own name, and the root
/// signed itself.
pub proof fn law_issuers_have_a_root(
    intermediate: Seq<u8>,
    root: Seq<u8>,
    intermediate_valid: bool,
    root_valid: bool,
)
    ensures
        ({
            let lower = crate::certificates::certificate_fields_of(intermediate);
            let upper = crate::certificates::certificate_fields_of(root);
            chain_acceptable(intermediate, root, intermediate_valid, root_valid) <==> {
                &&& lower is Some && upper is Some
                &&& intermediate_valid && root_valid
                &&& lower->Some_0.is_authority && lower->Some_0.signs_certificates
                &&& upper->Some_0.is_authority && upper->Some_0.signs_certificates
                &&& lower->Some_0.issuer == upper->Some_0.subject
                &&& upper->Some_0.issuer == upper->Some_0.subject
                &&& crate::certificates::certificate_signed(intermediate, root)
                &&& crate::certificates::certificate_signed(root, root)
            }
        }),
        chain_acceptable(intermediate, root, intermediate_valid, root_valid) ==> chain_acceptable(
            root,
            root,
            root_valid,
            root_valid,
        ),
{
}

/// Material is accepted if and only if the first certificates of both files make an accepted chain and
/// the key is text, belongs to the intermediate and can sign for it.
pub proof fn law_issuers_hold_their_key(
    material: IssuerMaterial,
    intermediate_valid: bool,
    root_valid: bool,
)
    ensures
        material_acceptable(material, intermediate_valid, root_valid) <==> (match (
            first_certificate(material.intermediate_certificate@),
            first_certificate(material.root_certificate@),
        ) {
            (Some(intermediate), Some(root)) => {
                let key = vstd::utf8::decode_utf8(material.intermediate_key@);
                &&& chain_acceptable(intermediate, root, intermediate_valid, root_valid)
                &&& vstd::utf8::valid_utf8(material.intermediate_key@)
                &&& crate::certificates::key_pem_public_key_of(key) == Some(
                    crate::certificates::certificate_fields_of(intermediate)->Some_0.public_key,
                )
                &&& crate::certificates::issuer_usable_of(intermediate, key)
            },
            _ => false,
        }),
{
}

/// The first certificate of a file is the first that stands in it, if it can be read.
pub proof fn law_first_certificates_come_first(pem: Seq<u8>)
    ensures
        ({
            let items = crate::certificates::pem_certificates_of(pem);
            &&& items.len() == 0 ==> first_certificate(pem) is None
            &&& items.len() > 0 ==> first_certificate(pem) == items[0]
        }),
{
}

/// A certificate is issued for signatures of a client, is valid from a minute ago for ninety days, and
/// bears the name of its App. It can be dated if and only if both ends can be.
pub proof fn law_certificates_last_ninety_days(profile: LeafProfile, app_id: Seq<char>, now: u64)
    ensures
        validity_statable(now) <==> 60 <= now && now + 90 * 86400 <= i64::MAX,
        is_leaf_profile(profile, app_id, now) ==> {
            &&& profile.common_name@ == app_id
            &&& profile.usage == LeafUsage::DigitalSignature
            &&& profile.purpose == LeafPurpose::ClientAuth
            &&& profile.not_before == now - 60
            &&& profile.not_after == now + 90 * 86400
        },
{
}

/// A serial number is never zero: it is the number of the first eight bytes of the digest, and one in
/// place of zero.
pub proof fn law_serials_are_not_zero(digest: Seq<u8>)
    requires
        digest.len() == 32,
    ensures
        serial_of(digest) > 0,
        crate::bytes::be_value(digest.subrange(0, 8)) > 0 ==> serial_of(digest)
            == crate::bytes::be_value(digest.subrange(0, 8)),
        serial_of(digest) <= u64::MAX,
{
    crate::bytes::lemma_be_value_bound(digest.subrange(0, 8));
    reveal_with_fuel(crate::bytes::radix_pow, 9);
}

/// An issued certificate is the leaf with its issuer behind it, is known by the digest of the leaf,
/// and is dated as its leaf is.
pub proof fn law_issued_certificates_stand_on_their_issuer(
    issued: IssuedCertificate,
    leaf: Seq<u8>,
    intermediate: Seq<u8>,
    app_identity: Seq<u8>,
    now: u64,
)
    requires
        is_issued(issued, leaf, intermediate, app_identity, now),
    ensures
        issued@.certificate_chain.len() == 2,
        issued@.certificate_chain[0]@ == leaf,
        issued@.certificate_chain[1]@ == intermediate,
        issued@.fingerprint == crate::certificates::sha256_of(leaf),
        issued@.app_identity == app_identity,
        issued@.not_before_epoch_seconds == now - 60,
        issued@.not_after_epoch_seconds == now + 90 * 86400,
        issued@.not_after_epoch_seconds - issued@.not_before_epoch_seconds == 90 * 86400 + 60,
{
}

/// A request comes to be signed if and only if it is accepted for its App, the material of the issuer
/// is there and accepted, and the request can be signed. The request is told before the material.
pub proof fn law_requests_are_signed_when_all_holds(
    measured: Result<usize, EnrollmentError>,
    app_id: Seq<char>,
    csr: Seq<u8>,
    allowlist_generation: u64,
    material: Option<IssuerMaterial>,
    intermediate_valid: bool,
    root_valid: bool,
)
    ensures
        ({
            let refusal = refusal_before_signing(
                measured,
                app_id,
                csr,
                allowlist_generation,
                material,
                intermediate_valid,
                root_valid,
            );
            let identity = requested_identity(measured, app_id, csr, allowlist_generation);
            let ready = material matches Some(files) && material_acceptable(
                files,
                intermediate_valid,
                root_valid,
            );
            &&& refusal is None <==> identity is Ok && ready && crate::certificates::csr_usable_of(
                csr,
            )
            &&& identity matches Err(error) ==> refusal == Some(error)
            &&& identity is Ok && !ready ==> refusal == Some(EnrollmentError::InvalidMetadata)
            &&& identity is Ok && ready && !crate::certificates::csr_usable_of(csr) ==> refusal
                == Some(EnrollmentError::InvalidCsr)
        }),
{
}

/// A request for a Core is one for the name that it holds itself, at the first generation. It is
/// refused as such a request is, and otherwise only where the certificate cannot be dated or the
/// request was not measured whole.
pub proof fn law_core_requests_name_themselves(
    measured: Result<usize, EnrollmentError>,
    csr: Seq<u8>,
    material: Option<&IssuerMaterial>,
    validity: (bool, bool),
    now: u64,
)
    ensures
        ({
            let refusal = core_refusal(measured, csr, material, validity, now);
            let files = match material {
                Some(inner) => Some(*inner),
                None => None,
            };
            &&& csr_identity(csr) matches Err(error) ==> refusal == Some(error)
            &&& csr_identity(csr) matches Ok(name) ==> {
                let before = refusal_before_signing(
                    measured,
                    name,
                    csr,
                    1,
                    files,
                    validity.0,
                    validity.1,
                );
                &&& before is Some ==> refusal == before
                &&& before is None ==> (refusal is None <==> 60 <= now && now + 90 * 86400
                    <= i64::MAX && measured == Ok::<usize, EnrollmentError>(csr.len() as usize))
                &&& before is None && refusal is Some ==> refusal == Some(
                    EnrollmentError::InvalidMetadata,
                )
            }
        }),
{
}

/// A request for a Core that names nobody is refused for that, whatever the time. A certificate that
/// is issued for one stands on the issuer of its own files, which were accepted.
pub proof fn law_core_certificates_stand_on_their_files(
    issued: Result<IssuedCertificate, EnrollmentError>,
    measured: Result<usize, EnrollmentError>,
    csr: Seq<u8>,
    material: Option<&IssuerMaterial>,
)
    requires
        core_possible(issued, measured, csr, material),
    ensures
        csr_identity(csr) matches Err(error) ==> issued == Err::<IssuedCertificate, EnrollmentError>(
            error,
        ),
        measured matches Err(error) ==> issued is Err,
        material is None ==> issued is Err,
        issued matches Ok(certificate) ==> {
            &&& certificate@.certificate_chain.len() == 2
            &&& (material matches Some(files) && first_certificate(
                files.intermediate_certificate@,
            ) == Some(certificate@.certificate_chain[1]@))
            &&& certificate@.fingerprint == crate::certificates::sha256_of(
                certificate@.certificate_chain[0]@,
            )
            &&& measured == Ok::<usize, EnrollmentError>(csr.len() as usize)
        },
{
}

/// A certificate is in force if and only if it can be read from its file and is in force by its own
/// dates.
pub proof fn law_files_are_in_force_by_their_first(pem: Seq<u8>, at: i128)
    ensures
        first_certificate(pem) is None ==> !first_certificate_in_force(pem, at),
        first_certificate(pem) matches Some(der) ==> (first_certificate_in_force(pem, at)
            <==> crate::certificates::certificate_in_force(der, at)),
{
}

} // verus!
