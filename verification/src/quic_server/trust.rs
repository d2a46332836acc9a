//! Digests and certificate material of the QUIC server.

use crate::bytes::{copy_16, is_all_zero, push_be, same_bytes};
use crate::certificates::{
    certificate_signed_by, pem_certificates, pem_private_key, read_certificate, sha256,
    PrivateKeyBytes,
};
use crate::error::{RelayError, RelayResult};
use crate::issuance::IssuanceResultKey;
use crate::pki::copy_bytes;
use crate::text::read_hex_32;
use vstd::prelude::*;

verus! {

/// Prefix that separates issuance identifiers from other digests.
pub const ISSUANCE_ID_DOMAIN: &'static str = "herdr-dog-hde3-issuance-id-v1";

/// The 32 bytes that a lowercase hexadecimal digest denotes, or why it is refused.
pub open spec fn hex_digest(value: Seq<char>) -> RelayResult<Seq<u8>> {
    let digits = vstd::utf8::encode_utf8(value);
    if digits.len() != 64 || !crate::text::all_hex(digits, true) {
        Err(RelayError::QuicProtocol { reason: "HDE3 digest is invalid" })
    } else if crate::bytes::all_zero(crate::text::hex_bytes(digits, true)) {
        Err(RelayError::QuicProtocol { reason: "HDE3 digest is empty" })
    } else {
        Ok(crate::text::hex_bytes(digits, true))
    }
}

/// Decodes one lowercase hexadecimal 32-byte digest.
pub fn decode_hex_digest(value: &str) -> (digest: RelayResult<[u8; 32]>)
    ensures
        match digest {
            Ok(bytes) => hex_digest(value@) == Ok::<Seq<u8>, RelayError>(bytes@),
            Err(error) => hex_digest(value@) == Err::<Seq<u8>, RelayError>(error),
        },
{
    match read_hex_32(value.as_bytes(), true) {
        None => Err(RelayError::QuicProtocol { reason: "HDE3 digest is invalid" }),
        Some(bytes) => {
            if is_all_zero(&bytes) {
                return Err(RelayError::QuicProtocol { reason: "HDE3 digest is empty" });
            }
            Ok(bytes)
        },
    }
}

/// The issuance identifier of an approval: the first half of a domain-separated digest, with the
/// first byte set to one if all are zero.
pub open spec fn authorization_id_of(approval_id: Seq<u8>) -> Seq<u8> {
    let half = crate::certificates::sha256_of(
        vstd::utf8::encode_utf8(ISSUANCE_ID_DOMAIN@) + approval_id,
    ).subrange(0, 16);
    if crate::bytes::all_zero(half) {
        half.update(0, 1)
    } else {
        half
    }
}

/// Derives the issuance identifier of an approval.
pub fn hde3_authorization_id(approval_id: &[u8; 32]) -> (id: [u8; 16])
    ensures
        id@ == authorization_id_of(approval_id@),
        !crate::bytes::all_zero(id@),
{
    let mut input: Vec<u8> = vstd::slice::slice_to_vec(ISSUANCE_ID_DOMAIN.as_bytes());
    let mut tail: Vec<u8> = vstd::slice::slice_to_vec(approval_id);
    input.append(&mut tail);
    let digest = sha256(input.as_slice());
    let mut id = copy_16(&digest, 0);
    if is_all_zero(&id) {
        id[0] = 1;
        assert(id@[0] == 1);
    }
    id
}

/// Derives the issuance key of an approval and a signing request.
pub fn hde3_issuance_key(approval_id: &[u8; 32], csr_digest: [u8; 32]) -> (key: IssuanceResultKey)
    requires
        !crate::bytes::all_zero(csr_digest@),
    ensures
        key@ == (crate::issuance::KeyView {
            authorization_id: authorization_id_of(approval_id@),
            csr_digest: csr_digest@,
        }),
        crate::issuance::key_valid(key@),
{
    IssuanceResultKey::stored(hde3_authorization_id(approval_id), csr_digest)
}

/// The bytes that a chain digest covers: each certificate behind its length in eight bytes.
pub open spec fn chain_digest_input(chain: Seq<Seq<u8>>) -> Seq<u8>
    decreases chain.len(),
{
    if chain.len() == 0 {
        Seq::empty()
    } else {
        crate::bytes::be_bytes(chain[0].len(), 8) + chain[0] + chain_digest_input(
            chain.drop_first(),
        )
    }
}

/// The length-delimited digest of a chain.
pub open spec fn chain_digest_of(chain: Seq<Seq<u8>>) -> Seq<u8> {
    crate::certificates::sha256_of(chain_digest_input(chain))
}

/// Computes the length-delimited digest of a public certificate chain.
pub fn public_chain_digest(chain: &Vec<Vec<u8>>) -> (digest: [u8; 32])
    ensures
        digest@ == chain_digest_of(crate::issuance::chain_view(chain@)),
{
    let ghost all = crate::issuance::chain_view(chain@);
    let mut input: Vec<u8> = Vec::new();
    let mut i: usize = 0;
    assert(all.skip(0) =~= all);
    assert(input@ + chain_digest_input(all) =~= chain_digest_input(all));
    while i < chain.len()
        invariant
            i <= chain@.len(),
            all == crate::issuance::chain_view(chain@),
            input@ + chain_digest_input(all.skip(i as int)) == chain_digest_input(all),
        decreases chain@.len() - i,
    {
        let ghost before = input@;
        let ghost rest = all.skip(i as int);
        push_be(&mut input, chain[i].len() as u64, 8);
        let mut certificate = copy_bytes(&chain[i]);
        input.append(&mut certificate);
        proof {
            assert(rest[0] == chain@[i as int]@);
            assert(rest.drop_first() =~= all.skip(i + 1));
            assert(input@ + chain_digest_input(all.skip(i + 1)) =~= before + chain_digest_input(
                rest,
            ));
        }
        i = i + 1;
    }
    assert(all.skip(i as int).len() == 0);
    assert(input@ =~= chain_digest_input(all));
    sha256(input.as_slice())
}

/// The bytes that a chain digest covers determine the chain: two different chains of certificates
/// below 2^64 bytes are never covered by the same bytes.
pub proof fn law_chain_digest_input_is_injective(left: Seq<Seq<u8>>, right: Seq<Seq<u8>>)
    requires
        chain_digest_input(left) == chain_digest_input(right),
        forall|i: int| 0 <= i < left.len() ==> (#[trigger] left[i]).len() <= u64::MAX,
        forall|i: int| 0 <= i < right.len() ==> (#[trigger] right[i]).len() <= u64::MAX,
    ensures
        left == right,
    decreases left.len(),
{
    let whole = chain_digest_input(left);
    if left.len() > 0 {
        crate::bytes::lemma_be_bytes_len(left[0].len(), 8);
        assert(whole.len() >= 8);
    } else {
        assert(whole.len() == 0);
    }
    if right.len() > 0 {
        crate::bytes::lemma_be_bytes_len(right[0].len(), 8);
        assert(chain_digest_input(right).len() >= 8);
    } else {
        assert(chain_digest_input(right).len() == 0);
    }
    if left.len() > 0 && right.len() > 0 {
        let n = left[0].len();
        let m = right[0].len();
        reveal_with_fuel(crate::bytes::radix_pow, 9);
        crate::bytes::lemma_be_value_of_bytes(n, 8);
        crate::bytes::lemma_be_value_of_bytes(m, 8);
        assert(crate::bytes::be_bytes(n, 8) =~= whole.take(8));
        assert(crate::bytes::be_bytes(m, 8) =~= whole.take(8));
        assert(n == m);
        assert(left[0] =~= whole.subrange(8, (8 + n) as int));
        assert(right[0] =~= whole.subrange(8, (8 + n) as int));
        let a = left.drop_first();
        let b = right.drop_first();
        assert(chain_digest_input(a) =~= whole.skip((8 + n) as int));
        assert(chain_digest_input(b) =~= whole.skip((8 + n) as int));
        assert forall|i: int| 0 <= i < a.len() implies (#[trigger] a[i]).len() <= u64::MAX by {
            assert(a[i] == left[i + 1]);
        }
        assert forall|i: int| 0 <= i < b.len() implies (#[trigger] b[i]).len() <= u64::MAX by {
            assert(b[i] == right[i + 1]);
        }
        law_chain_digest_input_is_injective(a, b);
        assert(left =~= seq![left[0]] + a);
        assert(right =~= seq![right[0]] + b);
    } else {
        assert(left.len() == 0 && right.len() == 0);
        assert(left =~= right);
    }
}

/// The identity digest of a chain: that of the leaf's SubjectPublicKeyInfo.
pub open spec fn chain_identity(chain: Seq<Seq<u8>>) -> Option<Seq<u8>> {
    if chain.len() == 0 {
        None
    } else {
        match crate::certificates::certificate_fields_of(chain[0]) {
            Some(fields) => Some(crate::certificates::sha256_of(fields.public_key_info)),
            None => None,
        }
    }
}

/// Derives the App identity from the leaf of a chain.
pub fn certificate_identity_digest(chain: &Vec<Vec<u8>>) -> (digest: Option<[u8; 32]>)
    ensures
        crate::issuance::digest_view(digest) == chain_identity(
            crate::issuance::chain_view(chain@),
        ),
{
    if chain.len() == 0 {
        return None;
    }
    assert(crate::issuance::chain_view(chain@)[0] == chain@[0]@);
    match read_certificate(chain[0].as_slice()) {
        Some(fields) => Some(sha256(fields.public_key_info.as_slice())),
        None => None,
    }
}

/// `issuer` issued the certificate `leaf`, and is one of the anchors.
pub open spec fn issued_by_anchor(
    leaf: Seq<u8>,
    issuer: Seq<u8>,
    anchors: Seq<Seq<u8>>,
) -> bool {
    match (
        crate::certificates::certificate_fields_of(leaf),
        crate::certificates::certificate_fields_of(issuer),
    ) {
        (Some(lower), Some(upper)) => {
            &&& lower.issuer == upper.subject
            &&& crate::certificates::certificate_signed(leaf, issuer)
            &&& exists|j: int|
                0 <= j < anchors.len() && crate::certificates::sha256_of(issuer)
                    == crate::certificates::sha256_of(#[trigger] anchors[j])
        },
        _ => false,
    }
}

/// A certificate behind the leaf issued it and is one of the anchors.
pub open spec fn chain_matches_anchor(chain: Seq<Seq<u8>>, anchors: Seq<Seq<u8>>) -> bool {
    exists|i: int| 1 <= i < chain.len() && issued_by_anchor(chain[0], #[trigger] chain[i], anchors)
}

/// Tells whether the digest of `issuer` is that of an anchor.
fn is_anchor(issuer: &Vec<u8>, anchors: &Vec<Vec<u8>>) -> (found: bool)
    ensures
        found == exists|j: int|
            0 <= j < anchors@.len() && crate::certificates::sha256_of(issuer@)
                == crate::certificates::sha256_of(
                #[trigger] crate::issuance::chain_view(anchors@)[j],
            ),
{
    let ghost all = crate::issuance::chain_view(anchors@);
    let digest = sha256(issuer.as_slice());
    let mut j: usize = 0;
    while j < anchors.len()
        invariant
            j <= anchors@.len(),
            all == crate::issuance::chain_view(anchors@),
            digest@ == crate::certificates::sha256_of(issuer@),
            forall|k: int|
                0 <= k < j ==> digest@ != crate::certificates::sha256_of(#[trigger] all[k]),
        decreases anchors@.len() - j,
    {
        let other = sha256(anchors[j].as_slice());
        assert(all[j as int] == anchors@[j as int]@);
        if same_bytes(&digest, &other) {
            return true;
        }
        j = j + 1;
    }
    false
}

/// Tells whether the actual issuer of the presented leaf is one of the anchors.
pub fn certificate_chain_matches_anchor(certificates: &Vec<Vec<u8>>, anchors: &Vec<Vec<u8>>) -> (matches_anchor:
    bool)
    ensures
        matches_anchor == chain_matches_anchor(
            crate::issuance::chain_view(certificates@),
            crate::issuance::chain_view(anchors@),
        ),
{
    let ghost chain = crate::issuance::chain_view(certificates@);
    let ghost trusted = crate::issuance::chain_view(anchors@);
    if certificates.len() == 0 {
        return false;
    }
    assert(chain[0] == certificates@[0]@);
    let leaf = match read_certificate(certificates[0].as_slice()) {
        Some(fields) => fields,
        None => {
            return false;
        },
    };
    let mut i: usize = 1;
    while i < certificates.len()
        invariant
            1 <= i <= certificates@.len(),
            chain == crate::issuance::chain_view(certificates@),
            trusted == crate::issuance::chain_view(anchors@),
            chain[0] == certificates@[0]@,
            crate::certificates::certificate_fields_of(chain[0]) == Some(leaf@),
            forall|k: int|
                1 <= k < i ==> !issued_by_anchor(chain[0], #[trigger] chain[k], trusted),
        decreases certificates@.len() - i,
    {
        assert(chain[i as int] == certificates@[i as int]@);
        if let Some(issuer) = read_certificate(certificates[i].as_slice()) {
            if same_bytes(leaf.issuer.as_slice(), issuer.subject.as_slice())
                && certificate_signed_by(certificates[0].as_slice(), certificates[i].as_slice())
                && is_anchor(&certificates[i], anchors) {
                assert(issued_by_anchor(chain[0], chain[i as int], trusted));
                return true;
            }
        }
        i = i + 1;
    }
    false
}

/// A chain that holds an anchor which did not issue its leaf, and no certificate that did, does
/// not match: stuffing anchors into a chain gains nothing.
pub proof fn law_stuffed_chain_does_not_match(chain: Seq<Seq<u8>>, anchors: Seq<Seq<u8>>)
    requires
        forall|i: int|
            1 <= i < chain.len() ==> !crate::certificates::certificate_signed(
                chain[0],
                #[trigger] chain[i],
            ),
    ensures
        !chain_matches_anchor(chain, anchors),
{
}

/// Every section of the PEM text that is a certificate can be decoded.
pub open spec fn pem_decodes(pem: Seq<u8>) -> bool {
    let items = crate::certificates::pem_certificates_of(pem);
    forall|i: int| 0 <= i < items.len() ==> (#[trigger] items[i]) is Some
}

/// Reads every certificate of a PEM text; `reason` is reported if one cannot be decoded.
pub fn load_certificates_from_bytes(pem: &[u8], reason: &'static str) -> (certificates: RelayResult<
    Vec<Vec<u8>>,
>)
    ensures
        match certificates {
            Ok(chain) => pem_decodes(pem@) && crate::issuance::chain_view(chain@)
                == crate::certificates::pem_certificates_of(pem@).map_values(
                |item: Option<Seq<u8>>| item->Some_0,
            ),
            Err(error) => !pem_decodes(pem@) && error == (RelayError::TlsConfiguration { reason }),
        },
{
    let items = pem_certificates(pem);
    let ghost decoded = crate::certificates::pem_certificates_of(pem@);
    assert(decoded == items@.map_values(
        |item: Option<Vec<u8>>| crate::certificates::bytes_of(item),
    ));
    let mut chain: Vec<Vec<u8>> = Vec::new();
    let mut i: usize = 0;
    while i < items.len()
        invariant
            i <= items@.len(),
            decoded == items@.map_values(
                |item: Option<Vec<u8>>| crate::certificates::bytes_of(item),
            ),
            decoded == crate::certificates::pem_certificates_of(pem@),
            chain@.len() == i,
            forall|k: int| 0 <= k < i ==> (#[trigger] decoded[k]) == Some(chain@[k]@),
        decreases items@.len() - i,
    {
        assert(decoded[i as int] == crate::certificates::bytes_of(items@[i as int]));
        match &items[i] {
            Some(der) => {
                chain.push(copy_bytes(der));
            },
            None => {
                return Err(RelayError::TlsConfiguration { reason });
            },
        }
        i = i + 1;
    }
    assert(crate::issuance::chain_view(chain@) =~= decoded.map_values(
        |item: Option<Seq<u8>>| item->Some_0,
    )) by {
        assert forall|k: int| 0 <= k < chain@.len() implies crate::issuance::chain_view(chain@)[k]
            == decoded[k]->Some_0 by {
            assert(decoded[k] == Some(chain@[k]@));
        }
    }
    Ok(chain)
}

/// The digest of the first server certificate, which the Relay repeats as its identity.
pub fn relay_identity(certificates: &Vec<Vec<u8>>) -> (identity: RelayResult<[u8; 32]>)
    ensures
        match identity {
            Ok(digest) => certificates@.len() > 0 && digest@ == crate::certificates::sha256_of(
                certificates@[0]@,
            ),
            Err(error) => certificates@.len() == 0 && error == (RelayError::TlsConfiguration {
                reason: "server certificate chain is empty",
            }),
        },
{
    if certificates.len() == 0 {
        return Err(RelayError::TlsConfiguration { reason: "server certificate chain is empty" });
    }
    Ok(sha256(certificates[0].as_slice()))
}

/// The digest of the peer's leaf certificate; `None` says that the peer presented no chain.
///
/// A peer without a leaf, or with a leaf whose digest is all zero, is not authenticated.
pub fn peer_certificate_fingerprint(chain: Option<&Vec<Vec<u8>>>) -> (fingerprint: RelayResult<
    [u8; 32],
>)
    ensures
        match fingerprint {
            Ok(digest) => chain is Some && chain->Some_0@.len() > 0 && digest@
                == crate::certificates::sha256_of(chain->Some_0@[0]@) && !crate::bytes::all_zero(
                digest@,
            ),
            Err(error) => error == RelayError::QuicAuthentication && (chain is None
                || chain->Some_0@.len() == 0 || crate::bytes::all_zero(
                crate::certificates::sha256_of(chain->Some_0@[0]@),
            )),
        },
{
    match chain {
        None => Err(RelayError::QuicAuthentication),
        Some(certificates) => {
            if certificates.len() == 0 {
                return Err(RelayError::QuicAuthentication);
            }
            let digest = sha256(certificates[0].as_slice());
            if is_all_zero(&digest) {
                return Err(RelayError::QuicAuthentication);
            }
            Ok(digest)
        },
    }
}

/// Reads the certificates of a protected file; `read` holds its bytes, or why they were refused.
pub fn load_certificates(read: &RelayResult<Vec<u8>>) -> (certificates: RelayResult<Vec<Vec<u8>>>)
    ensures
        match *read {
            Err(_) => certificates matches Err(error) && error == (RelayError::TlsConfiguration {
                reason: "certificate material is unsafe",
            }),
            Ok(pem) => match certificates {
                Ok(chain) => pem_decodes(pem@) && crate::issuance::chain_view(chain@)
                    == crate::certificates::pem_certificates_of(pem@).map_values(
                    |item: Option<Seq<u8>>| item->Some_0,
                ),
                Err(error) => !pem_decodes(pem@) && error == (RelayError::TlsConfiguration {
                    reason: "certificate PEM is invalid",
                }),
            },
        },
{
    match read {
        Err(_) => Err(RelayError::TlsConfiguration { reason: "certificate material is unsafe" }),
        Ok(pem) => load_certificates_from_bytes(pem.as_slice(), "certificate PEM is invalid"),
    }
}

/// Reads the private key of a protected file; `read` holds its bytes, or why they were refused.
pub fn load_private_key(read: &RelayResult<Vec<u8>>) -> (key: RelayResult<PrivateKeyBytes>)
    ensures
        match *read {
            Err(_) => key matches Err(error) && error == (RelayError::TlsConfiguration {
                reason: "private-key material is unsafe",
            }),
            Ok(pem) => match crate::certificates::pem_private_key_of(pem@) {
                None => key matches Err(error) && error == (RelayError::TlsConfiguration {
                    reason: "private-key PEM is invalid",
                }),
                Some(None) => key matches Err(error) && error == (RelayError::TlsConfiguration {
                    reason: "private-key PEM is empty",
                }),
                Some(Some((encoding, der))) => key matches Ok(found) && found.encoding == encoding
                    && found.der@ == der,
            },
        },
{
    let pem = match read {
        Err(_) => {
            return Err(RelayError::TlsConfiguration { reason: "private-key material is unsafe" });
        },
        Ok(pem) => pem,
    };
    match pem_private_key(pem.as_slice()) {
        None => Err(RelayError::TlsConfiguration { reason: "private-key PEM is invalid" }),
        Some(None) => Err(RelayError::TlsConfiguration { reason: "private-key PEM is empty" }),
        Some(Some(key)) => Ok(key),
    }
}

/// Decides on a client trust store: `accepted` says that every certificate could be added, and
/// `count` how many the store holds.
pub fn client_roots_outcome(accepted: bool, count: usize) -> (outcome: RelayResult<()>)
    ensures
        match outcome {
            Ok(_) => accepted && count > 0,
            Err(error) => (!accepted || count == 0) && error == (RelayError::TlsConfiguration {
                reason: if !accepted {
                    "trusted client CA is invalid"
                } else {
                    "trusted client CA is empty"
                },
            }),
        },
{
    if !accepted {
        return Err(RelayError::TlsConfiguration { reason: "trusted client CA is invalid" });
    }
    if count == 0 {
        return Err(RelayError::TlsConfiguration { reason: "trusted client CA is empty" });
    }
    Ok(())
}

/// A digest is read if and only if it is 64 small hexadecimal digits that are not all zero, and every
/// digest of 32 bytes is read back from its text.
pub proof fn law_digests_are_read_back(value: Seq<char>, bytes: Seq<u8>)
    ensures
        ({
            let digits = vstd::utf8::encode_utf8(value);
            &&& hex_digest(value) matches Ok(digest) ==> digest.len() == 32
                && !crate::bytes::all_zero(digest) && digits.len() == 64
            &&& digits.len() != 64 || (exists|i: int|
                0 <= i < digits.len() && crate::text::nibble(#[trigger] digits[i], true) is None)
                ==> hex_digest(value) == Err::<Seq<u8>, RelayError>(
                RelayError::QuicProtocol { reason: "HDE3 digest is invalid" },
            )
        }),
        bytes.len() == 32 && !crate::bytes::all_zero(bytes) ==> hex_digest(
            crate::text::hex_text(bytes),
        ) == Ok::<Seq<u8>, RelayError>(bytes),
        bytes.len() == 32 && crate::bytes::all_zero(bytes) ==> hex_digest(
            crate::text::hex_text(bytes),
        ) == Err::<Seq<u8>, RelayError>(
            RelayError::QuicProtocol { reason: "HDE3 digest is empty" },
        ),
{
    crate::text::law_hex_round_trip(bytes, true);
}

/// The identity of an authorization is never empty and has 16 bytes: the first half of the digest of
/// its approval within its own domain.
pub proof fn law_authorization_ids_are_half_digests(approval_id: Seq<u8>)
    requires
        crate::certificates::sha256_of(
            vstd::utf8::encode_utf8("herdr-dog-hde3-issuance-id-v1"@) + approval_id,
        ).len() == 32,
    ensures
        ({
            let digest = crate::certificates::sha256_of(
                vstd::utf8::encode_utf8("herdr-dog-hde3-issuance-id-v1"@) + approval_id,
            );
            let id = authorization_id_of(approval_id);
            &&& id.len() == 16
            &&& !crate::bytes::all_zero(id)
            &&& forall|i: int| 1 <= i < 16 ==> #[trigger] id[i] == digest[i]
            &&& !crate::bytes::all_zero(digest.subrange(0, 16)) ==> id == digest.subrange(0, 16)
        }),
{
    let half = crate::certificates::sha256_of(
        vstd::utf8::encode_utf8("herdr-dog-hde3-issuance-id-v1"@) + approval_id,
    ).subrange(0, 16);
    let id = authorization_id_of(approval_id);
    if crate::bytes::all_zero(half) {
        assert(id[0] == 1);
    }
}

/// A chain has an identity if and only if its first certificate can be read, whose key gives it: what
/// follows the first certificate has no part in it.
pub proof fn law_identity_is_that_of_the_first_key(
    chain: Seq<Seq<u8>>,
    other: Seq<Seq<u8>>,
)
    requires
        chain.len() > 0,
        other.len() > 0,
        chain[0] == other[0],
    ensures
        chain_identity(chain) == chain_identity(other),
        chain_identity(chain) is Some <==> crate::certificates::certificate_fields_of(chain[0])
            is Some,
        crate::certificates::certificate_fields_of(chain[0]) matches Some(fields)
            ==> chain_identity(chain) == Some(
            crate::certificates::sha256_of(fields.public_key_info),
        ),
        chain_identity(Seq::empty()) is None,
{
}

/// A chain matches if and only if some certificate behind its first one is an anchor by its digest,
/// signed the first one, and bears the name of its issuer. More anchors never unmatch a chain.
pub proof fn law_matching_chains_have_an_anchor(
    chain: Seq<Seq<u8>>,
    anchors: Seq<Seq<u8>>,
    more: Seq<Seq<u8>>,
)
    ensures
        chain_matches_anchor(chain, anchors) ==> chain.len() >= 2 && anchors.len() > 0 && exists|
            i: int,
            j: int,
        |
            1 <= i < chain.len() && 0 <= j < anchors.len()
                && crate::certificates::certificate_signed(chain[0], #[trigger] chain[i])
                && crate::certificates::sha256_of(chain[i]) == crate::certificates::sha256_of(
                #[trigger] anchors[j],
            ) && (crate::certificates::certificate_fields_of(chain[0]) matches Some(lower) && (
            crate::certificates::certificate_fields_of(chain[i]) matches Some(upper)
                && lower.issuer == upper.subject)),
        chain_matches_anchor(chain, anchors) ==> chain_matches_anchor(chain, anchors + more),
{
    if chain_matches_anchor(chain, anchors) {
        let i = choose|i: int|
            1 <= i < chain.len() && issued_by_anchor(chain[0], #[trigger] chain[i], anchors);
        let j = choose|j: int|
            0 <= j < anchors.len() && crate::certificates::sha256_of(chain[i])
                == crate::certificates::sha256_of(#[trigger] anchors[j]);
        assert((anchors + more)[j] == anchors[j]);
        assert(issued_by_anchor(chain[0], chain[i], anchors + more));
        assert(crate::certificates::certificate_signed(chain[0], chain[i]));
    }
}

/// A chain whose first certificate was signed, under the name of its issuer, by one of its own
/// certificates that is an anchor, matches.
pub proof fn law_anchored_chains_match(chain: Seq<Seq<u8>>, anchors: Seq<Seq<u8>>, i: int, j: int)
    requires
        1 <= i < chain.len(),
        0 <= j < anchors.len(),
        chain[i] == anchors[j],
        crate::certificates::certificate_signed(chain[0], chain[i]),
        crate::certificates::certificate_fields_of(chain[0]) is Some,
        crate::certificates::certificate_fields_of(chain[i]) is Some,
        crate::certificates::certificate_fields_of(chain[0])->Some_0.issuer
            == crate::certificates::certificate_fields_of(chain[i])->Some_0.subject,
    ensures
        chain_matches_anchor(chain, anchors),
{
    assert(crate::certificates::sha256_of(chain[i]) == crate::certificates::sha256_of(anchors[j]));
    assert(issued_by_anchor(chain[0], chain[i], anchors));
}

/// A bundle decodes if and only if none of its certificates fails to.
pub proof fn law_bundles_decode_whole(pem: Seq<u8>)
    ensures
        !pem_decodes(pem) <==> exists|i: int|
            0 <= i < crate::certificates::pem_certificates_of(pem).len() && (
            #[trigger] crate::certificates::pem_certificates_of(pem)[i]) is None,
{
}

/// The digest of a chain covers each certificate behind its own length: one more certificate at the
/// end adds its eight bytes of length and its bytes.
pub proof fn law_chain_digest_covers_each_certificate(chain: Seq<Seq<u8>>, last: Seq<u8>)
    ensures
        chain_digest_input(chain.push(last)) == chain_digest_input(chain) + crate::bytes::be_bytes(
            last.len(),
            8,
        ) + last,
        chain_digest_of(chain) == crate::certificates::sha256_of(chain_digest_input(chain)),
        chain_digest_input(Seq::empty()) == Seq::<u8>::empty(),
    decreases chain.len(),
{
    reveal_with_fuel(chain_digest_input, 2);
    if chain.len() == 0 {
        assert(chain.push(last).drop_first() =~= Seq::<Seq<u8>>::empty());
        assert(chain_digest_input(chain.push(last)) =~= chain_digest_input(chain)
            + crate::bytes::be_bytes(last.len(), 8) + last);
    } else {
        law_chain_digest_covers_each_certificate(chain.drop_first(), last);
        assert(chain.push(last).drop_first() =~= chain.drop_first().push(last));
        assert(chain_digest_input(chain.push(last)) =~= chain_digest_input(chain)
            + crate::bytes::be_bytes(last.len(), 8) + last);
    }
}

} // verus!
