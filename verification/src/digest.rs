//! The digest/crypto collaborators consumed by the high-level client:
//! SHA-1 DigestInfo construction for PKCS#1 v1.5 signing, and RSA signature
//! verification against a certificate's embedded public key.

use vstd::prelude::*;

verus! {

/// The name of the SHA-1 digest of the given message.
pub uninterp spec fn sha1_of(message: Seq<u8>) -> Seq<u8>;

/// The DER prefix of a SHA-1 DigestInfo: a SEQUENCE of 0x21 content octets
/// holding the algorithm identifier SEQUENCE {OID 1.3.14.3.2.26, NULL}
/// followed by the tag and length of the 20-octet OCTET STRING.
pub open spec fn digest_info_prefix() -> Seq<u8> {
    seq![
        0x30u8,
        0x21u8,
        0x30u8,
        0x09u8,
        0x06u8,
        0x05u8,
        0x2Bu8,
        0x0Eu8,
        0x03u8,
        0x02u8,
        0x1Au8,
        0x05u8,
        0x00u8,
        0x04u8,
        0x14u8,
    ]
}

/// Relies on `ring::digest::digest` with the SHA-1 algorithm: the digest
/// depends on the message alone and is 20 octets long.
#[verifier::external_body]
fn sha1(message: &[u8]) -> (r: Vec<u8>)
    requires
        message@.len() <= 0x1FFF_FFFF_FFFF_FFFF,
    ensures
        r@ == sha1_of(message@),
        r@.len() == 20,
{
    ring::digest::digest(&ring::digest::SHA1_FOR_LEGACY_USE_ONLY, message).as_ref().to_vec()
}

/// Computes the DigestInfo of the message for PKCS#1 v1.5 signing: the DER
/// SEQUENCE {SEQUENCE {OID sha1, NULL}, OCTET STRING digest}, 35 octets in
/// all.
pub fn calculate(message: Vec<u8>) -> (r: Vec<u8>)
    requires
        message@.len() <= 0x1FFF_FFFF_FFFF_FFFF,
    ensures
        r@ == digest_info_prefix() + sha1_of(message@),
        r@.len() == 35,
{
    let mut buffer: Vec<u8> = vec![
        0x30,
        0x21,
        0x30,
        0x09,
        0x06,
        0x05,
        0x2B,
        0x0E,
        0x03,
        0x02,
        0x1A,
        0x05,
        0x00,
        0x04,
        0x14,
    ];
    assert(buffer@ =~= digest_info_prefix());
    let mut digest = sha1(message.as_slice());
    buffer.append(&mut digest);
    proof {
        assert(buffer@ =~= digest_info_prefix() + sha1_of(message@));
    }
    buffer
}

/// The name of the x509 parser's verdict on a DER certificate: whether the
/// bytes parse as one.
pub uninterp spec fn cert_parses(certificate: Seq<u8>) -> bool;

/// The name of the public key that the x509 parser extracts from a DER
/// certificate it accepts.
pub uninterp spec fn cert_public_key_of(certificate: Seq<u8>) -> Seq<u8>;

/// Relies on `x509_certificate::X509Certificate::from_der` and
/// `public_key_data`: whether the parse succeeds, and the public key it
/// yields when it does, depend on the certificate bytes alone.
#[verifier::external_body]
fn certificate_public_key(certificate: &[u8]) -> (r: Option<Vec<u8>>)
    ensures
        r is Some <==> cert_parses(certificate@),
        r matches Some(key) ==> key@ == cert_public_key_of(certificate@),
{
    x509_certificate::X509Certificate::from_der(certificate).ok().map(
        |cert| cert.public_key_data().to_vec(),
    )
}

/// The name of ring's verdict on an RSA PKCS#1 v1.5 SHA-1 signature over
/// the message under the given public key.
pub uninterp spec fn rsa_sha1_verifies(key: Seq<u8>, message: Seq<u8>, signature: Seq<u8>) -> bool;

/// Relies on `ring::signature::UnparsedPublicKey::verify` with the
/// `RSA_PKCS1_1024_8192_SHA1_FOR_LEGACY_USE_ONLY` algorithm: the verdict
/// depends on the key, the message and the signature alone.
#[verifier::external_body]
fn verify_with_key(key: &[u8], message: &[u8], signature: &[u8]) -> (r: bool)
    ensures
        r == rsa_sha1_verifies(key@, message@, signature@),
{
    ring::signature::UnparsedPublicKey::new(
        &ring::signature::RSA_PKCS1_1024_8192_SHA1_FOR_LEGACY_USE_ONLY,
        key,
    ).verify(message, signature).is_ok()
}

/// Verifies an RSA PKCS#1 v1.5 SHA-1 signature for the message against the
/// public key embedded in the DER-encoded certificate: true exactly when
/// the certificate parses and the signature checks out under its key.
pub fn verify(certificate: Vec<u8>, message: Vec<u8>, signature: Vec<u8>) -> (r: bool)
    ensures
        r == (cert_parses(certificate@) && rsa_sha1_verifies(
            cert_public_key_of(certificate@),
            message@,
            signature@,
        )),
{
    match certificate_public_key(certificate.as_slice()) {
        Some(key) => verify_with_key(key.as_slice(), message.as_slice(), signature.as_slice()),
        None => false,
    }
}

} // verus!
