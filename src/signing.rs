//! The signing gateway: a detached CMS / PKCS#7 signature over a module,
//! made by OpenSSL with a fixed set of options.
use vstd::prelude::*;

use openssl::cms::{CMSOptions, CmsContentInfo};
use openssl::error::ErrorStack;
use openssl::pkey::{PKey, Private};
use openssl::x509::X509;

use crate::error::SignError;

verus! {

/// Leave the certificates out of the signature.
pub const CMS_NOCERTS: u32 = 0x2;

/// Leave the signed content out of the signature.
pub const CMS_DETACHED: u32 = 0x40;

/// Sign the content as binary data, with no line-ending conversion.
pub const CMS_BINARY: u32 = 0x80;

/// Leave out the S/MIME capabilities attribute.
pub const CMS_NOSMIMECAP: u32 = 0x200;

/// The options every module signature is made with.
pub const MODULE_SIGNING_FLAGS: u32 = CMS_DETACHED | CMS_NOCERTS | CMS_BINARY | CMS_NOSMIMECAP;

/// OpenSSL's error queue.
#[verifier::external_type_specification]
#[verifier::external_body]
pub struct ExErrorStack(ErrorStack);

/// An X.509 certificate held by OpenSSL.
#[verifier::external_type_specification]
#[verifier::external_body]
pub struct ExX509(X509);

/// A CMS ContentInfo structure held by OpenSSL.
#[verifier::external_type_specification]
#[verifier::external_body]
pub struct ExCmsContentInfo(CmsContentInfo);

/// Marker for a key that holds private components.
#[verifier::external_type_specification]
#[verifier::external_body]
pub struct ExPrivate(Private);

/// A public or private key held by OpenSSL.
#[verifier::external_type_specification]
#[verifier::external_body]
#[verifier::reject_recursive_types(T)]
pub struct ExPKey<T>(PKey<T>);

/// Whether `X509::from_der` accepts `der`: decoding a DER certificate
/// depends on its bytes alone.
pub uninterp spec fn der_certificate_parses(der: Seq<u8>) -> bool;

/// The longest buffer OpenSSL's memory BIO takes (`c_int::MAX`).
pub const MAX_BIO_LEN: usize = 0x7fff_ffff;

/// Relies on `PKey::private_key_from_pem` to parse a PEM private key. OpenSSL
/// may ask for a passphrase on the terminal if the key is encrypted. The
/// buffer goes through `MemBioSlice::new`, which asserts that it fits in a
/// `c_int`.
#[verifier::external_body]
fn parse_private_key(pem: &[u8]) -> (r: Result<PKey<Private>, ErrorStack>)
    requires
        pem@.len() <= MAX_BIO_LEN,
{
    PKey::private_key_from_pem(pem)
}

/// Relies on `PKey::private_key_from_pem_passphrase` to parse a PEM private
/// key, decrypting it with `passphrase`. The buffer goes through
/// `MemBioSlice::new` (at most `c_int::MAX` bytes), and the passphrase through
/// `CString::new(..).unwrap()`, which panics on a zero byte.
#[verifier::external_body]
fn parse_private_key_with_passphrase(pem: &[u8], passphrase: &[u8]) -> (r: Result<
    PKey<Private>,
    ErrorStack,
>)
    requires
        pem@.len() <= MAX_BIO_LEN,
        !passphrase@.contains(0u8),
{
    PKey::private_key_from_pem_passphrase(pem, passphrase)
}

/// Relies on `X509::from_der` to parse a DER certificate; it clamps the
/// length it hands to OpenSSL and does not panic.
#[verifier::external_body]
fn parse_certificate(der: &[u8]) -> (r: Result<X509, ErrorStack>)
    ensures
        r is Ok == der_certificate_parses(der@),
{
    X509::from_der(der)
}

/// Relies on `CmsContentInfo::sign` to sign `content` with `key` for the
/// signer `cert`, with no extra certificates, under the CMS option bits
/// `flags` (OpenSSL's own values, passed through `CMSOptions::from_bits_truncate`).
/// Only the module signing options are ever passed. The content goes through
/// `MemBioSlice::new` (at most `c_int::MAX` bytes). Nothing is promised of
/// the result: it holds the signing time.
#[verifier::external_body]
fn cms_sign(cert: &X509, key: &PKey<Private>, content: &[u8], flags: u32) -> (r: Result<
    CmsContentInfo,
    ErrorStack,
>)
    requires
        flags == CMS_DETACHED | CMS_NOCERTS | CMS_BINARY | CMS_NOSMIMECAP,
        content@.len() <= MAX_BIO_LEN,
{
    CmsContentInfo::sign(Some(cert), Some(key), None, Some(content), CMSOptions::from_bits_truncate(flags))
}

/// Relies on `CmsContentInfo::to_der` to encode a signature as DER.
#[verifier::external_body]
fn cms_to_der(cms: &CmsContentInfo) -> (r: Result<Vec<u8>, ErrorStack>) {
    cms.to_der()
}

/// Signs `content` with the PEM private key `private_key` for the DER
/// certificate `certificate`: a detached signature, without certificates,
/// over binary content, without S/MIME capabilities. A certificate that does
/// not parse gives an error.
pub fn sign(private_key: &[u8], certificate: &[u8], content: &[u8]) -> (r: Result<
    CmsContentInfo,
    ErrorStack,
>)
    requires
        private_key@.len() <= MAX_BIO_LEN,
        content@.len() <= MAX_BIO_LEN,
    ensures
        !der_certificate_parses(certificate@) ==> r is Err,
{
    let private_key = parse_private_key(private_key)?;
    let certificate = parse_certificate(certificate)?;
    cms_sign(&certificate, &private_key, content, MODULE_SIGNING_FLAGS)
}

/// As [`sign`], with the private key encrypted under `passphrase`.
pub fn sign_with_passphrase(
    private_key: &[u8],
    passphrase: &[u8],
    certificate: &[u8],
    content: &[u8],
) -> (r: Result<CmsContentInfo, ErrorStack>)
    requires
        private_key@.len() <= MAX_BIO_LEN,
        content@.len() <= MAX_BIO_LEN,
        !passphrase@.contains(0u8),
    ensures
        !der_certificate_parses(certificate@) ==> r is Err,
{
    let private_key = parse_private_key_with_passphrase(private_key, passphrase)?;
    let certificate = parse_certificate(certificate)?;
    cms_sign(&certificate, &private_key, content, MODULE_SIGNING_FLAGS)
}

/// Whether signing can be handed to OpenSSL at all: the key and the content
/// fit its memory buffers, and the passphrase, if any, holds no zero byte.
pub open spec fn signable(private_key: Seq<u8>, passphrase: Option<&[u8]>, content: Seq<u8>) -> bool {
    &&& private_key.len() <= MAX_BIO_LEN
    &&& content.len() <= MAX_BIO_LEN
    &&& !(passphrase matches Some(p) && p@.contains(0u8))
}

fn has_zero(b: &[u8]) -> (r: bool)
    ensures
        r == b@.contains(0u8),
{
    let mut i: usize = 0;
    while i < b.len()
        invariant
            i <= b@.len(),
            forall|j: int| 0 <= j < i ==> b@[j] != 0u8,
        decreases b@.len() - i,
    {
        if b[i] == 0 {
            assert(b@[i as int] == 0u8);
            return true;
        }
        i += 1;
    }
    false
}

/// The DER bytes of the signature that [`sign`] (or, with a passphrase,
/// [`sign_with_passphrase`]) makes. Every failure is a `Crypto` error: inputs
/// OpenSSL cannot take, a key or certificate that does not parse, and a
/// failed signing.
pub fn sign_module(
    private_key: &[u8],
    passphrase: Option<&[u8]>,
    certificate: &[u8],
    content: &[u8],
) -> (r: Result<Vec<u8>, SignError>)
    ensures
        r is Err ==> r == Err::<Vec<u8>, SignError>(SignError::Crypto),
        !signable(private_key@, passphrase, content@) ==> r is Err,
        !der_certificate_parses(certificate@) ==> r is Err,
{
    if private_key.len() > MAX_BIO_LEN || content.len() > MAX_BIO_LEN {
        return Err(SignError::Crypto);
    }
    let cms = match passphrase {
        Some(p) => {
            if has_zero(p) {
                return Err(SignError::Crypto);
            }
            sign_with_passphrase(private_key, p, certificate, content)
        },
        None => sign(private_key, certificate, content),
    };
    match cms {
        Ok(cms) => match cms_to_der(&cms) {
            Ok(der) => Ok(der),
            Err(_) => Err(SignError::Crypto),
        },
        Err(_) => Err(SignError::Crypto),
    }
}

} // verus!
