//! Reading the TLS credentials that the server and the clients present:
//! the PKCS #12 identity and the DER certificate of the server's CA.
use vstd::prelude::*;
use tokio_native_tls::native_tls::{Certificate, Error, Identity};
use crate::text::has_char;

verus! {

#[verifier::external_type_specification]
#[verifier::external_body]
pub struct ExIdentity(Identity);

#[verifier::external_type_specification]
#[verifier::external_body]
pub struct ExCertificate(Certificate);

#[verifier::external_type_specification]
#[verifier::external_body]
pub struct ExTlsError(Error);

/// Why credentials could not be read.
#[derive(Debug, PartialEq, Eq)]
pub enum CredentialError {
    /// The PKCS #12 archive could not be parsed or decrypted with the password.
    BadIdentity,
    /// The certificate is not a DER-encoded X.509 certificate.
    BadCertificate,
}

/// An identity together with the archive and password it was read from.
pub struct ParsedIdentity {
    pub identity: Identity,
    /// The PKCS #12 archive that was parsed.
    pub archive: Ghost<Seq<u8>>,
    /// The password the archive was decrypted with.
    pub password: Ghost<Seq<char>>,
}

/// A certificate together with the DER bytes it was read from.
pub struct ParsedCertificate {
    pub certificate: Certificate,
    /// The DER bytes that were parsed.
    pub der: Ghost<Seq<u8>>,
}

/// Calls `native_tls::Identity::from_pkcs12` on the archive and password,
/// and records them beside the identity it gives. Whether it succeeds depends
/// on the TLS back end's parsing and decryption, of which nothing is claimed.
/// The OpenSSL back end hands the password on as a C string and panics on a
/// NUL character in it, so none is admitted.
#[verifier::external_body]
fn identity_from_pkcs12(der: &[u8], password: &str) -> (r: Result<ParsedIdentity, Error>)
    requires
        !password@.contains('\0'),
    ensures
        r matches Ok(p) ==> p.archive@ == der@ && p.password@ == password@,
{
    match Identity::from_pkcs12(der, password) {
        Ok(identity) => Ok(ParsedIdentity { identity, archive: Ghost(der@), password: Ghost(password@) }),
        Err(e) => Err(e),
    }
}

/// Calls `native_tls::Certificate::from_der` on the bytes, and records them
/// beside the certificate it gives. Whether it succeeds depends on the TLS
/// back end's parsing, of which nothing is claimed.
#[verifier::external_body]
fn certificate_from_der(der: &[u8]) -> (r: Result<ParsedCertificate, Error>)
    ensures
        r matches Ok(c) ==> c.der@ == der@,
{
    match Certificate::from_der(der) {
        Ok(certificate) => Ok(ParsedCertificate { certificate, der: Ghost(der@) }),
        Err(e) => Err(e),
    }
}

/// What reading an identity yields for the outcome `parsed` of the PKCS #12
/// parse: the identity parsed, or `BadIdentity` where parsing failed.
pub fn identity_outcome(parsed: Result<ParsedIdentity, Error>) -> (r: Result<
    ParsedIdentity,
    CredentialError,
>)
    ensures
        match parsed {
            Ok(identity) => r == Ok::<ParsedIdentity, CredentialError>(identity),
            Err(_) => r == Err::<ParsedIdentity, CredentialError>(CredentialError::BadIdentity),
        },
{
    match parsed {
        Ok(identity) => Ok(identity),
        Err(_) => Err(CredentialError::BadIdentity),
    }
}

/// What reading a certificate yields for the outcome `parsed` of the DER
/// parse: the certificate parsed, or `BadCertificate` where parsing failed.
pub fn certificate_outcome(parsed: Result<ParsedCertificate, Error>) -> (r: Result<
    ParsedCertificate,
    CredentialError,
>)
    ensures
        match parsed {
            Ok(certificate) => r == Ok::<ParsedCertificate, CredentialError>(certificate),
            Err(_) => r == Err::<ParsedCertificate, CredentialError>(
                CredentialError::BadCertificate,
            ),
        },
{
    match parsed {
        Ok(certificate) => Ok(certificate),
        Err(_) => Err(CredentialError::BadCertificate),
    }
}

/// The identity held in the PKCS #12 archive `der`, decrypted with
/// `password`; a failure is reported as `BadIdentity`. A password holding a
/// NUL character is refused; otherwise whether parsing succeeds is decided by
/// the TLS back end.
pub fn load_identity(der: &[u8], password: &str) -> (r: Result<ParsedIdentity, CredentialError>)
    ensures
        r matches Ok(p) ==> p.archive@ == der@ && p.password@ == password@,
        r matches Err(e) ==> e == CredentialError::BadIdentity,
        password@.contains('\0') ==> r is Err,
{
    if has_char(password, '\0') {
        return Err(CredentialError::BadIdentity);
    }
    identity_outcome(identity_from_pkcs12(der, password))
}

/// The certificate encoded in `der`; a failure is reported as
/// `BadCertificate`. Whether parsing succeeds is decided by the TLS back end.
pub fn load_certificate(der: &[u8]) -> (r: Result<ParsedCertificate, CredentialError>)
    ensures
        r matches Ok(c) ==> c.der@ == der@,
        r matches Err(e) ==> e == CredentialError::BadCertificate,
{
    certificate_outcome(certificate_from_der(der))
}

} // verus!
