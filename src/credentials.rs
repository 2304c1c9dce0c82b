use vstd::prelude::*;
use crate::error::HarnessError;

verus! {

#[verifier::external_type_specification]
#[verifier::external_body]
pub struct ExCertificate(native_tls::Certificate);

#[verifier::external_type_specification]
#[verifier::external_body]
pub struct ExIdentity(native_tls::Identity);

#[verifier::external_type_specification]
#[verifier::external_body]
pub struct ExTlsError(native_tls::Error);

/// How many certificates a caller requires of a credential source.
#[derive(Debug, Clone, Copy, PartialEq, Eq, Structural)]
pub enum CountRequirement {
    /// Exactly this many, as a server identity needs exactly one.
    Exactly(usize),
    /// At least this many, as a client trust set needs at least one root.
    AtLeast(usize),
}

impl CountRequirement {
    pub open spec fn spec_admits(self, found: nat) -> bool {
        match self {
            CountRequirement::Exactly(n) => found == n,
            CountRequirement::AtLeast(n) => found >= n,
        }
    }

    /// Whether `found` certificates meet the requirement.
    pub fn admits(&self, found: usize) -> (r: bool)
        ensures
            r == self.spec_admits(found as nat),
    {
        match self {
            CountRequirement::Exactly(n) => found == *n,
            CountRequirement::AtLeast(n) => found >= *n,
        }
    }
}

/// Checks a certificate count against a requirement, failing with
/// `CredentialCount` exactly when the count does not meet it.
pub fn check_count(req: CountRequirement, found: usize) -> (r: Result<(), HarnessError>)
    ensures
        r is Ok <==> req.spec_admits(found as nat),
        r is Err ==> r == Err::<(), HarnessError>(HarnessError::CredentialCount { found }),
{
    if req.admits(found) {
        Ok(())
    } else {
        Err(HarnessError::CredentialCount { found })
    }
}

/// Whether an in-memory buffer is short enough to hand to the TLS library,
/// which measures buffers in a C `int`.
pub open spec fn fits_c_int(b: Seq<u8>) -> bool {
    b.len() <= i32::MAX
}

/// Whether `s` holds a NUL character, which a C string cannot carry.
pub open spec fn has_nul(s: Seq<char>) -> bool {
    exists|i: int| 0 <= i < s.len() && s[i] == '\0'
}

/// Whether `b` is short enough to hand to the TLS library.
fn buffer_fits(b: &[u8]) -> (r: bool)
    ensures
        r == fits_c_int(b@),
{
    b.len() <= 2147483647usize
}

/// Whether `s` holds a NUL character.
fn contains_nul(s: &str) -> (r: bool)
    ensures
        r == has_nul(s@),
{
    let n = s.unicode_len();
    let mut i: usize = 0;
    while i < n
        invariant
            n == s@.len(),
            i <= n,
            forall|j: int| 0 <= j < i ==> s@[j] != '\0',
        decreases n - i,
    {
        if s.get_char(i) == '\0' {
            return true;
        }
        i = i + 1;
    }
    false
}

/// How many certificates the PEM text `pem` holds, or `None` when it does not
/// decode: what a PEM certificate-stack parser makes of it, which depends on
/// the bytes alone.
pub uninterp spec fn pem_certificate_count(pem: Seq<u8>) -> Option<nat>;

/// Relies on native_tls::Certificate::stack_from_pem: parses every PEM
/// certificate block of `pem`, in order; input without any block gives none.
#[verifier::external_body]
fn certificate_stack(pem: &[u8]) -> (r: Result<Vec<native_tls::Certificate>, native_tls::Error>)
    requires
        fits_c_int(pem@),
    ensures
        r is Ok <==> pem_certificate_count(pem@) is Some,
        r is Ok ==> pem_certificate_count(pem@) == Some(r->Ok_0@.len()),
        pem@.len() == 0 ==> r is Ok && r->Ok_0@.len() == 0,
{
    native_tls::Certificate::stack_from_pem(pem)
}

/// Relies on native_tls::Identity::from_pkcs12: decodes a password-protected
/// PKCS#12 archive into a server identity.
#[verifier::external_body]
fn identity_from_pkcs12(der: &[u8], password: &str) -> (r: Result<native_tls::Identity, native_tls::Error>)
    requires
        !has_nul(password@),
{
    native_tls::Identity::from_pkcs12(der, password)
}

/// Relies on native_tls::Identity::from_pkcs8: pairs a PEM certificate chain
/// with its PEM PKCS#8 private key into a server identity. It parses both
/// and does not check that the key belongs to the certificate.
#[verifier::external_body]
fn identity_from_pkcs8(pem: &[u8], key: &[u8]) -> (r: Result<native_tls::Identity, native_tls::Error>)
    requires
        fits_c_int(pem@),
        fits_c_int(key@),
{
    native_tls::Identity::from_pkcs8(pem, key)
}

/// Parses the PEM certificates of `pem` and checks their number against `req`.
///
/// A source too large for the TLS library, or one that does not decode,
/// gives `CredentialFormat`. One that decodes gives `CredentialCount` with
/// the number found exactly when that number does not meet `req`, and
/// otherwise the certificates.
pub fn load_certificates(pem: &[u8], req: CountRequirement) -> (r: Result<Vec<native_tls::Certificate>, HarnessError>)
    ensures
        !fits_c_int(pem@) ==> r == Err::<Vec<native_tls::Certificate>, HarnessError>(HarnessError::CredentialFormat),
        fits_c_int(pem@) && pem_certificate_count(pem@) is None ==> r == Err::<Vec<native_tls::Certificate>, HarnessError>(HarnessError::CredentialFormat),
        fits_c_int(pem@) ==> (pem_certificate_count(pem@) matches Some(n) ==> (
            if req.spec_admits(n) {
                r is Ok && r->Ok_0@.len() == n
            } else {
                r == Err::<Vec<native_tls::Certificate>, HarnessError>(HarnessError::CredentialCount { found: n as usize })
            }
        )),
        pem@.len() == 0 ==> pem_certificate_count(pem@) == Some(0nat),
{
    if !buffer_fits(pem) {
        return Err(HarnessError::CredentialFormat);
    }
    match certificate_stack(pem) {
        Err(_) => Err(HarnessError::CredentialFormat),
        Ok(certs) => {
            match check_count(req, certs.len()) {
                Ok(()) => Ok(certs),
                Err(e) => Err(e),
            }
        },
    }
}

/// Loads the trust roots a client checks the server against: at least one
/// PEM certificate. A source too large for the TLS library, or one that does
/// not decode, gives `CredentialFormat`; one without any certificate gives
/// `CredentialCount` with zero found.
pub fn load_trust_roots(pem: &[u8]) -> (r: Result<Vec<native_tls::Certificate>, HarnessError>)
    ensures
        !fits_c_int(pem@) ==> r == Err::<Vec<native_tls::Certificate>, HarnessError>(HarnessError::CredentialFormat),
        fits_c_int(pem@) && pem_certificate_count(pem@) is None ==> r == Err::<Vec<native_tls::Certificate>, HarnessError>(HarnessError::CredentialFormat),
        fits_c_int(pem@) && pem_certificate_count(pem@) == Some(0nat) ==> r == Err::<Vec<native_tls::Certificate>, HarnessError>(HarnessError::CredentialCount { found: 0 }),
        fits_c_int(pem@) ==> (pem_certificate_count(pem@) matches Some(n) ==> (n >= 1 ==> r is Ok && r->Ok_0@.len() == n)),
        pem@.len() == 0 ==> r == Err::<Vec<native_tls::Certificate>, HarnessError>(HarnessError::CredentialCount { found: 0 }),
{
    load_certificates(pem, CountRequirement::AtLeast(1))
}

/// Builds a server identity from a PEM certificate and a PEM PKCS#8 key.
///
/// The certificate source must hold exactly one certificate: zero or more
/// give `CredentialCount` with the number found. A source too large for the
/// TLS library or that does not decode, or a key that does not parse as a
/// PKCS#8 private key, gives `CredentialFormat`. Whether the key belongs to
/// the certificate is not checked here; a mismatch shows at the handshake.
pub fn server_identity_from_pem(cert_pem: &[u8], key_pem: &[u8]) -> (r: Result<native_tls::Identity, HarnessError>)
    ensures
        !fits_c_int(cert_pem@) ==> r == Err::<native_tls::Identity, HarnessError>(HarnessError::CredentialFormat),
        fits_c_int(cert_pem@) && pem_certificate_count(cert_pem@) is None ==> r == Err::<native_tls::Identity, HarnessError>(HarnessError::CredentialFormat),
        fits_c_int(cert_pem@) ==> (pem_certificate_count(cert_pem@) matches Some(n) ==> (n != 1 ==> r == Err::<native_tls::Identity, HarnessError>(HarnessError::CredentialCount { found: n as usize }))),
        fits_c_int(cert_pem@) && pem_certificate_count(cert_pem@) == Some(1nat) ==> (r is Ok || r == Err::<native_tls::Identity, HarnessError>(HarnessError::CredentialFormat)),
        fits_c_int(cert_pem@) && pem_certificate_count(cert_pem@) == Some(1nat) && !fits_c_int(key_pem@) ==> r == Err::<native_tls::Identity, HarnessError>(HarnessError::CredentialFormat),
        cert_pem@.len() == 0 ==> r == Err::<native_tls::Identity, HarnessError>(HarnessError::CredentialCount { found: 0 }),
{
    match load_certificates(cert_pem, CountRequirement::Exactly(1)) {
        Err(e) => Err(e),
        Ok(_) => if !buffer_fits(key_pem) {
            Err(HarnessError::CredentialFormat)
        } else {
            match identity_from_pkcs8(cert_pem, key_pem) {
                Ok(id) => Ok(id),
                Err(_) => Err(HarnessError::CredentialFormat),
            }
        },
    }
}

/// Builds a server identity from a password-protected PKCS#12 archive. An
/// archive that does not decode with the password, or a password holding a
/// NUL character, which no archive password can hold, gives
/// `CredentialFormat`.
pub fn server_identity_from_pkcs12(der: &[u8], password: &str) -> (r: Result<native_tls::Identity, HarnessError>)
    ensures
        r matches Err(e) ==> e == HarnessError::CredentialFormat,
        has_nul(password@) ==> r == Err::<native_tls::Identity, HarnessError>(HarnessError::CredentialFormat),
{
    if contains_nul(password) {
        return Err(HarnessError::CredentialFormat);
    }
    match identity_from_pkcs12(der, password) {
        Ok(id) => Ok(id),
        Err(_) => Err(HarnessError::CredentialFormat),
    }
}

} // verus!
