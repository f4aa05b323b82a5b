//! X.509 certificates as tagged byte buffers.

use vstd::prelude::*;

verus! {

/// The encoding of the bytes that a [`Certificate`] holds.
#[derive(Clone, Copy, Debug, PartialEq, Eq, Structural)]
pub enum CertificateFormat {
    /// Binary ASN.1 encoding.
    DER,
    /// Text-armored encoding.
    PEM,
}

/// An X.509 certificate: a byte buffer and the encoding it is in.
pub struct Certificate {
    pub bytes: Vec<u8>,
    pub format: CertificateFormat,
}

impl Certificate {
    /// Wraps DER bytes. Nothing is parsed or checked.
    pub fn from_der(der: Vec<u8>) -> (cert: Certificate)
        ensures
            cert.bytes == der,
            cert.format == CertificateFormat::DER,
    {
        Certificate { bytes: der, format: CertificateFormat::DER }
    }

    /// The stored bytes if they are DER; no conversion is attempted.
    pub fn into_der(self) -> (der: Option<Vec<u8>>)
        ensures
            der == (if self.format == CertificateFormat::DER {
                Some(self.bytes)
            } else {
                None
            }),
    {
        match self.format {
            CertificateFormat::DER => Some(self.bytes),
            _ => None,
        }
    }

    /// The stored bytes if they are PEM; no conversion is attempted.
    pub fn into_pem(self) -> (pem: Option<Vec<u8>>)
        ensures
            pem == (if self.format == CertificateFormat::PEM {
                Some(self.bytes)
            } else {
                None
            }),
    {
        match self.format {
            CertificateFormat::PEM => Some(self.bytes),
            _ => None,
        }
    }
}

/// A certificate made of DER bytes gives them back as DER, and gives nothing
/// as PEM.
pub proof fn lemma_der_round_trip(bytes: Vec<u8>, cert: Certificate)
    requires
        call_ensures(Certificate::from_der, (bytes,), cert),
    ensures
        forall|der: Option<Vec<u8>>|
            call_ensures(Certificate::into_der, (cert,), der) ==> der == Some(bytes),
        forall|pem: Option<Vec<u8>>|
            call_ensures(Certificate::into_pem, (cert,), pem) ==> pem is None,
{
}

/// A certificate tagged PEM gives its bytes back as PEM, and gives nothing as
/// DER.
pub proof fn lemma_pem_round_trip(cert: Certificate)
    requires
        cert.format == CertificateFormat::PEM,
    ensures
        forall|pem: Option<Vec<u8>>|
            call_ensures(Certificate::into_pem, (cert,), pem) ==> pem == Some(cert.bytes),
        forall|der: Option<Vec<u8>>|
            call_ensures(Certificate::into_der, (cert,), der) ==> der is None,
{
}

} // verus!
