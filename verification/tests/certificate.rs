use tls_api::{Certificate, CertificateFormat};

#[test]
fn der_certificate_gives_its_bytes_back_as_der() {
    let bytes = vec![0x30u8, 0x82, 0x01, 0x0a];
    let cert = Certificate::from_der(bytes.clone());
    assert_eq!(cert.bytes, bytes);
    assert!(matches!(cert.format, CertificateFormat::DER));
    assert_eq!(cert.into_der(), Some(bytes));
}

#[test]
fn der_certificate_gives_nothing_as_pem() {
    let cert = Certificate::from_der(vec![1u8, 2, 3]);
    assert_eq!(cert.into_pem(), None);
}

#[test]
fn pem_certificate_gives_its_bytes_back_as_pem() {
    let bytes = b"-----BEGIN CERTIFICATE-----\nMIIB\n-----END CERTIFICATE-----\n".to_vec();
    let cert = Certificate { bytes: bytes.clone(), format: CertificateFormat::PEM };
    assert_eq!(cert.into_pem(), Some(bytes));
}

#[test]
fn pem_certificate_gives_nothing_as_der() {
    let cert = Certificate { bytes: b"-----BEGIN CERTIFICATE-----".to_vec(), format: CertificateFormat::PEM };
    assert_eq!(cert.into_der(), None);
}

#[test]
fn empty_der_certificate_is_accepted_as_it_is() {
    let cert = Certificate::from_der(Vec::new());
    assert_eq!(cert.into_der(), Some(Vec::new()));
}

#[test]
fn der_bytes_that_look_like_pem_are_not_converted() {
    let bytes = b"-----BEGIN CERTIFICATE-----".to_vec();
    let cert = Certificate::from_der(bytes.clone());
    assert_eq!(cert.into_pem(), None);
    let cert = Certificate::from_der(bytes.clone());
    assert_eq!(cert.into_der(), Some(bytes));
}
