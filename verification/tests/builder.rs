use x5chain::{BuildError, Builder, X5Chain};

const CERT_256: &str = "\
-----BEGIN CERTIFICATE-----\n\
MIIBjDCCATKgAwIBAgIBATAKBggqhkjOPQQDAjBEMQswCQYDVQQGEwJVUzEiMCAG\n\
A1UECgwZRXhhbXBsZSBJc3N1aW5nIEF1dGhvcml0eTERMA8GA1UEAwwIUm9vdCAy\n\
NTYwIBcNMjAwMTAxMDAwMDAwWhgPMjEyMDAxMDEwMDAwMDBaMEQxCzAJBgNVBAYT\n\
AlVTMSIwIAYDVQQKDBlFeGFtcGxlIElzc3VpbmcgQXV0aG9yaXR5MREwDwYDVQQD\n\
DAhSb290IDI1NjBZMBMGByqGSM49AgEGCCqGSM49AwEHA0IABHTvAFrL90skUdJ7\n\
2DzXB56A1rC0OAfiO9w5QSreZiAKrWl25thQzjiHRub5R4ZlvQJsfS1+OLyYEAWy\n\
1LG4GDSjEzARMA8GA1UdEwEB/wQFMAMBAf8wCgYIKoZIzj0EAwIDSAAwRQIhAKfl\n\
JZL78qE5cJ15Lo+I9RKp+Ge1n4BpD2S59F/ExxHNAiAXi8F1Hi8ltlLN7OrJh1Q0\n\
cn+AH9H0V3mPyUzaLAjUWw==\n\
-----END CERTIFICATE-----\n\
";
const CERT_384: &str = "\
-----BEGIN CERTIFICATE-----\n\
MIIByDCCAU+gAwIBAgIBATAKBggqhkjOPQQDAzBEMQswCQYDVQQGEwJVUzEiMCAG\n\
A1UECgwZRXhhbXBsZSBJc3N1aW5nIEF1dGhvcml0eTERMA8GA1UEAwwIUm9vdCAz\n\
ODQwIBcNMjAwMTAxMDAwMDAwWhgPMjEyMDAxMDEwMDAwMDBaMEQxCzAJBgNVBAYT\n\
AlVTMSIwIAYDVQQKDBlFeGFtcGxlIElzc3VpbmcgQXV0aG9yaXR5MREwDwYDVQQD\n\
DAhSb290IDM4NDB2MBAGByqGSM49AgEGBSuBBAAiA2IABMJfsjOEBlEynIv/H94A\n\
Vb1ekPoheTc6nqEZ/WJhHx4e276P49FbZQ5i6LWNnCSXipbWqxrSgUV5J/s32RVY\n\
KYEnJoO4r/9y0O80/swRXk0Cu0/a8eB9US8L8h5tCoSW3aMTMBEwDwYDVR0TAQH/\n\
BAUwAwEB/zAKBggqhkjOPQQDAwNnADBkAjBVY3JRLkcDbNGcp5euf4SUNPuhqMp+\n\
AG2IqiwtBrEpbnRLNJIzaGaPw2yViEGCSFYCMHvnuqymfwEgCsATt2luIaeCDWvj\n\
rkTA6Rf60ZnncFZ0M3ZpcEw+AfhVw9ebyoKEmA==\n\
-----END CERTIFICATE-----\n\
";
const CERT_521: &str = "\
-----BEGIN CERTIFICATE-----\n\
MIICEzCCAXWgAwIBAgIBATAKBggqhkjOPQQDBDBEMQswCQYDVQQGEwJVUzEiMCAG\n\
A1UECgwZRXhhbXBsZSBJc3N1aW5nIEF1dGhvcml0eTERMA8GA1UEAwwIUm9vdCA1\n\
MjEwIBcNMjAwMTAxMDAwMDAwWhgPMjEyMDAxMDEwMDAwMDBaMEQxCzAJBgNVBAYT\n\
AlVTMSIwIAYDVQQKDBlFeGFtcGxlIElzc3VpbmcgQXV0aG9yaXR5MREwDwYDVQQD\n\
DAhSb290IDUyMTCBmzAQBgcqhkjOPQIBBgUrgQQAIwOBhgAEAb+QW4p4xrgzmUig\n\
iHiPvpF0EpkPWlzWF2gSdi7Mxjlnv9PZ2aazuhidEjYIyhiFEbEvutqPQMIivlgQ\n\
es9iwuwuAFvg4qaWFOjB9vLo94ZxpA4KNsG3sjU1uwonGWpFANp+MixZttiEJB6j\n\
RfSyRC0r0RvKxvTm2uP8NG9v7Bu5RH82oxMwETAPBgNVHRMBAf8EBTADAQH/MAoG\n\
CCqGSM49BAMEA4GLADCBhwJBUR5F5KT3jsZEURgnEtAaRpbMXGU/Ba1C/4+FRSBv\n\
ILVmwv5ExEXNcM2AliL6rnIv6Uao8bLBWPL7yx3r1b3ZLrYCQgFqsNzXLT7bJ6ZY\n\
vG3FFWlVgGEusaeMjGtNZqgYclWYlGrRkM+1qudWv/aKUwX4o2E3zaYUliJz5SYF\n\
f2rXRFocvg==\n\
-----END CERTIFICATE-----\n\
";
const LEAF: &str = "\
-----BEGIN CERTIFICATE-----\n\
MIIBhjCCAS2gAwIBAgIBAjAKBggqhkjOPQQDAjBEMQswCQYDVQQGEwJVUzEiMCAG\n\
A1UECgwZRXhhbXBsZSBJc3N1aW5nIEF1dGhvcml0eTERMA8GA1UEAwwIUm9vdCAy\n\
NTYwIBcNMjEwMTAxMDAwMDAwWhgPMjExOTAxMDEwMDAwMDBaMEIxCzAJBgNVBAYT\n\
AlVTMSIwIAYDVQQKDBlFeGFtcGxlIElzc3VpbmcgQXV0aG9yaXR5MQ8wDQYDVQQD\n\
DAZTaWduZXIwWTATBgcqhkjOPQIBBggqhkjOPQMBBwNCAASa5DU10xlcOLKvAyEK\n\
vXJP1ol1AxQb6CwLEEBRE9ayTUlcPM6W6yQHI3MsSbyvzZSw0tyQC5hjm1Iq+pgx\n\
2g/CoxAwDjAMBgNVHRMBAf8EAjAAMAoGCCqGSM49BAMCA0cAMEQCIBbPhMlT/5o1\n\
9O7JA3XCMf5sDUD4v/QFcMAPy00WCviwAiA8o0wtdABMmCDGksONZ9MP7wUu/Cc5\n\
BAWGf4Lczle50w==\n\
-----END CERTIFICATE-----\n\
";
const CERT_256_DER: [u8; 400] = [
    0x30, 0x82, 0x01, 0x8c, 0x30, 0x82, 0x01, 0x32, 0xa0, 0x03, 0x02, 0x01, 0x02, 0x02, 0x01, 0x01,
    0x30, 0x0a, 0x06, 0x08, 0x2a, 0x86, 0x48, 0xce, 0x3d, 0x04, 0x03, 0x02, 0x30, 0x44, 0x31, 0x0b,
    0x30, 0x09, 0x06, 0x03, 0x55, 0x04, 0x06, 0x13, 0x02, 0x55, 0x53, 0x31, 0x22, 0x30, 0x20, 0x06,
    0x03, 0x55, 0x04, 0x0a, 0x0c, 0x19, 0x45, 0x78, 0x61, 0x6d, 0x70, 0x6c, 0x65, 0x20, 0x49, 0x73,
    0x73, 0x75, 0x69, 0x6e, 0x67, 0x20, 0x41, 0x75, 0x74, 0x68, 0x6f, 0x72, 0x69, 0x74, 0x79, 0x31,
    0x11, 0x30, 0x0f, 0x06, 0x03, 0x55, 0x04, 0x03, 0x0c, 0x08, 0x52, 0x6f, 0x6f, 0x74, 0x20, 0x32,
    0x35, 0x36, 0x30, 0x20, 0x17, 0x0d, 0x32, 0x30, 0x30, 0x31, 0x30, 0x31, 0x30, 0x30, 0x30, 0x30,
    0x30, 0x30, 0x5a, 0x18, 0x0f, 0x32, 0x31, 0x32, 0x30, 0x30, 0x31, 0x30, 0x31, 0x30, 0x30, 0x30,
    0x30, 0x30, 0x30, 0x5a, 0x30, 0x44, 0x31, 0x0b, 0x30, 0x09, 0x06, 0x03, 0x55, 0x04, 0x06, 0x13,
    0x02, 0x55, 0x53, 0x31, 0x22, 0x30, 0x20, 0x06, 0x03, 0x55, 0x04, 0x0a, 0x0c, 0x19, 0x45, 0x78,
    0x61, 0x6d, 0x70, 0x6c, 0x65, 0x20, 0x49, 0x73, 0x73, 0x75, 0x69, 0x6e, 0x67, 0x20, 0x41, 0x75,
    0x74, 0x68, 0x6f, 0x72, 0x69, 0x74, 0x79, 0x31, 0x11, 0x30, 0x0f, 0x06, 0x03, 0x55, 0x04, 0x03,
    0x0c, 0x08, 0x52, 0x6f, 0x6f, 0x74, 0x20, 0x32, 0x35, 0x36, 0x30, 0x59, 0x30, 0x13, 0x06, 0x07,
    0x2a, 0x86, 0x48, 0xce, 0x3d, 0x02, 0x01, 0x06, 0x08, 0x2a, 0x86, 0x48, 0xce, 0x3d, 0x03, 0x01,
    0x07, 0x03, 0x42, 0x00, 0x04, 0x74, 0xef, 0x00, 0x5a, 0xcb, 0xf7, 0x4b, 0x24, 0x51, 0xd2, 0x7b,
    0xd8, 0x3c, 0xd7, 0x07, 0x9e, 0x80, 0xd6, 0xb0, 0xb4, 0x38, 0x07, 0xe2, 0x3b, 0xdc, 0x39, 0x41,
    0x2a, 0xde, 0x66, 0x20, 0x0a, 0xad, 0x69, 0x76, 0xe6, 0xd8, 0x50, 0xce, 0x38, 0x87, 0x46, 0xe6,
    0xf9, 0x47, 0x86, 0x65, 0xbd, 0x02, 0x6c, 0x7d, 0x2d, 0x7e, 0x38, 0xbc, 0x98, 0x10, 0x05, 0xb2,
    0xd4, 0xb1, 0xb8, 0x18, 0x34, 0xa3, 0x13, 0x30, 0x11, 0x30, 0x0f, 0x06, 0x03, 0x55, 0x1d, 0x13,
    0x01, 0x01, 0xff, 0x04, 0x05, 0x30, 0x03, 0x01, 0x01, 0xff, 0x30, 0x0a, 0x06, 0x08, 0x2a, 0x86,
    0x48, 0xce, 0x3d, 0x04, 0x03, 0x02, 0x03, 0x48, 0x00, 0x30, 0x45, 0x02, 0x21, 0x00, 0xa7, 0xe5,
    0x25, 0x92, 0xfb, 0xf2, 0xa1, 0x39, 0x70, 0x9d, 0x79, 0x2e, 0x8f, 0x88, 0xf5, 0x12, 0xa9, 0xf8,
    0x67, 0xb5, 0x9f, 0x80, 0x69, 0x0f, 0x64, 0xb9, 0xf4, 0x5f, 0xc4, 0xc7, 0x11, 0xcd, 0x02, 0x20,
    0x17, 0x8b, 0xc1, 0x75, 0x1e, 0x2f, 0x25, 0xb6, 0x52, 0xcd, 0xec, 0xea, 0xc9, 0x87, 0x54, 0x34,
    0x72, 0x7f, 0x80, 0x1f, 0xd1, 0xf4, 0x57, 0x79, 0x8f, 0xc9, 0x4c, 0xda, 0x2c, 0x08, 0xd4, 0x5b,
];

const NOT_A_CERTIFICATE: &str = "-----BEGIN CERTIFICATE-----\nAAECAwQ=\n-----END CERTIFICATE-----\n";

#[test]
fn self_signed_es256() {
    let _x5chain = X5Chain::builder()
        .with_pem(CERT_256.as_bytes())
        .expect("unable to add cert")
        .build()
        .expect("unable to build x5chain");
}

#[test]
fn self_signed_es384() {
    let _x5chain = X5Chain::builder()
        .with_pem(CERT_384.as_bytes())
        .expect("unable to add cert")
        .build()
        .expect("unable to build x5chain");
}

#[test]
fn self_signed_es512() {
    let _x5chain = X5Chain::builder()
        .with_pem(CERT_521.as_bytes())
        .expect("unable to add cert")
        .build()
        .expect("unable to build x5chain");
}

#[test]
fn validate_x5chain() {}

#[test]
fn build_without_certificates_fails() {
    assert_eq!(X5Chain::builder().build().err(), Some(BuildError::Empty));
    assert_eq!(Builder::new().build().err(), Some(BuildError::Empty));
    assert_eq!(Builder::default().build().err(), Some(BuildError::Empty));
}

#[test]
fn build_with_one_certificate_succeeds() {
    let chain = X5Chain::builder().with_pem(CERT_256.as_bytes()).unwrap().build().unwrap();
    assert_eq!(chain.certificates().len(), 1);
}

#[test]
fn with_pem_keeps_the_der_bytes_of_the_document() {
    let chain = X5Chain::builder().with_pem(CERT_256.as_bytes()).unwrap().build().unwrap();
    assert_eq!(chain.certificates()[0].bytes, CERT_256_DER.to_vec());
    assert_ne!(chain.certificates()[0].bytes, CERT_256.as_bytes().to_vec());
}

#[test]
fn with_der_keeps_canonical_bytes() {
    let chain = X5Chain::builder().with_der(&CERT_256_DER).unwrap().build().unwrap();
    assert_eq!(chain.certificates().len(), 1);
    assert_eq!(chain.certificates()[0].bytes, CERT_256_DER.to_vec());
}

#[test]
fn with_pem_and_with_der_agree() {
    let from_pem = X5Chain::builder().with_pem(CERT_256.as_bytes()).unwrap().build().unwrap();
    let from_der = X5Chain::builder().with_der(&CERT_256_DER).unwrap().build().unwrap();
    assert_eq!(from_pem.certificates(), from_der.certificates());
}

#[test]
fn with_pem_refuses_what_is_not_pem() {
    assert_eq!(
        X5Chain::builder().with_pem(b"not a pem document").err(),
        Some(BuildError::Pem("PEM preamble contains invalid data (NUL byte)".to_string()))
    );
    assert!(matches!(X5Chain::builder().with_pem(b"").err(), Some(BuildError::Pem(_))));
    assert!(matches!(X5Chain::builder().with_pem(&CERT_256_DER).err(), Some(BuildError::Pem(_))));
}

#[test]
fn with_pem_says_why_it_refuses() {
    let e = X5Chain::builder().with_pem(b"").unwrap_err();
    assert!(e.message().starts_with("unable to parse pem: "));
    assert!(e.message().len() > "unable to parse pem: ".len());
    let e = X5Chain::builder().with_pem(b"not a pem document").unwrap_err();
    assert_eq!(e.message(), "unable to parse pem: PEM preamble contains invalid data (NUL byte)");
    match &e {
        BuildError::Pem(reason) => assert_eq!(e.message(), format!("unable to parse pem: {}", reason)),
        _ => panic!("another error"),
    }
}

#[test]
fn with_pem_refuses_a_document_without_a_certificate() {
    let e = X5Chain::builder().with_pem(NOT_A_CERTIFICATE.as_bytes()).unwrap_err();
    assert!(matches!(e, BuildError::Der(_)));
    assert!(e.message().starts_with("unable to parse certificate from der: "));
    assert!(e.message().len() > "unable to parse certificate from der: ".len());
    assert_eq!(
        e.message(),
        "unable to parse certificate from der: unknown/unsupported ASN.1 DER tag: 0x00"
    );
}

#[test]
fn with_der_refuses_what_is_not_a_certificate() {
    assert!(matches!(X5Chain::builder().with_der(&[0u8, 1, 2, 3, 4]).err(), Some(BuildError::DerEncoding(_))));
    assert!(matches!(X5Chain::builder().with_der(&[]).err(), Some(BuildError::DerEncoding(_))));
    assert!(matches!(X5Chain::builder().with_der(CERT_256.as_bytes()).err(), Some(BuildError::DerEncoding(_))));
}

#[test]
fn with_der_says_why_it_refuses() {
    let e = X5Chain::builder().with_der(&[0x00]).unwrap_err();
    assert!(e.message().starts_with("unable to parse certificate from der encoding: "));
    assert!(e.message().len() > "unable to parse certificate from der encoding: ".len());
    assert_eq!(
        e,
        BuildError::DerEncoding("unknown/unsupported ASN.1 DER tag: 0x00".to_string())
    );
    assert_eq!(
        e.message(),
        "unable to parse certificate from der encoding: unknown/unsupported ASN.1 DER tag: 0x00"
    );
}

#[test]
fn with_der_refuses_trailing_bytes() {
    let mut der = CERT_256_DER.to_vec();
    der.push(0);
    let e = X5Chain::builder().with_der(&der).unwrap_err();
    assert_eq!(
        e,
        BuildError::DerEncoding(
            "trailing data at end of DER message: decoded 400 bytes, 1 bytes remaining at DER byte 400"
                .to_string()
        )
    );
}

#[test]
fn with_der_refuses_a_truncated_certificate() {
    let der = &CERT_256_DER[..CERT_256_DER.len() - 1];
    assert!(matches!(X5Chain::builder().with_der(der).err(), Some(BuildError::DerEncoding(_))));
}

#[test]
fn errors_can_be_copied() {
    let e = X5Chain::builder().with_der(&[0x00]).unwrap_err();
    assert_eq!(e.clone(), e);
    assert_eq!(BuildError::Empty.clone(), BuildError::Empty);
    let e = x5chain::decode_x5chain(x5chain::CborValue::Integer(42)).unwrap_err();
    assert_eq!(e.clone(), e);
    assert_eq!(e.clone().message(), e.message());
}

#[test]
fn texts_of_the_builder() {
    assert_eq!(BuildError::Pem("reason".to_string()).message(), "unable to parse pem: reason");
    assert_eq!(
        BuildError::DerEncoding("reason".to_string()).message(),
        "unable to parse certificate from der encoding: reason"
    );
    assert_eq!(BuildError::Der("reason".to_string()).message(), "unable to parse certificate from der: reason");
    assert_eq!(
        BuildError::Encoding("reason".to_string()).message(),
        "unable to convert certificate to bytes: reason"
    );
    assert_eq!(BuildError::Pem(String::new()).message(), "unable to parse pem: ");
    assert_eq!(BuildError::Empty.message(), "at least one certificate must be given to the builder");
}

#[test]
fn a_refused_certificate_leaves_nothing_behind() {
    let builder = X5Chain::builder().with_pem(CERT_256.as_bytes()).unwrap();
    let kept = builder.clone();
    assert!(builder.with_der(&[0u8]).is_err());
    let chain = kept.build().unwrap();
    assert_eq!(chain.certificates().len(), 1);
}

#[test]
fn certificates_keep_the_order_in_which_they_were_given() {
    let chain = X5Chain::builder()
        .with_pem(LEAF.as_bytes())
        .unwrap()
        .with_pem(CERT_256.as_bytes())
        .unwrap()
        .build()
        .unwrap();
    assert_eq!(chain.certificates().len(), 2);
    assert_eq!(chain.certificates()[1].bytes, CERT_256_DER.to_vec());
    assert_ne!(chain.certificates()[0].bytes, CERT_256_DER.to_vec());

    let reversed = X5Chain::builder()
        .with_pem(CERT_256.as_bytes())
        .unwrap()
        .with_pem(LEAF.as_bytes())
        .unwrap()
        .build()
        .unwrap();
    assert_eq!(reversed.certificates()[0].bytes, CERT_256_DER.to_vec());
    assert_eq!(reversed.certificates()[1], chain.certificates()[0]);
}

#[test]
fn the_same_certificate_may_be_given_twice() {
    let chain = X5Chain::builder()
        .with_pem(CERT_256.as_bytes())
        .unwrap()
        .with_pem(CERT_256.as_bytes())
        .unwrap()
        .build()
        .unwrap();
    assert_eq!(chain.certificates().len(), 2);
    assert_eq!(chain.certificates()[0], chain.certificates()[1]);
}

#[test]
fn a_cloned_chain_holds_the_same_certificates() {
    let chain = X5Chain::builder()
        .with_pem(LEAF.as_bytes())
        .unwrap()
        .with_pem(CERT_256.as_bytes())
        .unwrap()
        .build()
        .unwrap();
    let copy = chain.clone();
    assert_eq!(copy.certificates(), chain.certificates());
}

#[test]
fn chain_from_a_list_of_certificates() {
    assert!(X5Chain::new(vec![]).is_none());
    let chain = X5Chain::new(vec![x5chain::X509 { bytes: vec![1, 2, 3] }]).unwrap();
    assert_eq!(chain.certificates().len(), 1);
    assert_eq!(chain.certificates()[0].bytes, vec![1, 2, 3]);
}

#[test]
fn header_label() {
    assert_eq!(x5chain::X5CHAIN_HEADER_LABEL, 33);
}
