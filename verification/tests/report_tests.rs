//! Tests of the certificate report renderer and the chain decoding path,
//! driving a hand-built minimal certificate through the same DER round
//! trip the tool performs on a live chain.

use std::str::FromStr;
use std::time::Duration;

use der::asn1::{BitString, Ia5String, OctetString, UintRef, UtcTime};
use der::Encode;
use x509_cert::certificate::Version;
use x509_cert::ext::pkix::name::GeneralName;
use x509_cert::ext::pkix::SubjectAltName;
use x509_cert::name::RdnSequence;
use x509_cert::serial_number::SerialNumber;
use x509_cert::spki::{AlgorithmIdentifierOwned, SubjectPublicKeyInfoOwned};
use x509_cert::time::{Time, Validity};
use x509_cert::Certificate;

use inspect_cert_chain::cert::{cert_from_der, CertInfo};
use inspect_cert_chain::chain::{decode_chain, require_non_empty_chain, ChainError};
use inspect_cert_chain::report::{duration_since_now_fmt, write_cert_info};

/// Midnight 2023-01-01 UTC.
const NOT_BEFORE: u64 = 1672531200;
/// Midnight 2024-01-01 UTC.
const NOT_AFTER: u64 = 1704067200;

fn rsa_key_der() -> Vec<u8> {
    let modulus = [0x11u8; 256];
    let exponent = [0x01u8, 0x00, 0x01];
    let key = pkcs1::RsaPublicKey {
        modulus: UintRef::new(&modulus).unwrap(),
        public_exponent: UintRef::new(&exponent).unwrap(),
    };
    key.to_der().unwrap()
}

/// A minimal self-describing certificate with one Subject Alternative
/// Name extension carrying two DNS entries.
fn minimal_cert_der() -> Vec<u8> {
    cert_der_with_subject("CN=example.com")
}

/// The same minimal certificate under a chosen subject name.
fn cert_der_with_subject(subject: &str) -> Vec<u8> {
    let san = SubjectAltName(vec![
        GeneralName::DnsName(Ia5String::new("example.com").unwrap()),
        GeneralName::DnsName(Ia5String::new("www.example.com").unwrap()),
    ]);
    let sig_alg = AlgorithmIdentifierOwned {
        oid: const_oid::ObjectIdentifier::new_unwrap("1.2.840.113549.1.1.11"),
        parameters: None,
    };
    let rsa_alg = AlgorithmIdentifierOwned {
        oid: const_oid::ObjectIdentifier::new_unwrap("1.2.840.113549.1.1.1"),
        parameters: None,
    };
    let tbs = x509_cert::certificate::TbsCertificate {
        version: Version::V3,
        serial_number: SerialNumber::new(&[0x01]).unwrap(),
        signature: sig_alg.clone(),
        issuer: RdnSequence::from_str("CN=Test CA").unwrap(),
        validity: Validity {
            not_before: Time::UtcTime(
                UtcTime::from_unix_duration(Duration::from_secs(NOT_BEFORE)).unwrap(),
            ),
            not_after: Time::UtcTime(
                UtcTime::from_unix_duration(Duration::from_secs(NOT_AFTER)).unwrap(),
            ),
        },
        subject: RdnSequence::from_str(subject).unwrap(),
        subject_public_key_info: SubjectPublicKeyInfoOwned {
            algorithm: rsa_alg,
            subject_public_key: BitString::from_bytes(&rsa_key_der()).unwrap(),
        },
        issuer_unique_id: None,
        subject_unique_id: None,
        extensions: Some(vec![x509_cert::ext::Extension {
            extn_id: const_oid::ObjectIdentifier::new_unwrap("2.5.29.17"),
            critical: false,
            extn_value: OctetString::new(san.to_der().unwrap()).unwrap(),
        }]),
    };
    let cert = Certificate {
        tbs_certificate: tbs,
        signature_algorithm: sig_alg,
        signature: BitString::from_bytes(&[0x0a, 0x0b, 0x0c]).unwrap(),
    };
    cert.to_der().unwrap()
}

#[test]
fn minimal_certificate_round_trip_shows_san_line() {
    let der = minimal_cert_der();
    let info = cert_from_der(&der).expect("certificate should decode");
    let report = write_cert_info(&info, NOT_AFTER);
    assert!(report.contains("Subject: CN=example.com\n"));
    assert!(report.contains("Issuer: CN=Test CA\n"));
    assert!(report.contains("  ID: Subject Alternate Name\n"));
    assert!(report.contains(
        "  Extension value:\n    DNS:example.com, DNS:www.example.com\n"
    ));
}

#[test]
fn report_fixed_order_and_fields() {
    let der = minimal_cert_der();
    let info = cert_from_der(&der).expect("certificate should decode");
    let report = write_cert_info(&info, NOT_AFTER);
    assert!(report.starts_with("Certificate\n===========\n"));
    assert!(report.contains("Version: V3\n"));
    assert!(report.contains("Serial Number:\n  01\n"));
    assert!(report.contains("Signature Algorithm: sha256WithRSAEncryption\n"));
    assert!(report.contains("Issuer Serial Number:\n  <unknown>\n"));
    assert!(report.contains("Validity:\n"));
    assert!(report.contains("  Not Before: 2023-01-01T00:00:00Z (365 days ago)\n"));
    assert!(report.contains("  Not After: 2024-01-01T00:00:00Z (in 0 days)\n"));
    assert!(report.contains("Signature:\n  0a:0b:0c\n"));
    // sections appear in the fixed order
    let subject_at = report.find("Subject:").unwrap();
    let validity_at = report.find("Validity:").unwrap();
    let spki_at = report.find("Subject Public Key Info:").unwrap();
    let ext_at = report.find("Extensions:").unwrap();
    let sig_at = report.find("Signature:\n").unwrap();
    assert!(subject_at < validity_at && validity_at < spki_at);
    assert!(spki_at < ext_at && ext_at < sig_at);
}

#[test]
fn rsa_modulus_renders_bit_count_and_thirty_two_per_line() {
    let der = minimal_cert_der();
    let info = cert_from_der(&der).expect("certificate should decode");
    let report = write_cert_info(&info, NOT_AFTER);
    assert!(report.contains("  Algorithm: rsaEncryption\n"));
    assert!(report.contains("    Exponent: 65537 (0x10001)\n"));
    let line = ["11"; 32].join(":");
    let dump = vec![line.as_str(); 8].join("\n      ");
    let expected = format!("    Modulus(2048 bit):\n      {}\n", dump);
    assert!(report.contains(&expected));
}

#[test]
fn elliptic_curve_key_renders_curve_and_point() {
    let info = CertInfo {
        subject: "CN=ec".to_string(),
        issuer: "CN=ca".to_string(),
        version: "V3".to_string(),
        serial: vec![0x02],
        sig_alg_oid: "1.2.840.10045.4.3.2".to_string(),
        sig_params_ok: true,
        issuer_unique_id: None,
        not_before_text: "2023-01-01T00:00:00Z".to_string(),
        not_before_secs: NOT_BEFORE,
        not_after_text: "2024-01-01T00:00:00Z".to_string(),
        not_after_secs: NOT_AFTER,
        spki_alg_oid: "1.2.840.10045.2.1".to_string(),
        spki_params_oid: Some("1.2.840.10045.3.1.7".to_string()),
        spki_key: Some((0u8..16).collect()),
        extensions: None,
        signature: Some(vec![0x01]),
    };
    let report = write_cert_info(&info, NOT_AFTER);
    assert!(report.contains("  Algorithm: id-ecPublicKey (secp256r1)\n"));
    assert!(report.contains(
        "  Public Key:\n    00:01:02:03:04:05:06:07:08:09:0a:0b:0c:0d:0e\n    0f\n"
    ));
    assert!(report.contains("Signature Algorithm: ecdsa-with-SHA256\n"));
    // no extensions at all: no extensions header
    assert!(!report.contains("Extensions:"));
}

#[test]
fn other_algorithms_render_label_only() {
    let info = CertInfo {
        subject: "CN=x".to_string(),
        issuer: "CN=x".to_string(),
        version: "V1".to_string(),
        serial: vec![0x01],
        sig_alg_oid: "1.2.840.10040.4.3".to_string(),
        sig_params_ok: true,
        issuer_unique_id: Some(vec![0xfe, 0xff]),
        not_before_text: "t0".to_string(),
        not_before_secs: 0,
        not_after_text: "t1".to_string(),
        not_after_secs: 0,
        spki_alg_oid: "1.2.840.10040.4.1".to_string(),
        spki_params_oid: None,
        spki_key: Some(vec![0x01]),
        extensions: None,
        signature: None,
    };
    let report = write_cert_info(&info, 86400 * 3);
    assert!(report.contains("Subject Public Key Info:\n  Algorithm: id-dsa\nSignature:"));
    assert!(report.contains("Issuer Serial Number:\n  fe:ff\n"));
    assert!(report.contains("Signature:\n  <none>\n"));
}

#[test]
fn relative_phrases_for_past_and_future() {
    assert_eq!(duration_since_now_fmt(86400 * 10, 86400 * 7), "3 days ago");
    assert_eq!(duration_since_now_fmt(86400 * 7, 86400 * 12), "in 5 days");
    assert_eq!(duration_since_now_fmt(1000, 1000), "in 0 days");
    assert_eq!(duration_since_now_fmt(1001, 1000), "0 days ago");
}

#[test]
fn chain_decoding_keeps_decodable_entries_in_order() {
    let chain = vec![
        vec![0x00u8],
        cert_der_with_subject("CN=leaf.example"),
        vec![0xffu8, 0xfe],
        cert_der_with_subject("CN=issuer.example"),
    ];
    let certs = decode_chain(&chain);
    assert_eq!(certs.len(), 2);
    assert_eq!(certs[0].subject, "CN=leaf.example");
    assert_eq!(certs[1].subject, "CN=issuer.example");
}

#[test]
fn chain_decoding_drops_undecodable_entries() {
    let chain = vec![vec![0x00u8], minimal_cert_der(), vec![0x30, 0x00]];
    let certs = decode_chain(&chain);
    assert_eq!(certs.len(), 1);
    assert_eq!(certs[0].subject, "CN=example.com");
}

#[test]
fn empty_chain_is_an_explicit_error() {
    let certs = decode_chain(&vec![]);
    let r = require_non_empty_chain(certs);
    assert!(matches!(r, Err(ChainError::EmptyChain)));
    let all_garbage = decode_chain(&vec![vec![0xffu8], vec![]]);
    let r2 = require_non_empty_chain(all_garbage);
    match r2 {
        Err(e) => assert_eq!(e.message(), "chain contained 0 certificates"),
        Ok(_) => panic!("an undecodable chain must not pass"),
    }
}

#[test]
fn non_empty_chain_passes_through_unchanged() {
    let chain = vec![minimal_cert_der()];
    let certs = decode_chain(&chain);
    let r = require_non_empty_chain(certs);
    match r {
        Ok(v) => {
            assert_eq!(v.len(), 1);
            assert_eq!(v[0].subject, "CN=example.com");
        },
        Err(_) => panic!("a decodable chain must pass"),
    }
}
