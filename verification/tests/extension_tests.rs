//! Tests of the extension interpreters, driving each one through the
//! dispatcher with payloads encoded by the same crates the tool decodes
//! with.

use der::asn1::{Ia5String, OctetString};
use der::flagset::FlagSet;
use der::Encode;
use x509_cert::ext::pkix::crl::dp::DistributionPoint;
use x509_cert::ext::pkix::name::{DistributionPointName, GeneralName};
use x509_cert::ext::pkix::{
    AuthorityKeyIdentifier, BasicConstraints, CertificatePolicies, CrlDistributionPoints,
    ExtendedKeyUsage, KeyUsage, KeyUsages, SubjectAltName, SubjectKeyIdentifier,
};
use x509_cert::ext::pkix::certpolicy::PolicyInformation;
use x509_cert::serial_number::SerialNumber;

use inspect_cert_chain::extn::{interpret_val, ExtensionRec};

fn ext(oid: &str, value: Vec<u8>) -> ExtensionRec {
    ExtensionRec { oid: oid.to_string(), critical: false, value }
}

#[test]
fn subject_alt_name_two_dns_entries() {
    let san = SubjectAltName(vec![
        GeneralName::DnsName(Ia5String::new("example.com").unwrap()),
        GeneralName::DnsName(Ia5String::new("www.example.com").unwrap()),
    ]);
    let rec = ext("2.5.29.17", san.to_der().unwrap());
    assert_eq!(interpret_val(&rec), "DNS:example.com, DNS:www.example.com");
}

#[test]
fn subject_alt_name_mixed_entries() {
    let san = SubjectAltName(vec![
        GeneralName::Rfc822Name(Ia5String::new("admin@example.com").unwrap()),
        GeneralName::UniformResourceIdentifier(Ia5String::new("https://example.com").unwrap()),
        GeneralName::IpAddress(OctetString::new(vec![10u8, 0, 0, 7]).unwrap()),
    ]);
    let rec = ext("2.5.29.17", san.to_der().unwrap());
    assert_eq!(
        interpret_val(&rec),
        "RFC:admin@example.com, URI:https://example.com, IP:10.0.0.7"
    );
}

#[test]
fn subject_alt_name_ip_payload_lengths() {
    let mut v6 = vec![0u8; 16];
    v6[0] = 0x20;
    v6[1] = 0x01;
    v6[2] = 0x0d;
    v6[3] = 0xb8;
    v6[15] = 0x01;
    let san = SubjectAltName(vec![
        GeneralName::IpAddress(OctetString::new(v6).unwrap()),
        GeneralName::IpAddress(OctetString::new(vec![1u8, 2, 3]).unwrap()),
    ]);
    let rec = ext("2.5.29.17", san.to_der().unwrap());
    assert_eq!(interpret_val(&rec), "IP:2001:db8::1, IP:<01:02:03>");
}

#[test]
fn key_usage_names_in_declaration_order() {
    let flags: FlagSet<KeyUsages> = KeyUsages::DigitalSignature | KeyUsages::KeyEncipherment;
    let rec = ext("2.5.29.15", KeyUsage(flags).to_der().unwrap());
    assert_eq!(interpret_val(&rec), "DigitalSignature, KeyEncipherment");

    let flags: FlagSet<KeyUsages> = KeyUsages::KeyCertSign | KeyUsages::CRLSign;
    let rec = ext("2.5.29.15", KeyUsage(flags).to_der().unwrap());
    assert_eq!(interpret_val(&rec), "KeyCertSign, CRLSign");
}

#[test]
fn extended_key_usage_resolves_labels() {
    let eku = ExtendedKeyUsage(vec![
        const_oid::ObjectIdentifier::new_unwrap("1.3.6.1.5.5.7.3.1"),
        const_oid::ObjectIdentifier::new_unwrap("1.3.6.1.5.5.7.3.2"),
    ]);
    let rec = ext("2.5.29.37", eku.to_der().unwrap());
    assert_eq!(
        interpret_val(&rec),
        "Server Authentication\n    Client Authentication"
    );
}

#[test]
fn basic_constraints_without_path_length() {
    let bc = BasicConstraints { ca: true, path_len_constraint: None };
    let rec = ext("2.5.29.19", bc.to_der().unwrap());
    assert_eq!(interpret_val(&rec), "CA: true\n    Path Length Constraint: None");
}

#[test]
fn basic_constraints_with_path_length() {
    let bc = BasicConstraints { ca: false, path_len_constraint: Some(3) };
    let rec = ext("2.5.29.19", bc.to_der().unwrap());
    assert_eq!(interpret_val(&rec), "CA: false\n    Path Length Constraint: 3");
}

#[test]
fn subject_key_identifier_dumps_twenty_per_line() {
    let id: Vec<u8> = (0u8..21).collect();
    let ski = SubjectKeyIdentifier(OctetString::new(id).unwrap());
    let rec = ext("2.5.29.14", ski.to_der().unwrap());
    assert_eq!(
        interpret_val(&rec),
        "00:01:02:03:04:05:06:07:08:09:0a:0b:0c:0d:0e:0f:10:11:12:13\n    14"
    );
}

#[test]
fn authority_key_identifier_all_three_fields() {
    let aki = AuthorityKeyIdentifier {
        key_identifier: Some(OctetString::new(vec![0xaau8, 0xbb]).unwrap()),
        authority_cert_issuer: Some(vec![GeneralName::DnsName(
            Ia5String::new("ca.example").unwrap(),
        )]),
        authority_cert_serial_number: Some(SerialNumber::new(&[0x01]).unwrap()),
    };
    let rec = ext("2.5.29.35", aki.to_der().unwrap());
    assert_eq!(
        interpret_val(&rec),
        "KeyId: aa:bb\n    Issuer: DNS:ca.example\n    Serial: 01"
    );
}

#[test]
fn authority_key_identifier_serial_only_gets_short_spacer() {
    let aki = AuthorityKeyIdentifier {
        key_identifier: None,
        authority_cert_issuer: None,
        authority_cert_serial_number: Some(SerialNumber::new(&[0x2a]).unwrap()),
    };
    let rec = ext("2.5.29.35", aki.to_der().unwrap());
    assert_eq!(interpret_val(&rec), "    Serial: 2a");
}

#[test]
fn authority_key_identifier_issuer_and_serial() {
    let aki = AuthorityKeyIdentifier {
        key_identifier: None,
        authority_cert_issuer: Some(vec![GeneralName::DnsName(
            Ia5String::new("ca.example").unwrap(),
        )]),
        authority_cert_serial_number: Some(SerialNumber::new(&[0x2a]).unwrap()),
    };
    let rec = ext("2.5.29.35", aki.to_der().unwrap());
    // one short spacer before the first present field, one newline spacer
    let text = interpret_val(&rec);
    assert_eq!(text, "    Issuer: DNS:ca.example\n    Serial: 2a");
    assert_eq!(text.matches("\n    ").count(), 1);
    assert!(!text.starts_with('\n'));
}

#[test]
fn authority_key_identifier_key_id_only() {
    let aki = AuthorityKeyIdentifier {
        key_identifier: Some(OctetString::new(vec![0x01u8]).unwrap()),
        authority_cert_issuer: None,
        authority_cert_serial_number: None,
    };
    let rec = ext("2.5.29.35", aki.to_der().unwrap());
    let text = interpret_val(&rec);
    assert_eq!(text, "KeyId: 01");
    assert_eq!(text.matches('\n').count(), 0);
}

#[test]
fn crl_distribution_point_full_name() {
    let dp = CrlDistributionPoints(vec![DistributionPoint {
        distribution_point: Some(DistributionPointName::FullName(vec![
            GeneralName::UniformResourceIdentifier(
                Ia5String::new("http://crl.example/a.crl").unwrap(),
            ),
        ])),
        reasons: None,
        crl_issuer: None,
    }]);
    let rec = ext("2.5.29.31", dp.to_der().unwrap());
    assert_eq!(interpret_val(&rec), "FullName:\n      URI:http://crl.example/a.crl");
}

#[test]
fn crl_distribution_points_comma_joined() {
    let point = |host: &str| DistributionPoint {
        distribution_point: Some(DistributionPointName::FullName(vec![
            GeneralName::UniformResourceIdentifier(Ia5String::new(host).unwrap()),
        ])),
        reasons: None,
        crl_issuer: None,
    };
    let dp = CrlDistributionPoints(vec![point("http://a.example"), point("http://b.example")]);
    let rec = ext("2.5.29.31", dp.to_der().unwrap());
    assert_eq!(
        interpret_val(&rec),
        "FullName:\n      URI:http://a.example, FullName:\n      URI:http://b.example"
    );
}

#[test]
fn crl_distribution_point_with_reasons() {
    let dp = CrlDistributionPoints(vec![DistributionPoint {
        distribution_point: None,
        reasons: Some(
            x509_cert::ext::pkix::crl::dp::Reasons::KeyCompromise
                | x509_cert::ext::pkix::crl::dp::Reasons::Superseded,
        ),
        crl_issuer: None,
    }]);
    let rec = ext("2.5.29.31", dp.to_der().unwrap());
    assert_eq!(interpret_val(&rec), "    Reasons: KeyCompromise, Superseded");
}

#[test]
fn authority_info_access_lines() {
    let aia = x509_cert::ext::pkix::AuthorityInfoAccessSyntax(vec![
        x509_cert::ext::pkix::AccessDescription {
            access_method: const_oid::ObjectIdentifier::new_unwrap("1.3.6.1.5.5.7.48.1"),
            access_location: GeneralName::UniformResourceIdentifier(
                Ia5String::new("http://ocsp.example").unwrap(),
            ),
        },
        x509_cert::ext::pkix::AccessDescription {
            access_method: const_oid::ObjectIdentifier::new_unwrap("1.3.6.1.5.5.7.48.2"),
            access_location: GeneralName::UniformResourceIdentifier(
                Ia5String::new("http://ca.example/ca.crt").unwrap(),
            ),
        },
    ]);
    let rec = ext("1.3.6.1.5.5.7.1.1", aia.to_der().unwrap());
    assert_eq!(
        interpret_val(&rec),
        "OCSP  URI:http://ocsp.example\n    CA Issuers  URI:http://ca.example/ca.crt"
    );
}

#[test]
fn certificate_policies_domain_validated() {
    let cp = CertificatePolicies(vec![PolicyInformation {
        policy_identifier: const_oid::ObjectIdentifier::new_unwrap("2.23.140.1.2.1"),
        policy_qualifiers: None,
    }]);
    let rec = ext("2.5.29.32", cp.to_der().unwrap());
    assert_eq!(interpret_val(&rec), "Domain Validated");
}

#[test]
fn certificate_policies_with_qualifiers() {
    let cp = CertificatePolicies(vec![PolicyInformation {
        policy_identifier: const_oid::ObjectIdentifier::new_unwrap("1.3.6.1.4.1.99999.5"),
        policy_qualifiers: Some(vec![x509_cert::ext::pkix::certpolicy::PolicyQualifierInfo {
            policy_qualifier_id: const_oid::ObjectIdentifier::new_unwrap("1.3.6.1.5.5.7.2.1"),
            qualifier: None,
        }]),
    }]);
    let rec = ext("2.5.29.32", cp.to_der().unwrap());
    assert_eq!(
        interpret_val(&rec),
        "1.3.6.1.4.1.99999.5 (qualifiers: id-qt-cps)"
    );
}

#[test]
fn unknown_extension_renders_raw_hex_dump() {
    let rec = ext("1.3.6.1.4.1.99999.1", vec![0xde, 0xad, 0xbe, 0xef]);
    assert_eq!(interpret_val(&rec), "de:ad:be:ef");
}

#[test]
fn unknown_extension_long_payload_wraps_at_eighty() {
    let payload = vec![0x00u8; 81];
    let rec = ext("1.3.6.1.4.1.99999.2", payload);
    let text = interpret_val(&rec);
    let lines: Vec<&str> = text.split("\n    ").collect();
    assert_eq!(lines.len(), 2);
    assert_eq!(lines[0].len(), 80 * 3 - 1);
    assert_eq!(lines[1], "00");
}

#[test]
fn malformed_recognized_payload_renders_diagnostic() {
    let rec = ext("2.5.29.17", vec![0xff]);
    assert_eq!(interpret_val(&rec), "<malformed extension value>");
    let rec = ext("2.5.29.15", vec![]);
    assert_eq!(interpret_val(&rec), "<malformed extension value>");
}

#[test]
fn sct_list_truncated_inner_length_is_malformed_not_fatal() {
    // a list whose one record ends directly after an extensions-length
    // field that claims two more bytes than remain: every length prefix
    // must be validated against the bytes actually left
    let mut sct: Vec<u8> = Vec::new();
    sct.push(0x00); // version
    sct.extend_from_slice(&[0x20u8; 32]); // log id
    sct.extend_from_slice(&1672531200000u64.to_be_bytes()); // timestamp (ms)
    sct.extend_from_slice(&[0x00, 0x02]); // extensions length, nothing after
    let mut list: Vec<u8> = Vec::new();
    let sct_len = sct.len() as u16;
    assert_eq!(sct_len, 43);
    list.extend_from_slice(&(sct_len + 2).to_be_bytes());
    list.extend_from_slice(&sct_len.to_be_bytes());
    list.extend_from_slice(&sct);
    let payload = OctetString::new(list).unwrap().to_der().unwrap();
    let rec = ext("1.3.6.1.4.1.11129.2.4.2", payload);
    assert_eq!(interpret_val(&rec), "<malformed extension value>");
}

#[test]
fn sct_list_trailing_garbage_is_malformed() {
    // the outer list length must match the remaining bytes exactly
    let payload = OctetString::new(vec![0x00u8, 0x01, 0xaa, 0xbb]).unwrap().to_der().unwrap();
    let rec = ext("1.3.6.1.4.1.11129.2.4.2", payload);
    assert_eq!(interpret_val(&rec), "<malformed extension value>");
}

#[test]
fn sct_list_renders_five_field_block() {
    // one TLS-encoded signed certificate timestamp, built by hand:
    // version 1, a fixed 32-byte log id, midnight 2023-01-01 UTC,
    // no extensions, ecdsa-with-SHA256, a 2-byte signature
    let mut sct: Vec<u8> = Vec::new();
    sct.push(0x00); // version
    sct.extend_from_slice(&[0x20u8; 32]); // log id
    sct.extend_from_slice(&1672531200000u64.to_be_bytes()); // timestamp (ms)
    sct.extend_from_slice(&[0x00, 0x00]); // extensions length
    sct.push(0x04); // hash: sha256
    sct.push(0x03); // signature: ecdsa
    sct.extend_from_slice(&[0x00, 0x02, 0xab, 0xcd]); // signature
    let mut list: Vec<u8> = Vec::new();
    let sct_len = sct.len() as u16;
    list.extend_from_slice(&(sct_len + 2).to_be_bytes());
    list.extend_from_slice(&sct_len.to_be_bytes());
    list.extend_from_slice(&sct);
    let payload = OctetString::new(list).unwrap().to_der().unwrap();
    let rec = ext("1.3.6.1.4.1.11129.2.4.2", payload);
    let expected = "Signed Certificate Timestamp:\n      Version   : v1\n      Log ID    : 20:20:20:20:20:20:20:20:20:20:20:20:20:20:20:20\n                  20:20:20:20:20:20:20:20:20:20:20:20:20:20:20:20\n      Timestamp : 2023-01-01T00:00:00Z\n      Extensions: none\n      Signature : ecdsa-with-SHA256\n                  ab:cd";
    assert_eq!(interpret_val(&rec), expected);
}
