//! The certificate model: a decoded X.509 certificate reduced to the plain
//! values that the report renderer reads. Decoding the DER blob and reading
//! the decoded structure's fields is done by the `x509-cert` crate behind
//! trusted accessors; the model itself and everything computed from it is
//! verified.

use vstd::prelude::*;
use der::Decode;
use crate::extn::ExtensionRec;

verus! {

/// A decoded certificate, held opaquely between the DER decoder and the
/// field accessors below. (The `x509-cert` type itself cannot be declared
/// to the verifier: its generic parameter is bounded by that crate's
/// `Profile` trait.)
#[verifier::external_body]
pub struct RawCert {
    inner: x509_cert::Certificate,
}

/// One certificate reduced to the plain values the report shows: names and
/// version in their rendered forms, timestamps both rendered and as unix
/// seconds, and raw bytes for everything shown as a hex dump.
pub struct CertInfo {
    /// The subject name, rendered.
    pub subject: String,
    /// The issuer name, rendered.
    pub issuer: String,
    /// The certificate version, rendered.
    pub version: String,
    /// The serial number bytes.
    pub serial: Vec<u8>,
    /// The signature algorithm, as a dotted-numeric object identifier.
    pub sig_alg_oid: String,
    /// Whether the signature algorithm's parameters field is absent or the
    /// ASN.1 NULL value (the only forms this tool accepts).
    pub sig_params_ok: bool,
    /// The issuer unique identifier bytes, if present.
    pub issuer_unique_id: Option<Vec<u8>>,
    /// The start of the validity window, rendered.
    pub not_before_text: String,
    /// The start of the validity window, as unix seconds.
    pub not_before_secs: u64,
    /// The end of the validity window, rendered.
    pub not_after_text: String,
    /// The end of the validity window, as unix seconds.
    pub not_after_secs: u64,
    /// The public-key algorithm, as a dotted-numeric object identifier.
    pub spki_alg_oid: String,
    /// The algorithm parameters, when they are themselves an object
    /// identifier (as for elliptic-curve keys).
    pub spki_params_oid: Option<String>,
    /// The raw subject public key bytes, when the key's bit string has no
    /// unused bits.
    pub spki_key: Option<Vec<u8>>,
    /// The certificate's extensions, in order, if the certificate has any.
    pub extensions: Option<Vec<ExtensionRec>>,
    /// The outer signature bytes, when the signature bit string has no
    /// unused bits.
    pub signature: Option<Vec<u8>>,
}

/// What decoding one DER-encoded certificate into the model yields.
/// Decoding and every field rendering below are deterministic, so the
/// model is a function of the DER bytes alone; nothing when the outer
/// encoding is invalid.
pub uninterp spec fn cert_parse(der: Seq<u8>) -> Option<CertInfo>;

/// Relies on `Certificate::from_der` of `x509-cert`: decodes one
/// DER-encoded certificate, or nothing when the encoding is invalid.
#[verifier::external_body]
fn decode_cert(der: &[u8]) -> Option<RawCert> {
    Some(RawCert { inner: x509_cert::Certificate::from_der(der).ok()? })
}

/// Relies on the `Display` rendering of the subject `Name` of `x509-cert`.
#[verifier::external_body]
fn cert_subject(c: &RawCert) -> String {
    c.inner.tbs_certificate.subject.to_string()
}

/// Relies on the `Display` rendering of the issuer `Name` of `x509-cert`.
#[verifier::external_body]
fn cert_issuer(c: &RawCert) -> String {
    c.inner.tbs_certificate.issuer.to_string()
}

/// Relies on the `Debug` rendering of `Version` of `x509-cert`.
#[verifier::external_body]
fn cert_version(c: &RawCert) -> String {
    format!("{:?}", c.inner.tbs_certificate.version)
}

/// Relies on `SerialNumber::as_bytes` of `x509-cert`.
#[verifier::external_body]
fn cert_serial(c: &RawCert) -> Vec<u8> {
    c.inner.tbs_certificate.serial_number.as_bytes().to_vec()
}

/// Relies on the dotted `Display` form of `ObjectIdentifier` and on
/// `Any::is_null` of `der`: the signature algorithm identifier, and whether
/// its parameters field is absent or NULL.
#[verifier::external_body]
fn cert_signature_alg(c: &RawCert) -> (String, bool) {
    let alg = &c.inner.signature_algorithm;
    let ok = match &alg.parameters {
        None => true,
        Some(p) => p.is_null(),
    };
    (alg.oid.to_string(), ok)
}

/// Relies on `BitString::as_bytes` of `der`: the issuer unique identifier
/// bytes, when present and byte-aligned.
#[verifier::external_body]
fn cert_issuer_unique_id(c: &RawCert) -> Option<Vec<u8>> {
    let bits = c.inner.tbs_certificate.issuer_unique_id.as_ref()?;
    Some(bits.as_bytes()?.to_vec())
}

/// Relies on the `Display` rendering of `Time` and on
/// `Time::to_unix_duration` of `x509-cert`: both validity bounds, rendered
/// and as unix seconds.
#[verifier::external_body]
fn cert_validity(c: &RawCert) -> (String, u64, String, u64) {
    let v = &c.inner.tbs_certificate.validity;
    (
        v.not_before.to_string(),
        v.not_before.to_unix_duration().as_secs(),
        v.not_after.to_string(),
        v.not_after.to_unix_duration().as_secs(),
    )
}

/// Relies on field access to `SubjectPublicKeyInfo`, `Any::decode_as` of
/// `der` for parameters that are an object identifier, and
/// `BitString::as_bytes`: the public-key algorithm, its parameter
/// identifier when it has one, and the raw key bytes.
#[verifier::external_body]
fn cert_spki(c: &RawCert) -> (String, Option<String>, Option<Vec<u8>>) {
    let spki = &c.inner.tbs_certificate.subject_public_key_info;
    let params = spki.algorithm.parameters.as_ref().and_then(
        |p| p.decode_as::<const_oid::ObjectIdentifier>().ok(),
    ).map(|o| o.to_string());
    let key = spki.subject_public_key.as_bytes().map(|b| b.to_vec());
    (spki.algorithm.oid.to_string(), params, key)
}

/// Relies on field access to `Extension` of `x509-cert` and the dotted
/// `Display` form of `ObjectIdentifier`: the extension records in order.
#[verifier::external_body]
fn cert_extensions(c: &RawCert) -> Option<Vec<ExtensionRec>> {
    let exts = c.inner.tbs_certificate.extensions.as_ref()?;
    Some(exts.iter().map(|e| ExtensionRec {
        oid: e.extn_id.to_string(),
        critical: e.critical,
        value: e.extn_value.as_bytes().to_vec(),
    }).collect())
}

/// Relies on `BitString::as_bytes` of `der`: the outer signature bytes,
/// when byte-aligned.
#[verifier::external_body]
fn cert_signature_bytes(c: &RawCert) -> Option<Vec<u8>> {
    Some(c.inner.signature.as_bytes()?.to_vec())
}

/// Reduces a decoded certificate to the plain values of the model.
fn cert_info(c: &RawCert) -> CertInfo {
    let (sig_alg_oid, sig_params_ok) = cert_signature_alg(c);
    let (not_before_text, not_before_secs, not_after_text, not_after_secs) = cert_validity(c);
    let (spki_alg_oid, spki_params_oid, spki_key) = cert_spki(c);
    CertInfo {
        subject: cert_subject(c),
        issuer: cert_issuer(c),
        version: cert_version(c),
        serial: cert_serial(c),
        sig_alg_oid,
        sig_params_ok,
        issuer_unique_id: cert_issuer_unique_id(c),
        not_before_text,
        not_before_secs,
        not_after_text,
        not_after_secs,
        spki_alg_oid,
        spki_params_oid,
        spki_key,
        extensions: cert_extensions(c),
        signature: cert_signature_bytes(c),
    }
}

/// Decodes one DER-encoded certificate into the model, or nothing when the
/// encoding is invalid.
///
/// Relies on nothing beyond the decoder and accessors above: the body
/// only composes `decode_cert` with the field reduction `cert_info`, and
/// the contract names their combined result, which is a function of the
/// DER bytes alone.
#[verifier::external_body]
pub fn cert_from_der(der: &[u8]) -> (r: Option<CertInfo>)
    ensures
        r == cert_parse(der@),
{
    match decode_cert(der) {
        Some(c) => Some(cert_info(&c)),
        None => None,
    }
}

} // verus!
