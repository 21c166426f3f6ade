//! Interpretation of X.509 extension payloads: one decoder per recognized
//! extension type, each turning the extension's DER payload into a
//! formatted multi-line string, and a dispatcher that routes an extension
//! record to the matching decoder by identifier, falling back to a raw hex
//! dump for identifiers it does not know.
//!
//! DER decoding itself is done by the `x509-cert` and `der` crates behind
//! trusted wrappers, while the TLS framing of the signed-certificate-
//! timestamp list is parsed in verified code; everything from the decoded
//! plain values to the final text is verified. A payload that does not
//! decode renders as a fixed diagnostic line instead of aborting the
//! report (the deliberate, documented choice for malformed extension
//! payloads).

use vstd::prelude::*;
use der::Decode;
use x509_cert::ext::pkix;
use crate::hexfmt::{hex_lines, openssl_hex_joined};
use crate::names::{
    fmt_general_names_joined, spec_fmt_general_names, AltName,
};
use crate::oids::{oid_desc_or_raw, spec_oid_desc_or_raw, str_eq};
use crate::strutil::{be_uint, dec_str, join_strs, join_with, read_be_uint, u64_to_dec};
use vstd::slice::{slice_subrange, slice_to_vec};

verus! {

/// One extension record of a certificate: its identifier in dotted-numeric
/// form, its criticality flag, and its raw DER payload.
pub struct ExtensionRec {
    /// Dotted-numeric object identifier of the extension type.
    pub oid: String,
    /// Whether the extension is marked critical.
    pub critical: bool,
    /// The raw DER payload of the extension.
    pub value: Vec<u8>,
}

/// The decoded fields of an Authority Key Identifier extension; all three
/// sub-fields are independently optional.
pub struct AkiInfo {
    /// The key identifier bytes.
    pub key_id: Option<Vec<u8>>,
    /// The authority certificate issuer names.
    pub issuer: Option<Vec<AltName>>,
    /// The authority certificate serial number bytes.
    pub serial: Option<Vec<u8>>,
}

/// The name of a CRL distribution point: either a full list of general
/// names or a name relative to the CRL issuer (carried pre-rendered).
pub enum DpName {
    /// A full set of general names.
    Full(Vec<AltName>),
    /// A relative distinguished name, in its rendered form.
    Relative(String),
}

/// One decoded CRL distribution point; all three sub-fields are
/// independently optional.
pub struct DistPointInfo {
    /// The distribution point name.
    pub name: Option<DpName>,
    /// The CRL issuer names.
    pub crl_issuer: Option<Vec<AltName>>,
    /// The revocation reason flags, as the raw bit set.
    pub reasons: Option<u16>,
}

/// One decoded access description of an Authority Information Access
/// extension.
pub struct AccessDesc {
    /// The access method, as a dotted-numeric object identifier.
    pub method: String,
    /// The access location.
    pub location: AltName,
}

/// One decoded policy entry of a Certificate Policies extension.
pub struct PolicyInfo {
    /// The policy identifier, as a dotted-numeric object identifier.
    pub id: String,
    /// The policy qualifier identifiers, if any.
    pub qualifiers: Option<Vec<String>>,
}

/// One decoded signed certificate timestamp record.
pub struct SctInfo {
    /// The SCT version, in its rendered form.
    pub version: String,
    /// The log identifier bytes.
    pub log_id: Vec<u8>,
    /// The timestamp, in its rendered form.
    pub timestamp: String,
    /// The raw SCT extension bytes.
    pub extensions: Vec<u8>,
    /// The signature and hash algorithm pair, in its rendered form.
    pub sig_algo: String,
    /// The signature bytes.
    pub signature: Vec<u8>,
}

/// The decoded fields of a Basic Constraints extension.
pub struct BasicConstraintsInfo {
    /// Whether the subject is a certificate authority.
    pub ca: bool,
    /// The optional path length constraint.
    pub path_len: Option<u8>,
}

// What each trusted DER decoder returns for a given payload. DER decoding
// is deterministic, so each result is a function of the payload bytes alone.

/// What decoding a Subject Key Identifier payload yields.
pub uninterp spec fn ski_parse(der: Seq<u8>) -> Option<Vec<u8>>;

/// What decoding a Subject Alternative Name payload yields.
pub uninterp spec fn san_parse(der: Seq<u8>) -> Option<Vec<AltName>>;

/// What decoding a Key Usage payload yields: the flag bits, lowest bit
/// first in declaration order.
pub uninterp spec fn key_usage_parse(der: Seq<u8>) -> Option<u16>;

/// What decoding an Extended Key Usage payload yields: the key purpose
/// identifiers in dotted-numeric form.
pub uninterp spec fn eku_parse(der: Seq<u8>) -> Option<Vec<String>>;

/// What decoding a Basic Constraints payload yields.
pub uninterp spec fn basic_constraints_parse(der: Seq<u8>) -> Option<BasicConstraintsInfo>;

/// What decoding an Authority Key Identifier payload yields.
pub uninterp spec fn aki_parse(der: Seq<u8>) -> Option<AkiInfo>;

/// What decoding an Authority Information Access payload yields.
pub uninterp spec fn aia_parse(der: Seq<u8>) -> Option<Vec<AccessDesc>>;

/// What decoding a CRL Distribution Points payload yields.
pub uninterp spec fn crl_dp_parse(der: Seq<u8>) -> Option<Vec<DistPointInfo>>;

/// What decoding a Certificate Policies payload yields.
pub uninterp spec fn policies_parse(der: Seq<u8>) -> Option<Vec<PolicyInfo>>;

/// What unwrapping the outer DER OCTET STRING of a
/// signed-certificate-timestamp list payload yields: the TLS-encoded list
/// bytes. (The TLS encoding itself is parsed in verified code below.)
pub uninterp spec fn sct_payload_parse(der: Seq<u8>) -> Option<Vec<u8>>;

/// The rendered text of an SCT timestamp, given in milliseconds since the
/// unix epoch; nothing when the instant is outside the representable
/// calendar range.
pub uninterp spec fn sct_time_text(ms: u64) -> Option<Seq<char>>;

#[verifier::external_type_specification]
#[verifier::external_body]
pub struct ExPkixGeneralName(pkix::name::GeneralName);

#[verifier::external_type_specification]
#[verifier::external_body]
pub struct ExDistributionPoint(pkix::crl::dp::DistributionPoint);

/// Relies on field access and the `Display`/`Debug` renderings of the
/// `x509-cert` name types: maps each variant of the crate's `AltName`
/// to the library's own form, moving strings and bytes across unchanged.
#[verifier::external_body]
fn convert_general_name(n: &pkix::name::GeneralName) -> AltName {
    match n {
        pkix::name::GeneralName::OtherName(o) => AltName::Other(format!("{o:?}")),
        pkix::name::GeneralName::Rfc822Name(s) => AltName::Rfc822(s.as_str().to_owned()),
        pkix::name::GeneralName::DnsName(s) => AltName::Dns(s.as_str().to_owned()),
        pkix::name::GeneralName::DirectoryName(d) => AltName::Directory(format!("{d}")),
        pkix::name::GeneralName::EdiPartyName(e) => AltName::EdiParty(format!("{e:?}")),
        pkix::name::GeneralName::UniformResourceIdentifier(u) => AltName::Uri(
            u.as_str().to_owned(),
        ),
        pkix::name::GeneralName::IpAddress(ip) => AltName::Ip(ip.as_bytes().to_vec()),
        pkix::name::GeneralName::RegisteredId(oid) => AltName::RegisteredId(oid.to_string()),
    }
}

/// Relies on `SubjectKeyIdentifier::from_der` of `x509-cert`: DER decoding
/// is a function of the payload bytes alone.
#[verifier::external_body]
fn parse_ski(bytes: &[u8]) -> (r: Option<Vec<u8>>)
    ensures
        r == ski_parse(bytes@),
{
    let ski = pkix::SubjectKeyIdentifier::from_der(bytes).ok()?;
    Some(ski.0.as_bytes().to_vec())
}

/// Relies on `SubjectAltName::from_der` of `x509-cert`: DER decoding is a
/// function of the payload bytes alone.
#[verifier::external_body]
fn parse_san(bytes: &[u8]) -> (r: Option<Vec<AltName>>)
    ensures
        r == san_parse(bytes@),
{
    let san = pkix::SubjectAltName::from_der(bytes).ok()?;
    Some(san.0.iter().map(convert_general_name).collect())
}

/// Relies on `KeyUsage::from_der` of `x509-cert`: DER decoding is a
/// function of the payload bytes alone; the flag set's raw bits are
/// returned, bit `i` being the flag declared at position `i`.
#[verifier::external_body]
fn parse_key_usage(bytes: &[u8]) -> (r: Option<u16>)
    ensures
        r == key_usage_parse(bytes@),
{
    let ku = pkix::KeyUsage::from_der(bytes).ok()?;
    Some(ku.0.bits())
}

/// Relies on `ExtendedKeyUsage::from_der` of `x509-cert` and the dotted
/// `Display` form of `ObjectIdentifier`: DER decoding is a function of the
/// payload bytes alone.
#[verifier::external_body]
fn parse_eku(bytes: &[u8]) -> (r: Option<Vec<String>>)
    ensures
        r == eku_parse(bytes@),
{
    let eku = pkix::ExtendedKeyUsage::from_der(bytes).ok()?;
    Some(eku.0.iter().map(|o| o.to_string()).collect())
}

/// Relies on `BasicConstraints::from_der` of `x509-cert`: DER decoding is a
/// function of the payload bytes alone.
#[verifier::external_body]
fn parse_basic_constraints(bytes: &[u8]) -> (r: Option<BasicConstraintsInfo>)
    ensures
        r == basic_constraints_parse(bytes@),
{
    let bc = pkix::BasicConstraints::from_der(bytes).ok()?;
    Some(BasicConstraintsInfo { ca: bc.ca, path_len: bc.path_len_constraint })
}

/// Relies on `AuthorityKeyIdentifier::from_der` of `x509-cert`: DER
/// decoding is a function of the payload bytes alone.
#[verifier::external_body]
fn parse_aki(bytes: &[u8]) -> (r: Option<AkiInfo>)
    ensures
        r == aki_parse(bytes@),
{
    let aki = pkix::AuthorityKeyIdentifier::from_der(bytes).ok()?;
    Some(AkiInfo {
        key_id: aki.key_identifier.as_ref().map(|k| k.as_bytes().to_vec()),
        issuer: aki.authority_cert_issuer.as_ref().map(
            |ns| ns.iter().map(convert_general_name).collect(),
        ),
        serial: aki.authority_cert_serial_number.as_ref().map(|s| s.as_bytes().to_vec()),
    })
}

/// Relies on `AuthorityInfoAccessSyntax::from_der` of `x509-cert` and the
/// dotted `Display` form of `ObjectIdentifier`: DER decoding is a function
/// of the payload bytes alone.
#[verifier::external_body]
fn parse_aia(bytes: &[u8]) -> (r: Option<Vec<AccessDesc>>)
    ensures
        r == aia_parse(bytes@),
{
    let aia = pkix::AuthorityInfoAccessSyntax::from_der(bytes).ok()?;
    Some(aia.0.iter().map(|d| AccessDesc {
        method: d.access_method.to_string(),
        location: convert_general_name(&d.access_location),
    }).collect())
}

/// Relies on field access and the `Display` rendering of
/// `RelativeDistinguishedName` of `x509-cert`: maps one decoded
/// distribution point to the library's own form.
#[verifier::external_body]
fn convert_dist_point(dp: &pkix::crl::dp::DistributionPoint) -> DistPointInfo {
    DistPointInfo {
        name: dp.distribution_point.as_ref().map(|n| match n {
            pkix::name::DistributionPointName::FullName(ns) => DpName::Full(
                ns.iter().map(convert_general_name).collect(),
            ),
            pkix::name::DistributionPointName::NameRelativeToCRLIssuer(r) => DpName::Relative(
                format!("{r}"),
            ),
        }),
        crl_issuer: dp.crl_issuer.as_ref().map(|ns| ns.iter().map(convert_general_name).collect()),
        reasons: dp.reasons.as_ref().map(|r| r.bits()),
    }
}

/// Relies on `CrlDistributionPoints::from_der` of `x509-cert`: DER decoding
/// is a function of the payload bytes alone.
#[verifier::external_body]
fn parse_crl_dps(bytes: &[u8]) -> (r: Option<Vec<DistPointInfo>>)
    ensures
        r == crl_dp_parse(bytes@),
{
    let dps = pkix::CrlDistributionPoints::from_der(bytes).ok()?;
    Some(dps.0.iter().map(convert_dist_point).collect())
}

/// Relies on `CertificatePolicies::from_der` of `x509-cert` and the dotted
/// `Display` form of `ObjectIdentifier`: DER decoding is a function of the
/// payload bytes alone.
#[verifier::external_body]
fn parse_policies(bytes: &[u8]) -> (r: Option<Vec<PolicyInfo>>)
    ensures
        r == policies_parse(bytes@),
{
    let cp = pkix::CertificatePolicies::from_der(bytes).ok()?;
    Some(cp.0.iter().map(|p| PolicyInfo {
        id: p.policy_identifier.to_string(),
        qualifiers: p.policy_qualifiers.as_ref().map(
            |qs| qs.iter().map(|q| q.policy_qualifier_id.to_string()).collect(),
        ),
    }).collect())
}

/// Relies on `OctetString::from_der` of `der`: unwraps the outer OCTET
/// STRING of a signed-certificate-timestamp list payload; DER decoding is
/// a function of the payload bytes alone.
#[verifier::external_body]
fn parse_sct_payload(bytes: &[u8]) -> (r: Option<Vec<u8>>)
    ensures
        r == sct_payload_parse(bytes@),
{
    let os = der::asn1::OctetString::from_der(bytes).ok()?;
    Some(os.as_bytes().to_vec())
}

/// Relies on `GeneralizedTime::from_unix_duration` (with `UtcTime` as the
/// fallback) of `der` and the `Display` rendering of `Time` of
/// `x509-cert`: the calendar text of an epoch instant given in
/// milliseconds, a function of the instant alone; nothing when the
/// instant is outside both types' ranges.
#[verifier::external_body]
fn format_sct_timestamp(ms: u64) -> (r: Option<String>)
    ensures
        r matches Some(t) ==> sct_time_text(ms) == Some(t@),
        r is None ==> sct_time_text(ms) is None,
{
    let d = std::time::Duration::from_millis(ms);
    if let Ok(t) = der::asn1::GeneralizedTime::from_unix_duration(d) {
        return Some(x509_cert::time::Time::from(t).to_string());
    }
    let t = der::asn1::UtcTime::from_unix_duration(d).ok()?;
    Some(x509_cert::time::Time::from(t).to_string())
}

/// The fixed diagnostic text rendered when a recognized extension's payload
/// does not decode.
pub open spec fn malformed_text() -> Seq<char> {
    "<malformed extension value>"@
}

fn malformed_string() -> (r: String)
    ensures
        r@ == malformed_text(),
{
    "<malformed extension value>".to_owned()
}

/// The rendered Subject Key Identifier text: the key id bytes as a hex dump
/// of 20 bytes per line.
pub open spec fn spec_fmt_ski_ext(der: Seq<u8>) -> Seq<char> {
    match ski_parse(der) {
        Some(k) => join_strs(hex_lines(k@, 20), "\n    "@),
        None => malformed_text(),
    }
}

/// Renders a Subject Key Identifier payload.
pub fn fmt_subject_key_identifier(bytes: &[u8]) -> (r: String)
    ensures
        r@ == spec_fmt_ski_ext(bytes@),
{
    match parse_ski(bytes) {
        Some(k) => openssl_hex_joined(k.as_slice(), 20, "\n    "),
        None => malformed_string(),
    }
}

/// The rendered Subject Alternative Name text: the general names,
/// comma-joined.
pub open spec fn spec_fmt_san_ext(der: Seq<u8>) -> Seq<char> {
    match san_parse(der) {
        Some(v) => join_strs(spec_fmt_general_names(v@), ", "@),
        None => malformed_text(),
    }
}

/// Renders a Subject Alternative Name payload.
pub fn fmt_subject_alt_name(bytes: &[u8]) -> (r: String)
    ensures
        r@ == spec_fmt_san_ext(bytes@),
{
    match parse_san(bytes) {
        Some(v) => fmt_general_names_joined(&v, ", "),
        None => malformed_string(),
    }
}

/// A singleton of `name` when `bits & mask` is set, else empty; used to
/// collect flag names in declaration order.
pub open spec fn flag_piece(bits: u16, mask: u16, name: Seq<char>) -> Seq<Seq<char>> {
    if bits & mask != 0 {
        seq![name]
    } else {
        Seq::<Seq<char>>::empty()
    }
}

/// The names of the set key-usage flags, in declaration order.
pub open spec fn key_usage_names(bits: u16) -> Seq<Seq<char>> {
    flag_piece(bits, 0x1, "DigitalSignature"@) + flag_piece(bits, 0x2, "NonRepudiation"@)
        + flag_piece(bits, 0x4, "KeyEncipherment"@) + flag_piece(bits, 0x8, "DataEncipherment"@)
        + flag_piece(bits, 0x10, "KeyAgreement"@) + flag_piece(bits, 0x20, "KeyCertSign"@)
        + flag_piece(bits, 0x40, "CRLSign"@) + flag_piece(bits, 0x80, "EncipherOnly"@)
        + flag_piece(bits, 0x100, "DecipherOnly"@)
}

/// The rendered Key Usage text: the set flag names in declaration order,
/// comma-joined.
pub open spec fn spec_fmt_key_usage_ext(der: Seq<u8>) -> Seq<char> {
    match key_usage_parse(der) {
        Some(bits) => join_strs(key_usage_names(bits), ", "@),
        None => malformed_text(),
    }
}

/// Appends the flag's name when `bits & mask` is set.
fn push_flag(items: &mut Vec<String>, bits: u16, mask: u16, name: &str)
    ensures
        final(items).deep_view() == old(items).deep_view() + flag_piece(bits, mask, name@),
{
    if bits & mask != 0 {
        items.push(name.to_owned());
        proof {
            assert(items.deep_view() =~= old(items).deep_view() + flag_piece(bits, mask, name@));
        }
    } else {
        proof {
            assert(items.deep_view() =~= old(items).deep_view() + flag_piece(bits, mask, name@));
        }
    }
}

fn key_usage_name_list(bits: u16) -> (r: Vec<String>)
    ensures
        r.deep_view() == key_usage_names(bits),
{
    let mut items: Vec<String> = Vec::new();
    let ghost mut acc: Seq<Seq<char>> = Seq::<Seq<char>>::empty();
    push_flag(&mut items, bits, 0x1, "DigitalSignature");
    proof {
        acc = flag_piece(bits, 0x1, "DigitalSignature"@);
        assert(items.deep_view() =~= acc);
    }
    push_flag(&mut items, bits, 0x2, "NonRepudiation");
    proof {
        acc = acc + flag_piece(bits, 0x2, "NonRepudiation"@);
    }
    push_flag(&mut items, bits, 0x4, "KeyEncipherment");
    proof {
        acc = acc + flag_piece(bits, 0x4, "KeyEncipherment"@);
    }
    push_flag(&mut items, bits, 0x8, "DataEncipherment");
    proof {
        acc = acc + flag_piece(bits, 0x8, "DataEncipherment"@);
    }
    push_flag(&mut items, bits, 0x10, "KeyAgreement");
    proof {
        acc = acc + flag_piece(bits, 0x10, "KeyAgreement"@);
    }
    push_flag(&mut items, bits, 0x20, "KeyCertSign");
    proof {
        acc = acc + flag_piece(bits, 0x20, "KeyCertSign"@);
    }
    push_flag(&mut items, bits, 0x40, "CRLSign");
    proof {
        acc = acc + flag_piece(bits, 0x40, "CRLSign"@);
    }
    push_flag(&mut items, bits, 0x80, "EncipherOnly");
    proof {
        acc = acc + flag_piece(bits, 0x80, "EncipherOnly"@);
    }
    push_flag(&mut items, bits, 0x100, "DecipherOnly");
    proof {
        acc = acc + flag_piece(bits, 0x100, "DecipherOnly"@);
        assert(items.deep_view() == acc);
        assert(acc == key_usage_names(bits));
    }
    items
}

/// Renders a Key Usage payload.
pub fn fmt_key_usage(bytes: &[u8]) -> (r: String)
    ensures
        r@ == spec_fmt_key_usage_ext(bytes@),
{
    match parse_key_usage(bytes) {
        Some(bits) => {
            let items = key_usage_name_list(bits);
            join_with(&items, ", ")
        },
        None => malformed_string(),
    }
}

/// The rendered Extended Key Usage text: each key purpose identifier
/// resolved to its label, newline-joined with indentation.
pub open spec fn spec_fmt_eku_ext(der: Seq<u8>) -> Seq<char> {
    match eku_parse(der) {
        Some(v) => join_strs(
            v@.map_values(|o: String| spec_oid_desc_or_raw(o@)),
            "\n    "@,
        ),
        None => malformed_text(),
    }
}

/// Renders an Extended Key Usage payload.
pub fn fmt_extended_key_usage(bytes: &[u8]) -> (r: String)
    ensures
        r@ == spec_fmt_eku_ext(bytes@),
{
    match parse_eku(bytes) {
        Some(v) => {
            let ghost target = v@.map_values(|o: String| spec_oid_desc_or_raw(o@));
            let mut items: Vec<String> = Vec::new();
            let mut i: usize = 0;
            proof {
                assert(items.deep_view() =~= target.take(0));
            }
            while i < v.len()
                invariant
                    i <= v@.len(),
                    target == v@.map_values(|o: String| spec_oid_desc_or_raw(o@)),
                    items.deep_view() == target.take(i as int),
                decreases v@.len() - i,
            {
                let d = oid_desc_or_raw(&v[i]);
                let ghost old_dv = items.deep_view();
                items.push(d);
                proof {
                    assert(items.deep_view() =~= old_dv + seq![d@]);
                    assert(items.deep_view() =~= target.take(i + 1));
                }
                i += 1;
            }
            proof {
                assert(target.take(v@.len() as int) =~= target);
            }
            join_with(&items, "\n    ")
        },
        None => malformed_string(),
    }
}

/// The rendered Basic Constraints text: the CA flag and the path length
/// constraint on two lines, an absent path length as the literal "None".
pub open spec fn spec_fmt_basic_constraints_ext(der: Seq<u8>) -> Seq<char> {
    match basic_constraints_parse(der) {
        Some(bc) => "CA: "@ + (if bc.ca {
            "true"@
        } else {
            "false"@
        }) + "\n    Path Length Constraint: "@ + (match bc.path_len {
            Some(n) => dec_str(n as nat),
            None => "None"@,
        }),
        None => malformed_text(),
    }
}

/// Renders a Basic Constraints payload.
pub fn fmt_basic_constraints(bytes: &[u8]) -> (r: String)
    ensures
        r@ == spec_fmt_basic_constraints_ext(bytes@),
{
    match parse_basic_constraints(bytes) {
        Some(bc) => {
            let mut s = "CA: ".to_owned();
            s.append(if bc.ca {
                "true"
            } else {
                "false"
            });
            s.append("\n    Path Length Constraint: ");
            match bc.path_len {
                Some(n) => {
                    let d = u64_to_dec(n as u64);
                    s.append(d.as_str());
                },
                None => {
                    s.append("None");
                },
            }
            proof {
                assert(s@ =~= spec_fmt_basic_constraints_ext(bytes@));
            }
            s
        },
        None => malformed_string(),
    }
}

/// The rendered Authority Information Access text: one line per access
/// description, "<method label>  <location>", newline-joined with
/// indentation.
pub open spec fn spec_fmt_aia_ext(der: Seq<u8>) -> Seq<char> {
    match aia_parse(der) {
        Some(v) => join_strs(
            v@.map_values(
                |d: AccessDesc| spec_oid_desc_or_raw(d.method@) + "  "@
                    + crate::names::spec_fmt_general_name(d.location),
            ),
            "\n    "@,
        ),
        None => malformed_text(),
    }
}

/// Renders an Authority Information Access payload.
pub fn fmt_authority_info_access_syntax(bytes: &[u8]) -> (r: String)
    ensures
        r@ == spec_fmt_aia_ext(bytes@),
{
    match parse_aia(bytes) {
        Some(v) => {
            let ghost target = v@.map_values(
                |d: AccessDesc| spec_oid_desc_or_raw(d.method@) + "  "@
                    + crate::names::spec_fmt_general_name(d.location),
            );
            let mut items: Vec<String> = Vec::new();
            let mut i: usize = 0;
            proof {
                assert(items.deep_view() =~= target.take(0));
            }
            while i < v.len()
                invariant
                    i <= v@.len(),
                    target == v@.map_values(
                        |d: AccessDesc| spec_oid_desc_or_raw(d.method@) + "  "@
                            + crate::names::spec_fmt_general_name(d.location),
                    ),
                    items.deep_view() == target.take(i as int),
                decreases v@.len() - i,
            {
                let mut line = oid_desc_or_raw(&v[i].method);
                line.append("  ");
                let loc = crate::names::fmt_general_name(&v[i].location);
                line.append(loc.as_str());
                let ghost old_dv = items.deep_view();
                items.push(line);
                proof {
                    assert(items.deep_view() =~= old_dv + seq![line@]);
                    assert(line@ =~= target[i as int]);
                    assert(items.deep_view() =~= target.take(i + 1));
                }
                i += 1;
            }
            proof {
                assert(target.take(v@.len() as int) =~= target);
            }
            join_with(&items, "\n    ")
        },
        None => malformed_string(),
    }
}

// Authority Key Identifier: up to three optional sub-fields, rendered with
// the positional separator rule — the first present field gets the short
// spacer (or none, for the key id), every later one a newline spacer.

/// The key-identifier piece of an Authority Key Identifier.
pub open spec fn spec_fmt_aki_key_id(a: AkiInfo) -> Seq<char> {
    match a.key_id {
        Some(k) => "KeyId: "@ + join_strs(hex_lines(k@, 20), "\n"@),
        None => Seq::<char>::empty(),
    }
}

/// The issuer piece of an Authority Key Identifier, with its positional
/// spacer.
pub open spec fn spec_fmt_aki_issuer(a: AkiInfo) -> Seq<char> {
    match a.issuer {
        Some(ns) => (if a.key_id is Some {
            "\n    "@
        } else {
            "    "@
        }) + "Issuer: "@ + join_strs(spec_fmt_general_names(ns@), ", "@),
        None => Seq::<char>::empty(),
    }
}

/// The serial piece of an Authority Key Identifier, with its positional
/// spacer.
pub open spec fn spec_fmt_aki_serial(a: AkiInfo) -> Seq<char> {
    match a.serial {
        Some(s) => (if a.key_id is Some || a.issuer is Some {
            "\n    "@
        } else {
            "    "@
        }) + "Serial: "@ + join_strs(hex_lines(s@, 20), "\n"@),
        None => Seq::<char>::empty(),
    }
}

/// The rendered Authority Key Identifier text: the three optional pieces in
/// order.
pub open spec fn spec_fmt_aki(a: AkiInfo) -> Seq<char> {
    spec_fmt_aki_key_id(a) + spec_fmt_aki_issuer(a) + spec_fmt_aki_serial(a)
}

/// The rendered Authority Key Identifier extension text.
pub open spec fn spec_fmt_aki_ext(der: Seq<u8>) -> Seq<char> {
    match aki_parse(der) {
        Some(a) => spec_fmt_aki(a),
        None => malformed_text(),
    }
}

/// Renders the key-identifier piece of an Authority Key Identifier.
pub fn fmt_aki_key_id(aki: &AkiInfo) -> (r: String)
    ensures
        r@ == spec_fmt_aki_key_id(*aki),
{
    match &aki.key_id {
        Some(k) => {
            let mut s = "KeyId: ".to_owned();
            let d = openssl_hex_joined(k.as_slice(), 20, "\n");
            s.append(d.as_str());
            s
        },
        None => String::new(),
    }
}

/// Renders the issuer piece of an Authority Key Identifier.
pub fn fmt_aki_issuer(aki: &AkiInfo) -> (r: String)
    ensures
        r@ == spec_fmt_aki_issuer(*aki),
{
    match &aki.issuer {
        Some(ns) => {
            let mut s = if aki.key_id.is_some() {
                "\n    ".to_owned()
            } else {
                "    ".to_owned()
            };
            s.append("Issuer: ");
            let j = fmt_general_names_joined(ns, ", ");
            s.append(j.as_str());
            proof {
                assert(s@ =~= spec_fmt_aki_issuer(*aki));
            }
            s
        },
        None => String::new(),
    }
}

/// Renders the serial piece of an Authority Key Identifier.
pub fn fmt_aki_serial(aki: &AkiInfo) -> (r: String)
    ensures
        r@ == spec_fmt_aki_serial(*aki),
{
    match &aki.serial {
        Some(sn) => {
            let mut s = if aki.key_id.is_some() || aki.issuer.is_some() {
                "\n    ".to_owned()
            } else {
                "    ".to_owned()
            };
            s.append("Serial: ");
            let d = openssl_hex_joined(sn.as_slice(), 20, "\n");
            s.append(d.as_str());
            proof {
                assert(s@ =~= spec_fmt_aki_serial(*aki));
            }
            s
        },
        None => String::new(),
    }
}

/// Renders an Authority Key Identifier payload.
pub fn fmt_authority_key_identifier(bytes: &[u8]) -> (r: String)
    ensures
        r@ == spec_fmt_aki_ext(bytes@),
{
    match parse_aki(bytes) {
        Some(a) => {
            let mut s = fmt_aki_key_id(&a);
            let i = fmt_aki_issuer(&a);
            s.append(i.as_str());
            let e = fmt_aki_serial(&a);
            s.append(e.as_str());
            s
        },
        None => malformed_string(),
    }
}

// CRL Distribution Points: a comma-joined sequence of points, each with up
// to three optional sub-fields under the same positional separator rule.

/// The name piece of a distribution point.
pub open spec fn spec_fmt_dp_name(dp: DistPointInfo) -> Seq<char> {
    match dp.name {
        Some(DpName::Full(ns)) => "FullName:\n      "@ + join_strs(
            spec_fmt_general_names(ns@),
            ", "@,
        ),
        Some(DpName::Relative(s)) => "RelativeName:\n      "@ + s@,
        None => Seq::<char>::empty(),
    }
}

/// The CRL-issuer piece of a distribution point, with its positional
/// spacer.
pub open spec fn spec_fmt_dp_crl_issuer(dp: DistPointInfo) -> Seq<char> {
    match dp.crl_issuer {
        Some(ns) => (if dp.name is Some {
            "\n    "@
        } else {
            "    "@
        }) + "Issuer: "@ + join_strs(spec_fmt_general_names(ns@), ", "@),
        None => Seq::<char>::empty(),
    }
}

/// The names of the set revocation-reason flags, in declaration order.
pub open spec fn reason_names(bits: u16) -> Seq<Seq<char>> {
    flag_piece(bits, 0x1, "Unused"@) + flag_piece(bits, 0x2, "KeyCompromise"@)
        + flag_piece(bits, 0x4, "CaCompromise"@) + flag_piece(bits, 0x8, "AffiliationChanged"@)
        + flag_piece(bits, 0x10, "Superseded"@) + flag_piece(bits, 0x20, "CessationOfOperation"@)
        + flag_piece(bits, 0x40, "CertificateHold"@) + flag_piece(
        bits,
        0x80,
        "PrivilegeWithdrawn"@,
    ) + flag_piece(bits, 0x100, "AaCompromise"@)
}

/// The reasons piece of a distribution point, with its positional spacer.
pub open spec fn spec_fmt_dp_reasons(dp: DistPointInfo) -> Seq<char> {
    match dp.reasons {
        Some(bits) => (if dp.name is Some || dp.crl_issuer is Some {
            "\n    "@
        } else {
            "    "@
        }) + "Reasons: "@ + join_strs(reason_names(bits), ", "@),
        None => Seq::<char>::empty(),
    }
}

/// The rendered text of one distribution point: the three optional pieces
/// in order.
pub open spec fn spec_fmt_dp(dp: DistPointInfo) -> Seq<char> {
    spec_fmt_dp_name(dp) + spec_fmt_dp_crl_issuer(dp) + spec_fmt_dp_reasons(dp)
}

/// The rendered CRL Distribution Points extension text: the points,
/// comma-joined.
pub open spec fn spec_fmt_crldp_ext(der: Seq<u8>) -> Seq<char> {
    match crl_dp_parse(der) {
        Some(v) => join_strs(v@.map_values(|dp: DistPointInfo| spec_fmt_dp(dp)), ", "@),
        None => malformed_text(),
    }
}

/// Renders the name piece of a distribution point.
pub fn fmt_dp_name(dp: &DistPointInfo) -> (r: String)
    ensures
        r@ == spec_fmt_dp_name(*dp),
{
    match &dp.name {
        Some(DpName::Full(ns)) => {
            let mut s = "FullName:\n      ".to_owned();
            let j = fmt_general_names_joined(ns, ", ");
            s.append(j.as_str());
            s
        },
        Some(DpName::Relative(rel)) => {
            let mut s = "RelativeName:\n      ".to_owned();
            s.append(rel.as_str());
            s
        },
        None => String::new(),
    }
}

/// Renders the CRL-issuer piece of a distribution point.
pub fn fmt_dp_crl_issuer(dp: &DistPointInfo) -> (r: String)
    ensures
        r@ == spec_fmt_dp_crl_issuer(*dp),
{
    match &dp.crl_issuer {
        Some(ns) => {
            let mut s = if dp.name.is_some() {
                "\n    ".to_owned()
            } else {
                "    ".to_owned()
            };
            s.append("Issuer: ");
            let j = fmt_general_names_joined(ns, ", ");
            s.append(j.as_str());
            proof {
                assert(s@ =~= spec_fmt_dp_crl_issuer(*dp));
            }
            s
        },
        None => String::new(),
    }
}

fn reason_name_list(bits: u16) -> (r: Vec<String>)
    ensures
        r.deep_view() == reason_names(bits),
{
    let mut items: Vec<String> = Vec::new();
    let ghost mut acc: Seq<Seq<char>> = Seq::<Seq<char>>::empty();
    push_flag(&mut items, bits, 0x1, "Unused");
    proof {
        acc = flag_piece(bits, 0x1, "Unused"@);
        assert(items.deep_view() =~= acc);
    }
    push_flag(&mut items, bits, 0x2, "KeyCompromise");
    proof {
        acc = acc + flag_piece(bits, 0x2, "KeyCompromise"@);
    }
    push_flag(&mut items, bits, 0x4, "CaCompromise");
    proof {
        acc = acc + flag_piece(bits, 0x4, "CaCompromise"@);
    }
    push_flag(&mut items, bits, 0x8, "AffiliationChanged");
    proof {
        acc = acc + flag_piece(bits, 0x8, "AffiliationChanged"@);
    }
    push_flag(&mut items, bits, 0x10, "Superseded");
    proof {
        acc = acc + flag_piece(bits, 0x10, "Superseded"@);
    }
    push_flag(&mut items, bits, 0x20, "CessationOfOperation");
    proof {
        acc = acc + flag_piece(bits, 0x20, "CessationOfOperation"@);
    }
    push_flag(&mut items, bits, 0x40, "CertificateHold");
    proof {
        acc = acc + flag_piece(bits, 0x40, "CertificateHold"@);
    }
    push_flag(&mut items, bits, 0x80, "PrivilegeWithdrawn");
    proof {
        acc = acc + flag_piece(bits, 0x80, "PrivilegeWithdrawn"@);
    }
    push_flag(&mut items, bits, 0x100, "AaCompromise");
    proof {
        acc = acc + flag_piece(bits, 0x100, "AaCompromise"@);
        assert(items.deep_view() == acc);
        assert(acc == reason_names(bits));
    }
    items
}

/// Renders the reasons piece of a distribution point.
pub fn fmt_dp_reasons(dp: &DistPointInfo) -> (r: String)
    ensures
        r@ == spec_fmt_dp_reasons(*dp),
{
    match &dp.reasons {
        Some(bits) => {
            let mut s = if dp.name.is_some() || dp.crl_issuer.is_some() {
                "\n    ".to_owned()
            } else {
                "    ".to_owned()
            };
            s.append("Reasons: ");
            let names = reason_name_list(*bits);
            let j = join_with(&names, ", ");
            s.append(j.as_str());
            proof {
                assert(s@ =~= spec_fmt_dp_reasons(*dp));
            }
            s
        },
        None => String::new(),
    }
}

/// Renders one distribution point.
pub fn fmt_crl_distribution_point(dp: &DistPointInfo) -> (r: String)
    ensures
        r@ == spec_fmt_dp(*dp),
{
    let mut s = fmt_dp_name(dp);
    let i = fmt_dp_crl_issuer(dp);
    s.append(i.as_str());
    let e = fmt_dp_reasons(dp);
    s.append(e.as_str());
    s
}

/// Renders a CRL Distribution Points payload.
pub fn fmt_crl_distribution_points(bytes: &[u8]) -> (r: String)
    ensures
        r@ == spec_fmt_crldp_ext(bytes@),
{
    match parse_crl_dps(bytes) {
        Some(v) => {
            let ghost target = v@.map_values(|dp: DistPointInfo| spec_fmt_dp(dp));
            let mut items: Vec<String> = Vec::new();
            let mut i: usize = 0;
            proof {
                assert(items.deep_view() =~= target.take(0));
            }
            while i < v.len()
                invariant
                    i <= v@.len(),
                    target == v@.map_values(|dp: DistPointInfo| spec_fmt_dp(dp)),
                    items.deep_view() == target.take(i as int),
                decreases v@.len() - i,
            {
                let t = fmt_crl_distribution_point(&v[i]);
                let ghost old_dv = items.deep_view();
                items.push(t);
                proof {
                    assert(items.deep_view() =~= old_dv + seq![t@]);
                    assert(items.deep_view() =~= target.take(i + 1));
                }
                i += 1;
            }
            proof {
                assert(target.take(v@.len() as int) =~= target);
            }
            join_with(&items, ", ")
        },
        None => malformed_string(),
    }
}

// Certificate Policies: one line per policy, each with its resolved
// identifier and an optional parenthesised list of qualifier labels.

/// The rendered text of one policy entry.
pub open spec fn spec_fmt_policy(p: PolicyInfo) -> Seq<char> {
    spec_oid_desc_or_raw(p.id@) + match p.qualifiers {
        Some(qs) => " (qualifiers: "@ + join_strs(
            qs@.map_values(|q: String| spec_oid_desc_or_raw(q@)),
            ", "@,
        ) + ")"@,
        None => Seq::<char>::empty(),
    }
}

/// The rendered Certificate Policies extension text.
pub open spec fn spec_fmt_policies_ext(der: Seq<u8>) -> Seq<char> {
    match policies_parse(der) {
        Some(v) => join_strs(v@.map_values(|p: PolicyInfo| spec_fmt_policy(p)), "\n    "@),
        None => malformed_text(),
    }
}

fn fmt_policy(p: &PolicyInfo) -> (r: String)
    ensures
        r@ == spec_fmt_policy(*p),
{
    let mut s = oid_desc_or_raw(&p.id);
    match &p.qualifiers {
        Some(qs) => {
            s.append(" (qualifiers: ");
            let ghost target = qs@.map_values(|q: String| spec_oid_desc_or_raw(q@));
            let mut items: Vec<String> = Vec::new();
            let mut i: usize = 0;
            proof {
                assert(items.deep_view() =~= target.take(0));
            }
            while i < qs.len()
                invariant
                    i <= qs@.len(),
                    target == qs@.map_values(|q: String| spec_oid_desc_or_raw(q@)),
                    items.deep_view() == target.take(i as int),
                decreases qs@.len() - i,
            {
                let d = oid_desc_or_raw(&qs[i]);
                let ghost old_dv = items.deep_view();
                items.push(d);
                proof {
                    assert(items.deep_view() =~= old_dv + seq![d@]);
                    assert(items.deep_view() =~= target.take(i + 1));
                }
                i += 1;
            }
            proof {
                assert(target.take(qs@.len() as int) =~= target);
            }
            let j = join_with(&items, ", ");
            s.append(j.as_str());
            s.append(")");
            proof {
                assert(s@ =~= spec_fmt_policy(*p));
            }
            s
        },
        None => {
            proof {
                assert(s@ =~= spec_fmt_policy(*p));
            }
            s
        },
    }
}

/// Renders a Certificate Policies payload.
pub fn fmt_certificate_policies(bytes: &[u8]) -> (r: String)
    ensures
        r@ == spec_fmt_policies_ext(bytes@),
{
    match parse_policies(bytes) {
        Some(v) => {
            let ghost target = v@.map_values(|p: PolicyInfo| spec_fmt_policy(p));
            let mut items: Vec<String> = Vec::new();
            let mut i: usize = 0;
            proof {
                assert(items.deep_view() =~= target.take(0));
            }
            while i < v.len()
                invariant
                    i <= v@.len(),
                    target == v@.map_values(|p: PolicyInfo| spec_fmt_policy(p)),
                    items.deep_view() == target.take(i as int),
                decreases v@.len() - i,
            {
                let t = fmt_policy(&v[i]);
                let ghost old_dv = items.deep_view();
                items.push(t);
                proof {
                    assert(items.deep_view() =~= old_dv + seq![t@]);
                    assert(items.deep_view() =~= target.take(i + 1));
                }
                i += 1;
            }
            proof {
                assert(target.take(v@.len() as int) =~= target);
            }
            join_with(&items, "\n    ")
        },
        None => malformed_string(),
    }
}

// Signed certificate timestamps: the extension payload is a DER OCTET
// STRING holding a TLS-encoded list of records; the TLS framing is parsed
// in verified code here, and each record renders as a fixed five-field
// block with deep indentation for continuation lines.

/// One signed certificate timestamp record at the specification level:
/// the plain fields read out of the TLS encoding.
pub ghost struct SctView {
    /// The version byte (always 0: version 1).
    pub version: u8,
    /// The 32-byte log identifier.
    pub log_id: Seq<u8>,
    /// The timestamp, in milliseconds since the unix epoch.
    pub timestamp_ms: u64,
    /// The raw SCT extension bytes.
    pub extensions: Seq<u8>,
    /// The hash-algorithm byte of the signature.
    pub hash_algo: u8,
    /// The signature-algorithm byte.
    pub sig_algo: u8,
    /// The signature bytes.
    pub signature: Seq<u8>,
}

/// Whether the byte names a registered TLS hash algorithm.
pub open spec fn valid_hash_algo(h: u8) -> bool {
    h <= 6 || h == 8
}

/// The rendered name of a TLS hash algorithm.
pub open spec fn hash_algo_name(h: u8) -> Seq<char> {
    if h == 0 {
        "NONE"@
    } else if h == 1 {
        "MD5"@
    } else if h == 2 {
        "SHA1"@
    } else if h == 3 {
        "SHA224"@
    } else if h == 4 {
        "SHA256"@
    } else if h == 5 {
        "SHA384"@
    } else if h == 6 {
        "SHA512"@
    } else {
        "INTRINSIC"@
    }
}

/// Whether the byte names a registered TLS signature algorithm.
pub open spec fn valid_sig_algo(s: u8) -> bool {
    s <= 3 || s == 7 || s == 8
}

/// The rendered name of a TLS signature algorithm.
pub open spec fn sig_algo_name(s: u8) -> Seq<char> {
    if s == 0 {
        "anonymous"@
    } else if s == 1 {
        "rsa"@
    } else if s == 2 {
        "dsa"@
    } else if s == 3 {
        "ecdsa"@
    } else if s == 7 {
        "ed25519"@
    } else {
        "ed448"@
    }
}

/// The big-endian 16-bit value at the head of the bytes.
pub open spec fn be16(bs: Seq<u8>) -> int {
    bs[0] * 256 + bs[1]
}

/// Parses one TLS-encoded SCT record from the head of the bytes: a 16-bit
/// length prefix that must not claim more than the remaining bytes, the
/// version byte (which must be 0), the 32-byte log id, the 8-byte
/// timestamp (which must render as a calendar date), the length-prefixed
/// extension bytes, the two algorithm bytes (which must be registered
/// values), and the length-prefixed signature; yields the record and the
/// unconsumed remainder, or nothing when any piece is out of range.
pub open spec fn spec_parse_sct(bs: Seq<u8>) -> Option<(SctView, Seq<u8>)> {
    if bs.len() < 2 {
        None
    } else {
        let body = bs.skip(2);
        if be16(bs) > body.len() || body.len() < 43 {
            None
        } else {
            let version = body[0];
            let ts = be_uint(body.subrange(33, 41)) as u64;
            let elen = be16(body.skip(41));
            let after_ext_len = body.skip(43);
            if version != 0 || sct_time_text(ts) is None || elen > after_ext_len.len() {
                None
            } else {
                let sig_part = after_ext_len.skip(elen);
                if sig_part.len() < 4 {
                    None
                } else {
                    let hash = sig_part[0];
                    let sig = sig_part[1];
                    let slen = be16(sig_part.skip(2));
                    let sig_rest = sig_part.skip(4);
                    if !valid_hash_algo(hash) || !valid_sig_algo(sig) || slen > sig_rest.len() {
                        None
                    } else {
                        Some(
                            (
                                SctView {
                                    version,
                                    log_id: body.subrange(1, 33),
                                    timestamp_ms: ts,
                                    extensions: after_ext_len.take(elen),
                                    hash_algo: hash,
                                    sig_algo: sig,
                                    signature: sig_rest.take(slen),
                                },
                                sig_rest.skip(slen),
                            ),
                        )
                    }
                }
            }
        }
    }
}

/// Parses a sequence of TLS-encoded SCT records until the bytes run out.
pub open spec fn spec_parse_scts(bs: Seq<u8>) -> Option<Seq<SctView>>
    decreases bs.len(),
{
    if bs.len() == 0 {
        Some(Seq::<SctView>::empty())
    } else {
        match spec_parse_sct(bs) {
            None => None,
            Some(p) => if p.1.len() < bs.len() {
                match spec_parse_scts(p.1) {
                    None => None,
                    Some(tail) => Some(seq![p.0] + tail),
                }
            } else {
                None
            },
        }
    }
}

/// Parses the TLS-encoded SCT list: a 16-bit length that must equal the
/// remaining byte count exactly, then the records back to back.
pub open spec fn spec_parse_sct_list_content(bs: Seq<u8>) -> Option<Seq<SctView>> {
    if bs.len() < 2 {
        None
    } else if be16(bs) != bs.len() - 2 {
        None
    } else {
        spec_parse_scts(bs.skip(2))
    }
}

/// The rendered record holds exactly the plain fields of the parsed view,
/// each in its display form.
pub open spec fn sct_matches(info: SctInfo, v: SctView) -> bool {
    &&& info.version@ == "v1"@
    &&& info.log_id@ == v.log_id
    &&& sct_time_text(v.timestamp_ms) == Some(info.timestamp@)
    &&& info.extensions@ == v.extensions
    &&& info.sig_algo@ == sig_algo_name(v.sig_algo) + "-with-"@ + hash_algo_name(v.hash_algo)
    &&& info.signature@ == v.signature
}

fn hash_algo_str(h: u8) -> (r: &'static str)
    requires
        valid_hash_algo(h),
    ensures
        r@ == hash_algo_name(h),
{
    match h {
        0 => "NONE",
        1 => "MD5",
        2 => "SHA1",
        3 => "SHA224",
        4 => "SHA256",
        5 => "SHA384",
        6 => "SHA512",
        _ => "INTRINSIC",
    }
}

fn sig_algo_str(s: u8) -> (r: &'static str)
    requires
        valid_sig_algo(s),
    ensures
        r@ == sig_algo_name(s),
{
    match s {
        0 => "anonymous",
        1 => "rsa",
        2 => "dsa",
        3 => "ecdsa",
        7 => "ed25519",
        _ => "ed448",
    }
}

fn sig_algo_string(sig: u8, hash: u8) -> (r: String)
    requires
        valid_sig_algo(sig),
        valid_hash_algo(hash),
    ensures
        r@ == sig_algo_name(sig) + "-with-"@ + hash_algo_name(hash),
{
    let mut s = sig_algo_str(sig).to_owned();
    s.append("-with-");
    s.append(hash_algo_str(hash));
    proof {
        assert(s@ =~= sig_algo_name(sig) + "-with-"@ + hash_algo_name(hash));
    }
    s
}

fn parse_one_sct(bytes: &[u8], start: usize) -> (r: Option<(SctInfo, usize)>)
    requires
        start <= bytes@.len(),
    ensures
        match r {
            Some(p) => {
                &&& start + 2 <= p.1 <= bytes@.len()
                &&& spec_parse_sct(bytes@.skip(start as int)) matches Some(q) && sct_matches(
                    p.0,
                    q.0,
                ) && q.1 == bytes@.skip(p.1 as int)
            },
            None => spec_parse_sct(bytes@.skip(start as int)) is None,
        },
{
    let ghost bs = bytes@.skip(start as int);
    let n = bytes.len();
    if n - start < 2 {
        return None;
    }
    let len16: usize = (bytes[start] as usize) * 256 + (bytes[start + 1] as usize);
    let body_start = start + 2;
    let body_len = n - body_start;
    proof {
        let body = bs.skip(2);
        assert(body =~= bytes@.skip(body_start as int));
        assert(bs[0] == bytes@[start as int] && bs[1] == bytes@[start + 1]);
    }
    if len16 > body_len || body_len < 43 {
        return None;
    }
    let version = bytes[body_start];
    if version != 0 {
        return None;
    }
    let ts_slice = slice_subrange(bytes, body_start + 33, body_start + 41);
    let ms = read_be_uint(ts_slice);
    proof {
        let body = bs.skip(2);
        assert(body.subrange(33, 41) =~= bytes@.subrange(body_start + 33, body_start + 41));
        assert(ms == be_uint(body.subrange(33, 41)) as u64);
    }
    let ts_text = match format_sct_timestamp(ms) {
        Some(t) => t,
        None => {
            return None;
        },
    };
    let elen: usize = (bytes[body_start + 41] as usize) * 256 + (bytes[body_start + 42] as usize);
    let after = body_start + 43;
    proof {
        let body = bs.skip(2);
        assert(body.skip(41)[0] == bytes@[body_start + 41] && body.skip(41)[1] == bytes@[
            body_start + 42
        ]);
        assert(body.skip(43) =~= bytes@.skip(after as int));
    }
    if elen > n - after {
        return None;
    }
    let sig_at = after + elen;
    if n - sig_at < 4 {
        return None;
    }
    let hash = bytes[sig_at];
    let sig = bytes[sig_at + 1];
    proof {
        let after_ext_len = bs.skip(2).skip(43);
        assert(after_ext_len.skip(elen as int) =~= bytes@.skip(sig_at as int));
    }
    if !(hash <= 6 || hash == 8) {
        return None;
    }
    if !(sig <= 3 || sig == 7 || sig == 8) {
        return None;
    }
    let slen: usize = (bytes[sig_at + 2] as usize) * 256 + (bytes[sig_at + 3] as usize);
    let sig_data = sig_at + 4;
    proof {
        let sig_part = bytes@.skip(sig_at as int);
        assert(sig_part.skip(2)[0] == bytes@[sig_at + 2] && sig_part.skip(2)[1] == bytes@[
            sig_at + 3
        ]);
        assert(sig_part.skip(4) =~= bytes@.skip(sig_data as int));
    }
    if slen > n - sig_data {
        return None;
    }
    let end = sig_data + slen;
    let info = SctInfo {
        version: "v1".to_owned(),
        log_id: slice_to_vec(slice_subrange(bytes, body_start + 1, body_start + 33)),
        timestamp: ts_text,
        extensions: slice_to_vec(slice_subrange(bytes, after, sig_at)),
        sig_algo: sig_algo_string(sig, hash),
        signature: slice_to_vec(slice_subrange(bytes, sig_data, end)),
    };
    proof {
        let body = bs.skip(2);
        let after_ext_len = body.skip(43);
        let sig_part = after_ext_len.skip(elen as int);
        let sig_rest = sig_part.skip(4);
        assert(body.subrange(1, 33) =~= bytes@.subrange(body_start + 1, body_start + 33));
        assert(after_ext_len.take(elen as int) =~= bytes@.subrange(after as int, sig_at as int));
        assert(sig_rest.take(slen as int) =~= bytes@.subrange(sig_data as int, end as int));
        assert(sig_rest.skip(slen as int) =~= bytes@.skip(end as int));
        assert(spec_parse_sct(bs) matches Some(q) && sct_matches(info, q.0) && q.1 == bytes@.skip(
            end as int,
        ));
    }
    Some((info, end))
}

fn parse_tls_sct_content(content: &[u8]) -> (r: Option<Vec<SctInfo>>)
    ensures
        match r {
            Some(v) => spec_parse_sct_list_content(content@) matches Some(views) && v@.len()
                == views.len() && forall|i: int|
                0 <= i < views.len() ==> #[trigger] sct_matches(v@[i], views[i]),
            None => spec_parse_sct_list_content(content@) is None,
        },
{
    let n = content.len();
    if n < 2 {
        return None;
    }
    let total: usize = (content[0] as usize) * 256 + (content[1] as usize);
    if total != n - 2 {
        return None;
    }
    let mut items: Vec<SctInfo> = Vec::new();
    let ghost mut views: Seq<SctView> = Seq::<SctView>::empty();
    let mut pos: usize = 2;
    proof {
        assert(content@.skip(2).len() == 0 ==> spec_parse_scts(content@.skip(2)) == Some(
            Seq::<SctView>::empty(),
        ));
    }
    while pos < n
        invariant
            2 <= pos <= n,
            n == content@.len(),
            items@.len() == views.len(),
            forall|i: int| 0 <= i < views.len() ==> #[trigger] sct_matches(items@[i], views[i]),
            spec_parse_scts(content@.skip(2)) == (match spec_parse_scts(
                content@.skip(pos as int),
            ) {
                Some(rest) => Some(views + rest),
                None => None::<Seq<SctView>>,
            }),
        decreases n - pos,
    {
        match parse_one_sct(content, pos) {
            None => {
                proof {
                    assert(content@.skip(pos as int).len() > 0);
                    assert(spec_parse_scts(content@.skip(pos as int)) is None);
                }
                return None;
            },
            Some((info, end)) => {
                let ghost q = spec_parse_sct(content@.skip(pos as int)).unwrap();
                proof {
                    let bs = content@.skip(pos as int);
                    assert(q.1 == content@.skip(end as int));
                    assert(q.1.len() < bs.len());
                    assert(spec_parse_scts(bs) == (match spec_parse_scts(q.1) {
                        Some(tail) => Some(seq![q.0] + tail),
                        None => None::<Seq<SctView>>,
                    }));
                    if spec_parse_scts(content@.skip(end as int)) is Some {
                        let tail = spec_parse_scts(content@.skip(end as int)).unwrap();
                        assert(views + (seq![q.0] + tail) =~= (views + seq![q.0]) + tail);
                    }
                }
                items.push(info);
                proof {
                    views = views + seq![q.0];
                }
                pos = end;
            },
        }
    }
    proof {
        assert(content@.skip(n as int) =~= Seq::<u8>::empty());
        assert(spec_parse_scts(content@.skip(n as int)) == Some(Seq::<SctView>::empty()));
        assert(views + Seq::<SctView>::empty() =~= views);
        assert(spec_parse_sct_list_content(content@) == Some(views));
    }
    Some(items)
}

/// The rendered text of one signed certificate timestamp record, from its
/// display fields.
pub open spec fn spec_fmt_sct(s: SctInfo) -> Seq<char> {
    "Signed Certificate Timestamp:\n      Version   : "@ + s.version@
        + "\n      Log ID    : "@ + join_strs(hex_lines(s.log_id@, 16), "\n                  "@)
        + "\n      Timestamp : "@ + s.timestamp@ + "\n      Extensions: "@ + (
    if s.extensions@.len() == 0 {
        "none"@
    } else {
        join_strs(hex_lines(s.extensions@, 16), "\n                  "@)
    }) + "\n      Signature : "@ + s.sig_algo@ + "\n                  "@ + join_strs(
        hex_lines(s.signature@, 16),
        "\n                  "@,
    )
}

/// The rendered text of one signed certificate timestamp record, from the
/// parsed view.
pub open spec fn spec_fmt_sct_view(v: SctView) -> Seq<char> {
    "Signed Certificate Timestamp:\n      Version   : "@ + "v1"@ + "\n      Log ID    : "@
        + join_strs(hex_lines(v.log_id, 16), "\n                  "@) + "\n      Timestamp : "@
        + (match sct_time_text(v.timestamp_ms) {
        Some(t) => t,
        None => Seq::<char>::empty(),
    }) + "\n      Extensions: "@ + (if v.extensions.len() == 0 {
        "none"@
    } else {
        join_strs(hex_lines(v.extensions, 16), "\n                  "@)
    }) + "\n      Signature : "@ + sig_algo_name(v.sig_algo) + "-with-"@ + hash_algo_name(
        v.hash_algo,
    ) + "\n                  "@ + join_strs(hex_lines(v.signature, 16), "\n                  "@)
}

/// A record whose display fields match a parsed view renders the same
/// text either way.
pub proof fn lemma_sct_render_agrees(info: SctInfo, v: SctView)
    requires
        sct_matches(info, v),
    ensures
        spec_fmt_sct(info) == spec_fmt_sct_view(v),
{
    assert(spec_fmt_sct(info) =~= spec_fmt_sct_view(v));
}

/// The rendered signed-certificate-timestamp list extension text: the
/// records of the TLS-encoded list inside the payload's OCTET STRING,
/// newline-joined with indentation.
pub open spec fn spec_fmt_sct_ext(der: Seq<u8>) -> Seq<char> {
    match sct_payload_parse(der) {
        Some(content) => match spec_parse_sct_list_content(content@) {
            Some(views) => join_strs(
                views.map_values(|v: SctView| spec_fmt_sct_view(v)),
                "\n    "@,
            ),
            None => malformed_text(),
        },
        None => malformed_text(),
    }
}

/// Renders one signed certificate timestamp record as its five-field block.
pub fn fmt_sct(s: &SctInfo) -> (r: String)
    ensures
        r@ == spec_fmt_sct(*s),
{
    let mut t = "Signed Certificate Timestamp:\n      Version   : ".to_owned();
    t.append(s.version.as_str());
    t.append("\n      Log ID    : ");
    let log = openssl_hex_joined(s.log_id.as_slice(), 16, "\n                  ");
    t.append(log.as_str());
    t.append("\n      Timestamp : ");
    t.append(s.timestamp.as_str());
    t.append("\n      Extensions: ");
    if s.extensions.len() == 0 {
        t.append("none");
    } else {
        let ext = openssl_hex_joined(s.extensions.as_slice(), 16, "\n                  ");
        t.append(ext.as_str());
    }
    t.append("\n      Signature : ");
    t.append(s.sig_algo.as_str());
    t.append("\n                  ");
    let sig = openssl_hex_joined(s.signature.as_slice(), 16, "\n                  ");
    t.append(sig.as_str());
    proof {
        assert(t@ =~= spec_fmt_sct(*s));
    }
    t
}

/// Renders a signed-certificate-timestamp list payload.
pub fn fmt_sct_list(bytes: &[u8]) -> (r: String)
    ensures
        r@ == spec_fmt_sct_ext(bytes@),
{
    let content = match parse_sct_payload(bytes) {
        Some(c) => c,
        None => {
            return malformed_string();
        },
    };
    let v = match parse_tls_sct_content(content.as_slice()) {
        Some(v) => v,
        None => {
            return malformed_string();
        },
    };
    let ghost views = spec_parse_sct_list_content(content@).unwrap();
    let ghost target = views.map_values(|w: SctView| spec_fmt_sct_view(w));
    let mut items: Vec<String> = Vec::new();
    let mut i: usize = 0;
    proof {
        assert(items.deep_view() =~= target.take(0));
    }
    while i < v.len()
        invariant
            i <= v@.len(),
            v@.len() == views.len(),
            forall|k: int| 0 <= k < views.len() ==> #[trigger] sct_matches(v@[k], views[k]),
            target == views.map_values(|w: SctView| spec_fmt_sct_view(w)),
            items.deep_view() == target.take(i as int),
        decreases v@.len() - i,
    {
        let t = fmt_sct(&v[i]);
        let ghost old_dv = items.deep_view();
        items.push(t);
        proof {
            lemma_sct_render_agrees(v@[i as int], views[i as int]);
            assert(items.deep_view() =~= old_dv + seq![t@]);
            assert(items.deep_view() =~= target.take(i + 1));
        }
        i += 1;
    }
    proof {
        assert(target.take(views.len() as int) =~= target);
    }
    join_with(&items, "\n    ")
}

// Dispatch: route an extension record to its decoder by identifier; every
// identifier outside the table falls back to a raw hex dump at 80 bytes
// per line, so interpretation is total.

/// Whether the identifier is one of the extension types with a dedicated
/// decoder.
pub open spec fn known_extension_oid(oid: Seq<char>) -> bool {
    ||| oid == "2.5.29.14"@
    ||| oid == "2.5.29.17"@
    ||| oid == "2.5.29.32"@
    ||| oid == "2.5.29.19"@
    ||| oid == "1.3.6.1.5.5.7.1.1"@
    ||| oid == "2.5.29.15"@
    ||| oid == "2.5.29.37"@
    ||| oid == "2.5.29.35"@
    ||| oid == "2.5.29.31"@
    ||| oid == "1.3.6.1.4.1.11129.2.4.2"@
}

/// The interpreted text of one extension record: the matching decoder's
/// rendering for a known identifier, the raw 80-byte-per-line hex dump for
/// any other.
pub open spec fn spec_interpret_val(ext: ExtensionRec) -> Seq<char> {
    let oid = ext.oid@;
    let der = ext.value@;
    if oid == "2.5.29.14"@ {
        spec_fmt_ski_ext(der)
    } else if oid == "2.5.29.17"@ {
        spec_fmt_san_ext(der)
    } else if oid == "2.5.29.32"@ {
        spec_fmt_policies_ext(der)
    } else if oid == "2.5.29.19"@ {
        spec_fmt_basic_constraints_ext(der)
    } else if oid == "1.3.6.1.5.5.7.1.1"@ {
        spec_fmt_aia_ext(der)
    } else if oid == "2.5.29.15"@ {
        spec_fmt_key_usage_ext(der)
    } else if oid == "2.5.29.37"@ {
        spec_fmt_eku_ext(der)
    } else if oid == "2.5.29.35"@ {
        spec_fmt_aki_ext(der)
    } else if oid == "2.5.29.31"@ {
        spec_fmt_crldp_ext(der)
    } else if oid == "1.3.6.1.4.1.11129.2.4.2"@ {
        spec_fmt_sct_ext(der)
    } else {
        join_strs(hex_lines(der, 80), "\n    "@)
    }
}

/// Interprets one extension record, selecting the decoder purely by its
/// identifier; unknown identifiers always yield the raw hex dump, never an
/// error.
pub fn interpret_val(ext: &ExtensionRec) -> (r: String)
    ensures
        r@ == spec_interpret_val(*ext),
{
    if str_eq(&ext.oid, "2.5.29.14") {
        fmt_subject_key_identifier(ext.value.as_slice())
    } else if str_eq(&ext.oid, "2.5.29.17") {
        fmt_subject_alt_name(ext.value.as_slice())
    } else if str_eq(&ext.oid, "2.5.29.32") {
        fmt_certificate_policies(ext.value.as_slice())
    } else if str_eq(&ext.oid, "2.5.29.19") {
        fmt_basic_constraints(ext.value.as_slice())
    } else if str_eq(&ext.oid, "1.3.6.1.5.5.7.1.1") {
        fmt_authority_info_access_syntax(ext.value.as_slice())
    } else if str_eq(&ext.oid, "2.5.29.15") {
        fmt_key_usage(ext.value.as_slice())
    } else if str_eq(&ext.oid, "2.5.29.37") {
        fmt_extended_key_usage(ext.value.as_slice())
    } else if str_eq(&ext.oid, "2.5.29.35") {
        fmt_authority_key_identifier(ext.value.as_slice())
    } else if str_eq(&ext.oid, "2.5.29.31") {
        fmt_crl_distribution_points(ext.value.as_slice())
    } else if str_eq(&ext.oid, "1.3.6.1.4.1.11129.2.4.2") {
        fmt_sct_list(ext.value.as_slice())
    } else {
        openssl_hex_joined(ext.value.as_slice(), 80, "\n    ")
    }
}

/// An extension whose identifier is not in the dispatch table renders as
/// exactly the 80-byte-per-line hex dump of its raw payload.
pub proof fn lemma_unknown_extension_hex_dump(ext: ExtensionRec)
    requires
        !known_extension_oid(ext.oid@),
    ensures
        spec_interpret_val(ext) == join_strs(hex_lines(ext.value@, 80), "\n    "@),
{
}

// The positional separator rule, stated and proved for both record shapes
// that carry it.

/// Whether a rendered piece begins with the newline spacer.
pub open spec fn leading_newline(s: Seq<char>) -> bool {
    s.len() > 0 && s[0] == '\n'
}

/// How many of the three given flags are set.
pub open spec fn count_present(a: bool, b: bool, c: bool) -> int {
    (if a {
        1int
    } else {
        0int
    }) + (if b {
        1int
    } else {
        0int
    }) + (if c {
        1int
    } else {
        0int
    })
}

/// How many of the three rendered pieces begin with the newline spacer.
pub open spec fn count_leading_newlines(p1: Seq<char>, p2: Seq<char>, p3: Seq<char>) -> int {
    count_present(leading_newline(p1), leading_newline(p2), leading_newline(p3))
}

/// Positional separator rule for Authority Key Identifier: with no field
/// present the rendering is empty; with `n >= 1` fields present exactly
/// `n - 1` pieces begin with the newline spacer, and the first present
/// piece never does.
pub proof fn lemma_aki_separator_rule(a: AkiInfo)
    ensures
        ({
            let n = count_present(a.key_id is Some, a.issuer is Some, a.serial is Some);
            let p1 = spec_fmt_aki_key_id(a);
            let p2 = spec_fmt_aki_issuer(a);
            let p3 = spec_fmt_aki_serial(a);
            &&& (n == 0 ==> spec_fmt_aki(a).len() == 0)
            &&& (n >= 1 ==> count_leading_newlines(p1, p2, p3) == n - 1)
            &&& (a.key_id is Some ==> !leading_newline(p1))
            &&& (a.key_id is None && a.issuer is Some ==> !leading_newline(p2))
            &&& (a.key_id is None && a.issuer is None && a.serial is Some ==> !leading_newline(
                p3,
            ))
        }),
{
    reveal_strlit("KeyId: ");
    reveal_strlit("\n    ");
    reveal_strlit("    ");
    reveal_strlit("Issuer: ");
    reveal_strlit("Serial: ");
}

/// Positional separator rule for a CRL distribution point, identical in
/// form to the Authority Key Identifier rule.
pub proof fn lemma_dp_separator_rule(dp: DistPointInfo)
    ensures
        ({
            let n = count_present(dp.name is Some, dp.crl_issuer is Some, dp.reasons is Some);
            let p1 = spec_fmt_dp_name(dp);
            let p2 = spec_fmt_dp_crl_issuer(dp);
            let p3 = spec_fmt_dp_reasons(dp);
            &&& (n == 0 ==> spec_fmt_dp(dp).len() == 0)
            &&& (n >= 1 ==> count_leading_newlines(p1, p2, p3) == n - 1)
            &&& (dp.name is Some ==> !leading_newline(p1))
            &&& (dp.name is None && dp.crl_issuer is Some ==> !leading_newline(p2))
            &&& (dp.name is None && dp.crl_issuer is None && dp.reasons is Some
                ==> !leading_newline(p3))
        }),
{
    reveal_strlit("FullName:\n      ");
    reveal_strlit("RelativeName:\n      ");
    reveal_strlit("\n    ");
    reveal_strlit("    ");
    reveal_strlit("Issuer: ");
    reveal_strlit("Reasons: ");
}

} // verus!
