//! The certificate report renderer: assembles one certificate's subject,
//! issuer, validity window, public key, extensions and signature into a
//! complete text report, in a fixed order. RSA public keys are decoded by
//! the `pkcs1` crate behind a trusted wrapper; everything else, including
//! the whole report text, is verified.

use vstd::prelude::*;
use der::Decode;
use crate::cert::CertInfo;
use crate::extn::{spec_interpret_val, interpret_val, ExtensionRec};
use crate::hexfmt::{hex_lines, openssl_hex_joined};
use crate::oids::{oid_desc_or_raw, spec_oid_desc_or_raw, str_eq};
use crate::strutil::{
    be_uint, dec_str, hex_str, join_strs, read_be_uint, u128_to_dec, u128_to_hex, u64_to_dec,
};

verus! {

/// The relative phrase for a timestamp against the current time:
/// "N days ago" for a past timestamp, "in N days" otherwise.
pub open spec fn spec_duration_phrase(now: u64, ts: u64) -> Seq<char> {
    if now > ts {
        dec_str((((now - ts) / 86400) as nat)) + " days ago"@
    } else {
        "in "@ + dec_str((((ts - now) / 86400) as nat)) + " days"@
    }
}

/// Renders the relative phrase for a timestamp against the current time.
pub fn duration_since_now_fmt(now_secs: u64, ts_secs: u64) -> (r: String)
    ensures
        r@ == spec_duration_phrase(now_secs, ts_secs),
{
    if now_secs > ts_secs {
        let mut s = u64_to_dec((now_secs - ts_secs) / 86400);
        s.append(" days ago");
        s
    } else {
        let mut s = "in ".to_owned();
        let d = u64_to_dec((ts_secs - now_secs) / 86400);
        s.append(d.as_str());
        s.append(" days");
        proof {
            assert(s@ =~= spec_duration_phrase(now_secs, ts_secs));
        }
        s
    }
}

/// What decoding a PKCS#1 RSA public key yields: its modulus bytes and its
/// exponent bytes.
pub uninterp spec fn rsa_key_parse(der: Seq<u8>) -> Option<(Vec<u8>, Vec<u8>)>;

/// Relies on `RsaPublicKey::from_der` of `pkcs1`: DER decoding is a
/// function of the key bytes alone.
#[verifier::external_body]
fn parse_rsa_public_key(bytes: &[u8]) -> (r: Option<(Vec<u8>, Vec<u8>)>)
    ensures
        r == rsa_key_parse(bytes@),
{
    let k = pkcs1::RsaPublicKey::from_der(bytes).ok()?;
    Some((k.modulus.as_bytes().to_vec(), k.public_exponent.as_bytes().to_vec()))
}

/// The banner, names, version, serial number, signature algorithm and
/// issuer unique id lines of the report.
pub open spec fn spec_header_section(c: &CertInfo) -> Seq<char> {
    "Certificate\n===========\n"@ + "Subject: "@ + c.subject@ + "\n"@ + "Issuer: "@ + c.issuer@
        + "\n"@ + "Version: "@ + c.version@ + "\n"@ + "Serial Number:\n  "@ + join_strs(
        hex_lines(c.serial@, 20),
        "\n  "@,
    ) + "\n"@ + "Signature Algorithm: "@ + spec_oid_desc_or_raw(c.sig_alg_oid@) + "\n"@
        + "Issuer Serial Number:\n  "@ + (match c.issuer_unique_id {
        Some(b) => join_strs(hex_lines(b@, 20), "\n  "@),
        None => "<unknown>"@,
    }) + "\n"@
}

/// The validity window lines of the report.
pub open spec fn spec_validity_section(c: &CertInfo, now: u64) -> Seq<char> {
    "Validity:\n"@ + "  Not Before: "@ + c.not_before_text@ + " ("@ + spec_duration_phrase(
        now,
        c.not_before_secs,
    ) + ")\n"@ + "  Not After: "@ + c.not_after_text@ + " ("@ + spec_duration_phrase(
        now,
        c.not_after_secs,
    ) + ")\n"@
}

/// The exponent line of an RSA key: decimal and hex for an exponent of one
/// to eight bytes, a diagnostic form for anything longer.
pub open spec fn spec_rsa_exponent_line(e: Vec<u8>) -> Seq<char> {
    "    Exponent: "@ + (if 1 <= e@.len() <= 8 {
        dec_str(be_uint(e@)) + " (0x"@ + hex_str(be_uint(e@)) + ")"@
    } else {
        "<"@ + dec_str(e@.len() as nat) + " bytes>"@
    }) + "\n"@
}

/// The modulus lines of an RSA key: the bit count and a 32-byte-per-line
/// hex dump.
pub open spec fn spec_rsa_modulus_lines(m: Vec<u8>) -> Seq<char> {
    "    Modulus("@ + dec_str((m@.len() * 8) as nat) + " bit):\n      "@ + join_strs(
        hex_lines(m@, 32),
        "\n      "@,
    ) + "\n"@
}

/// The subject-public-key-info section, branching on the key algorithm:
/// elliptic-curve keys render their curve label and public point,
/// RSA keys their decoded exponent and modulus, anything else only its
/// algorithm label.
pub open spec fn spec_spki_section(c: &CertInfo) -> Seq<char> {
    "Subject Public Key Info:\n"@ + (if c.spki_alg_oid@ == "1.2.840.10045.2.1"@ {
        "  Algorithm: "@ + spec_oid_desc_or_raw(c.spki_alg_oid@) + " ("@ + (
        match c.spki_params_oid {
            Some(p) => spec_oid_desc_or_raw(p@),
            None => "<none>"@,
        }) + ")\n"@ + "  Public Key:\n    "@ + (match c.spki_key {
            Some(k) => join_strs(hex_lines(k@, 15), "\n    "@),
            None => "<none>"@,
        }) + "\n"@
    } else if c.spki_alg_oid@ == "1.2.840.113549.1.1.1"@ {
        "  Algorithm: "@ + spec_oid_desc_or_raw(c.spki_alg_oid@) + "\n  RSA:\n"@ + (
        match c.spki_key {
            Some(k) => match rsa_key_parse(k@) {
                Some(me) => spec_rsa_exponent_line(me.1) + spec_rsa_modulus_lines(me.0),
                None => "    <malformed public key>\n"@,
            },
            None => "    <none>\n"@,
        })
    } else {
        "  Algorithm: "@ + spec_oid_desc_or_raw(c.spki_alg_oid@) + "\n"@
    })
}

/// The report block of one extension: its resolved identifier, a
/// criticality marker, and its interpreted value.
pub open spec fn spec_ext_entry(e: ExtensionRec) -> Seq<char> {
    "  ID: "@ + spec_oid_desc_or_raw(e.oid@) + (if e.critical {
        " (critical)"@
    } else {
        Seq::<char>::empty()
    }) + "\n  Extension value:\n    "@ + spec_interpret_val(e) + "\n\n"@
}

/// The concatenated report blocks of a list of extensions, in order.
pub open spec fn spec_ext_entries(es: Seq<ExtensionRec>) -> Seq<char>
    decreases es.len(),
{
    if es.len() == 0 {
        Seq::<char>::empty()
    } else {
        spec_ext_entries(es.drop_last()) + spec_ext_entry(es.last())
    }
}

/// The extensions section of the report; absent when the certificate has
/// no extensions at all.
pub open spec fn spec_extensions_section(c: &CertInfo) -> Seq<char> {
    match c.extensions {
        Some(es) => "Extensions:\n"@ + spec_ext_entries(es@),
        None => Seq::<char>::empty(),
    }
}

/// The outer signature section of the report.
pub open spec fn spec_signature_section(c: &CertInfo) -> Seq<char> {
    "Signature:\n  "@ + (match c.signature {
        Some(b) => join_strs(hex_lines(b@, 20), "\n  "@),
        None => "<none>"@,
    }) + "\n"@
}

/// The complete report text of one certificate.
pub open spec fn spec_cert_report(c: &CertInfo, now: u64) -> Seq<char> {
    spec_header_section(c) + spec_validity_section(c, now) + spec_spki_section(c)
        + spec_extensions_section(c) + spec_signature_section(c)
}

fn header_section(c: &CertInfo) -> (r: String)
    ensures
        r@ == spec_header_section(c),
{
    let mut s = "Certificate\n===========\n".to_owned();
    s.append("Subject: ");
    s.append(c.subject.as_str());
    s.append("\n");
    s.append("Issuer: ");
    s.append(c.issuer.as_str());
    s.append("\n");
    s.append("Version: ");
    s.append(c.version.as_str());
    s.append("\n");
    s.append("Serial Number:\n  ");
    let serial = openssl_hex_joined(c.serial.as_slice(), 20, "\n  ");
    s.append(serial.as_str());
    s.append("\n");
    s.append("Signature Algorithm: ");
    let alg = oid_desc_or_raw(&c.sig_alg_oid);
    s.append(alg.as_str());
    s.append("\n");
    s.append("Issuer Serial Number:\n  ");
    match &c.issuer_unique_id {
        Some(b) => {
            let d = openssl_hex_joined(b.as_slice(), 20, "\n  ");
            s.append(d.as_str());
        },
        None => {
            s.append("<unknown>");
        },
    }
    s.append("\n");
    proof {
        assert(s@ =~= spec_header_section(c));
    }
    s
}

fn validity_section(c: &CertInfo, now: u64) -> (r: String)
    ensures
        r@ == spec_validity_section(c, now),
{
    let mut s = "Validity:\n".to_owned();
    s.append("  Not Before: ");
    s.append(c.not_before_text.as_str());
    s.append(" (");
    let p1 = duration_since_now_fmt(now, c.not_before_secs);
    s.append(p1.as_str());
    s.append(")\n");
    s.append("  Not After: ");
    s.append(c.not_after_text.as_str());
    s.append(" (");
    let p2 = duration_since_now_fmt(now, c.not_after_secs);
    s.append(p2.as_str());
    s.append(")\n");
    proof {
        assert(s@ =~= spec_validity_section(c, now));
    }
    s
}

fn rsa_key_lines(key: &Vec<u8>) -> (r: String)
    ensures
        r@ == (match rsa_key_parse(key@) {
            Some(me) => spec_rsa_exponent_line(me.1) + spec_rsa_modulus_lines(me.0),
            None => "    <malformed public key>\n"@,
        }),
{
    match parse_rsa_public_key(key.as_slice()) {
        Some((modulus, exponent)) => {
            let mut s = "    Exponent: ".to_owned();
            if 1 <= exponent.len() && exponent.len() <= 8 {
                let v = read_be_uint(exponent.as_slice());
                let d = u64_to_dec(v);
                s.append(d.as_str());
                s.append(" (0x");
                let h = u128_to_hex(v as u128);
                s.append(h.as_str());
                s.append(")");
            } else {
                s.append("<");
                let d = u64_to_dec(exponent.len() as u64);
                s.append(d.as_str());
                s.append(" bytes>");
            }
            s.append("\n");
            proof {
                assert(s@ =~= spec_rsa_exponent_line(exponent));
            }
            s.append("    Modulus(");
            let bits = u128_to_dec((modulus.len() as u128) * 8);
            s.append(bits.as_str());
            s.append(" bit):\n      ");
            let dump = openssl_hex_joined(modulus.as_slice(), 32, "\n      ");
            s.append(dump.as_str());
            s.append("\n");
            proof {
                assert(s@ =~= spec_rsa_exponent_line(exponent) + spec_rsa_modulus_lines(modulus));
            }
            s
        },
        None => "    <malformed public key>\n".to_owned(),
    }
}

fn spki_section(c: &CertInfo) -> (r: String)
    ensures
        r@ == spec_spki_section(c),
{
    let mut s = "Subject Public Key Info:\n".to_owned();
    if str_eq(&c.spki_alg_oid, "1.2.840.10045.2.1") {
        s.append("  Algorithm: ");
        let alg = oid_desc_or_raw(&c.spki_alg_oid);
        s.append(alg.as_str());
        s.append(" (");
        match &c.spki_params_oid {
            Some(p) => {
                let sub = oid_desc_or_raw(p);
                s.append(sub.as_str());
            },
            None => {
                s.append("<none>");
            },
        }
        s.append(")\n");
        s.append("  Public Key:\n    ");
        match &c.spki_key {
            Some(k) => {
                let dump = openssl_hex_joined(k.as_slice(), 15, "\n    ");
                s.append(dump.as_str());
            },
            None => {
                s.append("<none>");
            },
        }
        s.append("\n");
        proof {
            assert(s@ =~= spec_spki_section(c));
        }
        s
    } else if str_eq(&c.spki_alg_oid, "1.2.840.113549.1.1.1") {
        s.append("  Algorithm: ");
        let alg = oid_desc_or_raw(&c.spki_alg_oid);
        s.append(alg.as_str());
        s.append("\n  RSA:\n");
        match &c.spki_key {
            Some(k) => {
                let lines = rsa_key_lines(k);
                s.append(lines.as_str());
            },
            None => {
                s.append("    <none>\n");
            },
        }
        proof {
            assert(s@ =~= spec_spki_section(c));
        }
        s
    } else {
        s.append("  Algorithm: ");
        let alg = oid_desc_or_raw(&c.spki_alg_oid);
        s.append(alg.as_str());
        s.append("\n");
        proof {
            assert(s@ =~= spec_spki_section(c));
        }
        s
    }
}

fn ext_entry(e: &ExtensionRec) -> (r: String)
    ensures
        r@ == spec_ext_entry(*e),
{
    let mut s = "  ID: ".to_owned();
    let id = oid_desc_or_raw(&e.oid);
    s.append(id.as_str());
    if e.critical {
        s.append(" (critical)");
    }
    s.append("\n  Extension value:\n    ");
    let val = interpret_val(e);
    s.append(val.as_str());
    s.append("\n\n");
    proof {
        assert(s@ =~= spec_ext_entry(*e));
    }
    s
}

fn extensions_section(c: &CertInfo) -> (r: String)
    ensures
        r@ == spec_extensions_section(c),
{
    match &c.extensions {
        Some(es) => {
            let mut s = "Extensions:\n".to_owned();
            let mut i: usize = 0;
            proof {
                assert(es@.take(0) =~= Seq::<ExtensionRec>::empty());
            }
            while i < es.len()
                invariant
                    i <= es@.len(),
                    s@ == "Extensions:\n"@ + spec_ext_entries(es@.take(i as int)),
                decreases es@.len() - i,
            {
                let entry = ext_entry(&es[i]);
                s.append(entry.as_str());
                proof {
                    let cur = es@.take(i + 1);
                    assert(cur.drop_last() =~= es@.take(i as int));
                    assert(cur.last() == es@[i as int]);
                }
                i += 1;
            }
            proof {
                assert(es@.take(es@.len() as int) =~= es@);
            }
            s
        },
        None => String::new(),
    }
}

fn signature_section(c: &CertInfo) -> (r: String)
    ensures
        r@ == spec_signature_section(c),
{
    let mut s = "Signature:\n  ".to_owned();
    match &c.signature {
        Some(b) => {
            let dump = openssl_hex_joined(b.as_slice(), 20, "\n  ");
            s.append(dump.as_str());
        },
        None => {
            s.append("<none>");
        },
    }
    s.append("\n");
    proof {
        assert(s@ =~= spec_signature_section(c));
    }
    s
}

/// Renders one certificate's complete report: banner, subject, issuer,
/// version, serial number, signature algorithm, issuer unique id, validity
/// window with relative phrases against `now_secs`, public key info, every
/// extension, and the outer signature.
///
/// The caller must have checked that the signature algorithm carries no
/// parameters beyond an ASN.1 NULL; this tool only targets such algorithms.
pub fn write_cert_info(c: &CertInfo, now_secs: u64) -> (r: String)
    requires
        c.sig_params_ok,
    ensures
        r@ == spec_cert_report(c, now_secs),
{
    let mut s = header_section(c);
    let v = validity_section(c, now_secs);
    s.append(v.as_str());
    let k = spki_section(c);
    s.append(k.as_str());
    let e = extensions_section(c);
    s.append(e.as_str());
    let g = signature_section(c);
    s.append(g.as_str());
    s
}

} // verus!
