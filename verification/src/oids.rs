//! Resolution of dotted-numeric object identifiers to short human-readable
//! labels: a built-in table of commonly seen identifiers is consulted first,
//! then the identifier database of the `const-oid` crate, and finally the
//! identifier's own dotted-numeric form is returned unchanged.

use vstd::prelude::*;

verus! {

/// Compares a string against a literal by character content.
pub fn str_eq(a: &String, b: &str) -> (r: bool)
    ensures
        r == (a@ == b@),
{
    let bs: String = b.to_owned();
    a.eq(&bs)
}

/// The built-in label, if any, for a dotted-numeric object identifier.
pub open spec fn builtin_oid_desc(oid: Seq<char>) -> Option<Seq<char>> {
    if oid == "2.5.29.14"@ {
        Some("Subject Key Identifier"@)
    } else if oid == "2.5.29.35"@ {
        Some("Authority Key Identifier"@)
    } else if oid == "2.5.29.15"@ {
        Some("Key Usage"@)
    } else if oid == "2.5.29.37"@ {
        Some("Extended Key Usage"@)
    } else if oid == "2.5.29.17"@ {
        Some("Subject Alternate Name"@)
    } else if oid == "1.3.6.1.5.5.7.3.2"@ {
        Some("Client Authentication"@)
    } else if oid == "1.3.6.1.5.5.7.3.1"@ {
        Some("Server Authentication"@)
    } else if oid == "2.5.29.19"@ {
        Some("Basic Constraints"@)
    } else if oid == "1.3.6.1.5.5.7.1.1"@ {
        Some("Authority Information Access"@)
    } else if oid == "2.5.29.31"@ {
        Some("CRL Distribution Points"@)
    } else if oid == "2.5.29.32"@ {
        Some("Certificate Policies"@)
    } else if oid == "1.3.6.1.5.5.7.48.1"@ {
        Some("OCSP"@)
    } else if oid == "1.3.6.1.5.5.7.48.2"@ {
        Some("CA Issuers"@)
    } else if oid == "1.3.6.1.4.1.11129.2.4.2"@ {
        Some("CT Precertificate SCTs"@)
    } else if oid == "2.23.140.1.1"@ {
        Some("Extended Validation (EV) Guidelines"@)
    } else if oid == "2.23.140.1.2.1"@ {
        Some("Domain Validated"@)
    } else if oid == "2.23.140.1.2.2"@ {
        Some("Organization Validated"@)
    } else if oid == "2.23.140.1.2.3"@ {
        Some("Individual Validated"@)
    } else if oid == "2.16.840.1.114412.2.1"@ {
        Some("DigiCert Extended Validation (EV) Guidelines"@)
    } else {
        None
    }
}

/// The built-in label for a commonly used object identifier, if the table
/// knows the identifier.
pub fn get_oid_desc(oid: &String) -> (r: Option<&'static str>)
    ensures
        match r {
            Some(d) => builtin_oid_desc(oid@) == Some(d@),
            None => builtin_oid_desc(oid@) is None,
        },
{
    if str_eq(oid, "2.5.29.14") {
        Some("Subject Key Identifier")
    } else if str_eq(oid, "2.5.29.35") {
        Some("Authority Key Identifier")
    } else if str_eq(oid, "2.5.29.15") {
        Some("Key Usage")
    } else if str_eq(oid, "2.5.29.37") {
        Some("Extended Key Usage")
    } else if str_eq(oid, "2.5.29.17") {
        Some("Subject Alternate Name")
    } else if str_eq(oid, "1.3.6.1.5.5.7.3.2") {
        Some("Client Authentication")
    } else if str_eq(oid, "1.3.6.1.5.5.7.3.1") {
        Some("Server Authentication")
    } else if str_eq(oid, "2.5.29.19") {
        Some("Basic Constraints")
    } else if str_eq(oid, "1.3.6.1.5.5.7.1.1") {
        Some("Authority Information Access")
    } else if str_eq(oid, "2.5.29.31") {
        Some("CRL Distribution Points")
    } else if str_eq(oid, "2.5.29.32") {
        Some("Certificate Policies")
    } else if str_eq(oid, "1.3.6.1.5.5.7.48.1") {
        Some("OCSP")
    } else if str_eq(oid, "1.3.6.1.5.5.7.48.2") {
        Some("CA Issuers")
    } else if str_eq(oid, "1.3.6.1.4.1.11129.2.4.2") {
        Some("CT Precertificate SCTs")
    } else if str_eq(oid, "2.23.140.1.1") {
        Some("Extended Validation (EV) Guidelines")
    } else if str_eq(oid, "2.23.140.1.2.1") {
        Some("Domain Validated")
    } else if str_eq(oid, "2.23.140.1.2.2") {
        Some("Organization Validated")
    } else if str_eq(oid, "2.23.140.1.2.3") {
        Some("Individual Validated")
    } else if str_eq(oid, "2.16.840.1.114412.2.1") {
        Some("DigiCert Extended Validation (EV) Guidelines")
    } else {
        None
    }
}

/// Every built-in label is a nonempty string.
pub proof fn lemma_builtin_desc_nonempty(oid: Seq<char>)
    ensures
        builtin_oid_desc(oid) matches Some(d) ==> d.len() > 0,
{
    reveal_strlit("Subject Key Identifier");
    reveal_strlit("Authority Key Identifier");
    reveal_strlit("Key Usage");
    reveal_strlit("Extended Key Usage");
    reveal_strlit("Subject Alternate Name");
    reveal_strlit("Client Authentication");
    reveal_strlit("Server Authentication");
    reveal_strlit("Basic Constraints");
    reveal_strlit("Authority Information Access");
    reveal_strlit("CRL Distribution Points");
    reveal_strlit("Certificate Policies");
    reveal_strlit("OCSP");
    reveal_strlit("CA Issuers");
    reveal_strlit("CT Precertificate SCTs");
    reveal_strlit("Extended Validation (EV) Guidelines");
    reveal_strlit("Domain Validated");
    reveal_strlit("Organization Validated");
    reveal_strlit("Individual Validated");
    reveal_strlit("DigiCert Extended Validation (EV) Guidelines");
}

/// The label, if any, that the `const-oid` identifier database holds for a
/// dotted-numeric object identifier. The database is a fixed compile-time
/// table, so the label is a function of the identifier alone.
pub uninterp spec fn db_oid_label(oid: Seq<char>) -> Option<Seq<char>>;

/// Relies on `const_oid::db::Database::by_oid` over the crate's built-in
/// database `DB` (with `ObjectIdentifier::new` converting the dotted string
/// back to an identifier): the result is determined by the identifier alone,
/// and every name in the generated database is a nonempty string literal.
#[verifier::external_body]
fn db_lookup(oid: &String) -> (r: Option<String>)
    ensures
        r matches Some(l) ==> db_oid_label(oid@) == Some(l@) && l@.len() > 0,
        r is None ==> db_oid_label(oid@) is None,
{
    let parsed = const_oid::ObjectIdentifier::new(oid.as_str()).ok()?;
    const_oid::db::DB.by_oid(&parsed).map(|s| s.to_owned())
}

/// The resolved label of an object identifier: the built-in table first,
/// then the external identifier database, then the identifier itself.
pub open spec fn spec_oid_desc_or_raw(oid: Seq<char>) -> Seq<char> {
    match builtin_oid_desc(oid) {
        Some(d) => d,
        None => match db_oid_label(oid) {
            Some(l) => l,
            None => oid,
        },
    }
}

/// Resolves an object identifier to a human-readable label, falling back to
/// the raw dotted-numeric form; total, and never empty for a nonempty input.
pub fn oid_desc_or_raw(oid: &String) -> (r: String)
    ensures
        r@ == spec_oid_desc_or_raw(oid@),
        oid@.len() > 0 ==> r@.len() > 0,
{
    proof {
        lemma_builtin_desc_nonempty(oid@);
    }
    match get_oid_desc(oid) {
        Some(d) => d.to_owned(),
        None => match db_lookup(oid) {
            Some(l) => l,
            None => oid.clone(),
        },
    }
}

} // verus!
