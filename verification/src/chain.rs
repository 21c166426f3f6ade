//! The certificate-chain side of the tool: decoding the raw certificates a
//! peer presented (entries that fail to decode are silently dropped) and
//! the explicit empty-chain error a caller receives when nothing remains.
//! The network exchange itself is plain I/O and lives outside the library;
//! it hands the raw DER blobs in, leaf first.

use vstd::prelude::*;
use crate::cert::{cert_from_der, cert_parse, CertInfo};

verus! {

/// The error a caller receives instead of a silently empty report.
pub enum ChainError {
    /// The peer presented no certificate that decoded.
    EmptyChain,
}

impl ChainError {
    /// The display text of the error.
    pub fn message(&self) -> (r: String)
        ensures
            r@ == "chain contained 0 certificates"@,
    {
        "chain contained 0 certificates".to_owned()
    }
}

/// The in-order sequence of certificates that decode: for each raw blob,
/// its decoded model when decoding succeeds, nothing when it fails; no
/// reordering, duplication or synthesis.
pub open spec fn spec_decode_chain(raw: Seq<Vec<u8>>) -> Seq<CertInfo>
    decreases raw.len(),
{
    if raw.len() == 0 {
        Seq::<CertInfo>::empty()
    } else {
        spec_decode_chain(raw.drop_last()) + (match cert_parse(raw.last()@) {
            Some(c) => seq![c],
            None => Seq::<CertInfo>::empty(),
        })
    }
}

/// Decodes each presented certificate from its DER form, in the order
/// given (leaf first); entries that fail to decode are silently dropped.
pub fn decode_chain(raw: &Vec<Vec<u8>>) -> (r: Vec<CertInfo>)
    ensures
        r@ == spec_decode_chain(raw@),
{
    let mut certs: Vec<CertInfo> = Vec::new();
    let mut i: usize = 0;
    proof {
        assert(raw@.take(0) =~= Seq::<Vec<u8>>::empty());
        assert(certs@ =~= spec_decode_chain(raw@.take(0)));
    }
    while i < raw.len()
        invariant
            i <= raw@.len(),
            certs@ == spec_decode_chain(raw@.take(i as int)),
        decreases raw@.len() - i,
    {
        let ghost old_certs = certs@;
        match cert_from_der(raw[i].as_slice()) {
            Some(c) => certs.push(c),
            None => (),
        }
        proof {
            let cur = raw@.take(i + 1);
            assert(cur.drop_last() =~= raw@.take(i as int));
            assert(cur.last() == raw@[i as int]);
            assert(certs@ =~= spec_decode_chain(cur));
        }
        i += 1;
    }
    proof {
        assert(raw@.take(raw@.len() as int) =~= raw@);
    }
    certs
}

/// Passes a decoded chain through only when it holds at least one
/// certificate; an empty chain is an explicit error, never a silently
/// empty success.
pub fn require_non_empty_chain(certs: Vec<CertInfo>) -> (r: Result<Vec<CertInfo>, ChainError>)
    ensures
        certs@.len() > 0 ==> r == Ok::<Vec<CertInfo>, ChainError>(certs),
        certs@.len() == 0 ==> r == Err::<Vec<CertInfo>, ChainError>(ChainError::EmptyChain),
{
    if certs.len() == 0 {
        Err(ChainError::EmptyChain)
    } else {
        Ok(certs)
    }
}

} // verus!
