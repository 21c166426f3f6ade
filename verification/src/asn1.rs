//! Prepending DER framing to a byte buffer: the definite-length prefix
//! (short form up to 0x7f, long form above it) and the SEQUENCE tag.

use vstd::prelude::*;
use crate::strutil::pow256;

verus! {

/// The big-endian bytes of a length, most significant first, with no
/// leading zero bytes (empty for zero).
pub open spec fn be_len_bytes(len: nat) -> Seq<u8>
    decreases len,
{
    if len == 0 {
        Seq::<u8>::empty()
    } else {
        be_len_bytes(len / 256) + seq![(len % 256) as u8]
    }
}

/// The DER definite-length prefix of a content length: the length itself
/// as one byte in the short form, or a count byte `0x80 + n` followed by
/// the `n` big-endian length bytes in the long form.
pub open spec fn spec_len_prefix(len: nat) -> Seq<u8> {
    if len <= 0x7f {
        seq![len as u8]
    } else {
        seq![(0x80 + be_len_bytes(len).len()) as u8] + be_len_bytes(len)
    }
}

/// Prepends the DER definite-length prefix for the buffer's current
/// length.
pub fn wrap_in_asn1_len(bytes: &mut Vec<u8>)
    ensures
        final(bytes)@ == spec_len_prefix(old(bytes)@.len() as nat) + old(bytes)@,
{
    let len = bytes.len();
    let ghost orig = bytes@;
    if len <= 0x7f {
        bytes.insert(0, len as u8);
        proof {
            assert(bytes@ =~= spec_len_prefix(orig.len() as nat) + orig);
        }
    } else {
        let mut left = len;
        let mut count: u8 = 0;
        proof {
            assert(pow256(8) == 0x1_0000_0000_0000_0000) by {
                reveal_with_fuel(pow256, 9);
            }
            assert(pow256(0) == 1);
            assert(left * pow256(0) == len) by (nonlinear_arith)
                requires
                    left == len,
                    pow256(0) == 1,
            ;
            assert(bytes@.take(0) =~= Seq::<u8>::empty());
            assert(bytes@ =~= bytes@.take(0) + orig);
            assert(be_len_bytes(len as nat) =~= be_len_bytes(len as nat) + bytes@.take(0));
        }
        while left > 0
            invariant
                count <= 8,
                count == bytes@.len() - orig.len(),
                bytes@ =~= bytes@.take(count as int) + orig,
                be_len_bytes(len as nat) =~= be_len_bytes(left as nat) + bytes@.take(
                    count as int,
                ),
                left * pow256(count as nat) <= len,
                len <= usize::MAX,
                pow256(8) == 0x1_0000_0000_0000_0000,
            decreases left,
        {
            proof {
                if count >= 8 {
                    crate::strutil::lemma_pow256_le(8, count as nat);
                    assert(left * pow256(count as nat) >= pow256(count as nat))
                        by (nonlinear_arith)
                        requires
                            left >= 1,
                            pow256(count as nat) >= 0,
                    ;
                    assert(false);
                }
            }
            let b: u8 = (left % 256) as u8;
            let ghost seg = bytes@.take(count as int);
            bytes.insert(0, b);
            proof {
                assert(bytes@.take(count + 1) =~= seq![b] + seg);
                assert(bytes@ =~= bytes@.take(count + 1) + orig);
                assert(be_len_bytes(left as nat) == be_len_bytes((left / 256) as nat) + seq![b]);
                assert(be_len_bytes(len as nat) =~= be_len_bytes((left / 256) as nat) + (seq![b]
                    + seg));
                assert((left / 256) * pow256((count + 1) as nat) <= left * pow256(count as nat))
                    by (nonlinear_arith)
                    requires
                        left >= 0,
                        pow256((count + 1) as nat) == 256 * pow256(count as nat),
                        pow256(count as nat) >= 0,
                ;
            }
            count = count + 1;
            left = left / 256;
        }
        let ghost seg = bytes@.take(count as int);
        bytes.insert(0, 0x80 + count);
        proof {
            assert(be_len_bytes(len as nat) =~= seg);
            assert(seg.len() == count);
            assert(bytes@ =~= seq![(0x80 + count) as u8] + seg + orig);
            assert(bytes@ =~= spec_len_prefix(orig.len() as nat) + orig);
        }
    }
}

/// Prepends the framing that puts the buffer's contents in a DER SEQUENCE:
/// the definite-length prefix, then the SEQUENCE tag byte `0x30`.
pub fn wrap_in_sequence(bytes: &mut Vec<u8>)
    ensures
        final(bytes)@ == seq![0x30u8] + spec_len_prefix(old(bytes)@.len() as nat) + old(bytes)@,
{
    wrap_in_asn1_len(bytes);
    // 0x30: the constructed SEQUENCE tag
    bytes.insert(0, 0x30);
    proof {
        assert(bytes@ =~= seq![0x30u8] + spec_len_prefix(old(bytes)@.len() as nat) + old(
            bytes,
        )@);
    }
}

} // verus!
