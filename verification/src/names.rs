//! The library's own form of the X.509 `AltName` alternative-name union
//! and its rendering into tagged text. Variants whose inner structure this
//! tool does not interpret (other-name, EDI party name, directory name)
//! carry a pre-rendered string produced at conversion time; IP addresses
//! carry their raw bytes and are reconstructed into dotted-decimal or
//! colon-hex text here.

use vstd::prelude::*;
use crate::hexfmt::hex_line;
use crate::oids::spec_oid_desc_or_raw;
use crate::strutil::{dec_str, hex_str, join_strs};

verus! {

/// A tagged union of the alternative identity forms that appear in subject
/// and issuer alternative names, authority key identifiers, and CRL
/// distribution points.
pub enum AltName {
    /// An other-name, carried as an opaque diagnostic rendering.
    Other(String),
    /// An RFC 822 mailbox name.
    Rfc822(String),
    /// A DNS name.
    Dns(String),
    /// A directory (distinguished) name, carried in its rendered form.
    Directory(String),
    /// An EDI party name, carried as an opaque diagnostic rendering.
    EdiParty(String),
    /// A uniform resource identifier.
    Uri(String),
    /// An IP address as its raw 4- or 16-byte form (other lengths are kept
    /// and rendered diagnostically).
    Ip(Vec<u8>),
    /// A registered object identifier in dotted-numeric form.
    RegisteredId(String),
}

/// Dotted-decimal text of a 4-byte IPv4 address.
pub open spec fn spec_ipv4_text(b: Seq<u8>) -> Seq<char> {
    dec_str(b[0] as nat) + "."@ + dec_str(b[1] as nat) + "."@ + dec_str(b[2] as nat) + "."@
        + dec_str(b[3] as nat)
}

/// The eight 16-bit groups of a 16-byte IPv6 address, big-endian.
pub open spec fn ip6_groups(b: Seq<u8>) -> Seq<int> {
    Seq::new(8, |i: int| b[2 * i] * 256 + b[2 * i + 1])
}

/// The number of consecutive zero groups starting at position `i`.
pub open spec fn zero_run_len(gs: Seq<int>, i: int) -> int
    decreases gs.len() - i,
    when 0 <= i <= gs.len()
{
    if i >= gs.len() {
        0
    } else if gs[i] != 0 {
        0
    } else {
        1 + zero_run_len(gs, i + 1)
    }
}

/// The start of the leftmost longest run of zero groups at or after `i`
/// (`gs.len()` when every position from `i` on starts a run of length 0).
pub open spec fn best_zero_run(gs: Seq<int>, i: int) -> int
    decreases gs.len() - i,
    when 0 <= i <= gs.len()
{
    if i >= gs.len() {
        i
    } else {
        let rest = best_zero_run(gs, i + 1);
        if zero_run_len(gs, i) >= zero_run_len(gs, rest) {
            i
        } else {
            rest
        }
    }
}

/// Lowercase hex texts of the groups, joined with single colons.
pub open spec fn groups_text(gs: Seq<int>) -> Seq<char> {
    join_strs(gs.map_values(|g: int| hex_str(g as nat)), ":"@)
}

/// Colon-hex text of a 16-byte IPv6 address: eight lowercase hex groups,
/// with the leftmost longest run of two or more zero groups compressed to
/// a double colon.
pub open spec fn spec_ipv6_text(b: Seq<u8>) -> Seq<char> {
    let gs = ip6_groups(b);
    let s = best_zero_run(gs, 0);
    let l = zero_run_len(gs, s);
    if l >= 2 {
        groups_text(gs.take(s)) + "::"@ + groups_text(gs.skip(s + l))
    } else {
        groups_text(gs)
    }
}

/// The text form of an IP address payload: dotted-decimal for exactly 4
/// bytes, colon-hex for exactly 16 bytes, and an opaque diagnostic dump of
/// the bytes for any other length.
pub open spec fn spec_ip_text(b: Seq<u8>) -> Seq<char> {
    if b.len() == 4 {
        spec_ipv4_text(b)
    } else if b.len() == 16 {
        spec_ipv6_text(b)
    } else {
        "<"@ + hex_line(b) + ">"@
    }
}

/// The rendered text of one general name, in its tagged string form.
pub open spec fn spec_fmt_general_name(name: AltName) -> Seq<char> {
    match name {
        AltName::Other(s) => "OTHER"@ + s@,
        AltName::Rfc822(s) => "RFC:"@ + s@,
        AltName::Dns(s) => "DNS:"@ + s@,
        AltName::Directory(s) => "DIR:"@ + s@,
        AltName::EdiParty(s) => "EDI:"@ + s@,
        AltName::Uri(s) => "URI:"@ + s@,
        AltName::Ip(b) => "IP:"@ + spec_ip_text(b@),
        AltName::RegisteredId(oid) => spec_oid_desc_or_raw(oid@),
    }
}

/// The rendered texts of a list of general names.
pub open spec fn spec_fmt_general_names(names: Seq<AltName>) -> Seq<Seq<char>> {
    names.map_values(|n: AltName| spec_fmt_general_name(n))
}

fn ipv4_text(b: &Vec<u8>) -> (r: String)
    requires
        b@.len() == 4,
    ensures
        r@ == spec_ipv4_text(b@),
{
    let mut s = crate::strutil::u64_to_dec(b[0] as u64);
    s.append(".");
    let o1 = crate::strutil::u64_to_dec(b[1] as u64);
    s.append(o1.as_str());
    s.append(".");
    let o2 = crate::strutil::u64_to_dec(b[2] as u64);
    s.append(o2.as_str());
    s.append(".");
    let o3 = crate::strutil::u64_to_dec(b[3] as u64);
    s.append(o3.as_str());
    proof {
        assert(s@ =~= spec_ipv4_text(b@));
    }
    s
}

fn groups_hex_join(gs: &Vec<u16>, lo: usize, hi: usize, Ghost(gsi): Ghost<Seq<int>>) -> (r: String)
    requires
        lo <= hi <= gs@.len(),
        gsi.len() == gs@.len(),
        forall|j: int| 0 <= j < gs@.len() ==> #[trigger] gsi[j] == gs@[j] as int,
    ensures
        r@ == groups_text(gsi.subrange(lo as int, hi as int)),
{
    let mut items: Vec<String> = Vec::new();
    let mut j: usize = lo;
    let ghost target = gsi.subrange(lo as int, hi as int).map_values(
        |g: int| hex_str(g as nat),
    );
    proof {
        assert(items.deep_view() =~= target.take(0));
    }
    while j < hi
        invariant
            lo <= j <= hi <= gs@.len(),
            gsi.len() == gs@.len(),
            forall|k: int| 0 <= k < gs@.len() ==> #[trigger] gsi[k] == gs@[k] as int,
            target == gsi.subrange(lo as int, hi as int).map_values(
                |g: int| hex_str(g as nat),
            ),
            items.deep_view() == target.take(j - lo),
        decreases hi - j,
    {
        let h = crate::strutil::u128_to_hex(gs[j] as u128);
        let ghost old_dv = items.deep_view();
        items.push(h);
        proof {
            assert(items.deep_view() =~= old_dv + seq![h@]);
            assert(target[j - lo] == hex_str(gsi[j as int] as nat));
            assert(items.deep_view() =~= target.take(j + 1 - lo));
        }
        j += 1;
    }
    proof {
        assert(target.take(hi - lo) =~= target);
    }
    crate::strutil::join_with(&items, ":")
}

fn ipv6_text(b: &Vec<u8>) -> (r: String)
    requires
        b@.len() == 16,
    ensures
        r@ == spec_ipv6_text(b@),
{
    let ghost gsi = ip6_groups(b@);
    let mut gs: Vec<u16> = Vec::new();
    let mut i: usize = 0;
    while i < 8
        invariant
            i <= 8,
            b@.len() == 16,
            gsi == ip6_groups(b@),
            gs@.len() == i,
            forall|k: int| 0 <= k < i ==> #[trigger] gsi[k] == gs@[k] as int,
        decreases 8 - i,
    {
        let g: u16 = (b[2 * i] as u16) * 256 + (b[2 * i + 1] as u16);
        gs.push(g);
        i += 1;
    }
    // scan from the right for the leftmost longest zero run
    let mut best: usize = 8;
    let mut best_run: usize = 0;
    let mut cur_run: usize = 0;
    let mut k: usize = 8;
    while k > 0
        invariant
            k <= 8,
            gs@.len() == 8,
            gsi.len() == 8,
            forall|t: int| 0 <= t < 8 ==> #[trigger] gsi[t] == gs@[t] as int,
            cur_run == zero_run_len(gsi, k as int),
            best == best_zero_run(gsi, k as int),
            best_run == zero_run_len(gsi, best as int),
            best <= 8,
            cur_run + k <= 8,
            best_run + best <= 8,
        decreases k,
    {
        k -= 1;
        if gs[k] == 0 {
            cur_run += 1;
        } else {
            cur_run = 0;
        }
        if cur_run >= best_run {
            best = k;
            best_run = cur_run;
        }
    }
    if best_run >= 2 {
        let mut s = groups_hex_join(&gs, 0, best, Ghost(gsi));
        s.append("::");
        let tail = groups_hex_join(&gs, best + best_run, 8, Ghost(gsi));
        s.append(tail.as_str());
        proof {
            assert(gsi.subrange(0, best as int) =~= gsi.take(best as int));
            assert(gsi.subrange(best + best_run, 8) =~= gsi.skip(best + best_run));
            assert(s@ =~= spec_ipv6_text(b@));
        }
        s
    } else {
        let s = groups_hex_join(&gs, 0, 8, Ghost(gsi));
        proof {
            assert(gsi.subrange(0, 8) =~= gsi);
        }
        s
    }
}

/// The text form of an IP address payload of any length; never fails.
pub fn ip_text(b: &Vec<u8>) -> (r: String)
    ensures
        r@ == spec_ip_text(b@),
{
    if b.len() == 4 {
        ipv4_text(b)
    } else if b.len() == 16 {
        ipv6_text(b)
    } else {
        let mut s = "<".to_owned();
        let line = crate::hexfmt::hex_line_string(b.as_slice());
        s.append(line.as_str());
        s.append(">");
        proof {
            assert(s@ =~= spec_ip_text(b@));
        }
        s
    }
}

/// Renders one general name into its tagged string form.
pub fn fmt_general_name(name: &AltName) -> (r: String)
    ensures
        r@ == spec_fmt_general_name(*name),
{
    match name {
        AltName::Other(s) => {
            let mut r = "OTHER".to_owned();
            r.append(s.as_str());
            r
        },
        AltName::Rfc822(s) => {
            let mut r = "RFC:".to_owned();
            r.append(s.as_str());
            r
        },
        AltName::Dns(s) => {
            let mut r = "DNS:".to_owned();
            r.append(s.as_str());
            r
        },
        AltName::Directory(s) => {
            let mut r = "DIR:".to_owned();
            r.append(s.as_str());
            r
        },
        AltName::EdiParty(s) => {
            let mut r = "EDI:".to_owned();
            r.append(s.as_str());
            r
        },
        AltName::Uri(s) => {
            let mut r = "URI:".to_owned();
            r.append(s.as_str());
            r
        },
        AltName::Ip(b) => {
            let mut r = "IP:".to_owned();
            let t = ip_text(b);
            r.append(t.as_str());
            r
        },
        AltName::RegisteredId(oid) => crate::oids::oid_desc_or_raw(oid),
    }
}

/// Renders a list of general names and joins them with `sep`.
pub fn fmt_general_names_joined(names: &Vec<AltName>, sep: &str) -> (r: String)
    ensures
        r@ == join_strs(spec_fmt_general_names(names@), sep@),
{
    let mut items: Vec<String> = Vec::new();
    let mut i: usize = 0;
    let ghost target = spec_fmt_general_names(names@);
    proof {
        assert(items.deep_view() =~= target.take(0));
    }
    while i < names.len()
        invariant
            i <= names@.len(),
            target == spec_fmt_general_names(names@),
            items.deep_view() == target.take(i as int),
        decreases names@.len() - i,
    {
        let t = fmt_general_name(&names[i]);
        let ghost old_dv = items.deep_view();
        items.push(t);
        proof {
            assert(items.deep_view() =~= old_dv + seq![t@]);
            assert(items.deep_view() =~= target.take(i + 1));
        }
        i += 1;
    }
    proof {
        assert(target.take(names@.len() as int) =~= target);
    }
    crate::strutil::join_with(&items, sep)
}

/// An IP payload of exactly 4 bytes renders as dotted-decimal, exactly 16
/// bytes as compressed colon-hex, and every other length as the opaque
/// bracketed hex dump of its bytes; the rendering is total.
pub proof fn lemma_ip_text_cases(b: Seq<u8>)
    ensures
        b.len() == 4 ==> spec_ip_text(b) == dec_str(b[0] as nat) + "."@ + dec_str(b[1] as nat)
            + "."@ + dec_str(b[2] as nat) + "."@ + dec_str(b[3] as nat),
        b.len() == 16 ==> spec_ip_text(b) == spec_ipv6_text(b),
        b.len() != 4 && b.len() != 16 ==> spec_ip_text(b) == "<"@ + hex_line(b) + ">"@,
{
}

} // verus!
