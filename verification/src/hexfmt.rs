//! Rendering of raw byte buffers as colon-separated lowercase hex octets in
//! fixed-width lines, in the style of a classic certificate dump.

use vstd::prelude::*;
use crate::strutil::{hex_digit, join_strs, join_with};

verus! {

/// The two lowercase hex digits of one byte.
pub open spec fn byte_hex(b: u8) -> Seq<char> {
    seq![hex_digit(b as int / 16), hex_digit(b as int % 16)]
}

/// One line of a hex dump: every byte as two lowercase hex digits,
/// consecutive bytes separated by a colon, no trailing colon.
pub open spec fn hex_line(bs: Seq<u8>) -> Seq<char>
    decreases bs.len(),
{
    if bs.len() == 0 {
        Seq::<char>::empty()
    } else if bs.len() == 1 {
        byte_hex(bs[0])
    } else {
        hex_line(bs.drop_last()) + seq![':'] + byte_hex(bs.last())
    }
}

/// A hex dump split into lines of at most `w` bytes each; only the final
/// line may be shorter.
pub open spec fn hex_lines(bs: Seq<u8>, w: int) -> Seq<Seq<char>>
    decreases bs.len(),
    when w >= 1
{
    if bs.len() == 0 {
        Seq::<Seq<char>>::empty()
    } else if bs.len() <= w {
        seq![hex_line(bs)]
    } else {
        seq![hex_line(bs.take(w))] + hex_lines(bs.skip(w), w)
    }
}

fn byte_hex_str(b: u8) -> (r: String)
    ensures
        r@ == byte_hex(b),
{
    let mut s = crate::strutil::hex_digit_string(b / 16);
    let t = crate::strutil::hex_digit_string(b % 16);
    s.append(t.as_str());
    proof {
        assert(s@ =~= byte_hex(b));
    }
    s
}

fn hex_line_of(bytes: &[u8], start: usize, end: usize) -> (r: String)
    requires
        start <= end <= bytes@.len(),
    ensures
        r@ == hex_line(bytes@.subrange(start as int, end as int)),
{
    let mut s = String::new();
    let mut i: usize = start;
    proof {
        reveal_strlit(":");
        assert(bytes@.subrange(start as int, start as int) =~= Seq::<u8>::empty());
    }
    while i < end
        invariant
            start <= i <= end <= bytes@.len(),
            s@ == hex_line(bytes@.subrange(start as int, i as int)),
        decreases end - i,
    {
        if i > start {
            s.append(":");
        }
        let b = byte_hex_str(bytes[i]);
        s.append(b.as_str());
        proof {
            reveal_strlit(":");
            let pre = bytes@.subrange(start as int, i as int);
            let cur = bytes@.subrange(start as int, i + 1);
            assert(cur.drop_last() =~= pre);
            assert(cur.last() == bytes@[i as int]);
            assert(":"@ =~= seq![':']);
            assert(s@ =~= hex_line(cur));
        }
        i += 1;
    }
    s
}

/// Renders all the bytes as one colon-separated line of hex octets.
pub fn hex_line_string(bytes: &[u8]) -> (r: String)
    ensures
        r@ == hex_line(bytes@),
{
    let n = bytes.len();
    let r = hex_line_of(bytes, 0, n);
    proof {
        assert(bytes@.subrange(0, n as int) =~= bytes@);
    }
    r
}

/// Renders the bytes as lines of at most `width` bytes, each byte as two
/// lowercase hex digits, bytes within a line separated by colons.
pub fn openssl_hex(bytes: &[u8], width: usize) -> (r: Vec<String>)
    requires
        width >= 1,
    ensures
        r.deep_view() == hex_lines(bytes@, width as int),
{
    let len = bytes.len();
    let mut r: Vec<String> = Vec::new();
    let mut pos: usize = 0;
    proof {
        assert(bytes@.skip(0) =~= bytes@);
        assert(r.deep_view() =~= Seq::<Seq<char>>::empty());
    }
    while pos < len
        invariant
            pos <= len,
            len == bytes@.len(),
            width >= 1,
            pos == 0 || r.deep_view().len() > 0,
            hex_lines(bytes@, width as int) == r.deep_view() + hex_lines(
                bytes@.skip(pos as int),
                width as int,
            ),
        decreases len - pos,
    {
        let end = if len - pos > width {
            pos + width
        } else {
            len
        };
        let line = hex_line_of(bytes, pos, end);
        let ghost old_dv = r.deep_view();
        r.push(line);
        proof {
            let w = width as int;
            let rest = bytes@.skip(pos as int);
            let c = end - pos;
            assert(rest.len() == len - pos);
            assert(rest.take(c) =~= bytes@.subrange(pos as int, end as int));
            if rest.len() <= w {
                assert(end == len);
                assert(rest.take(c) =~= rest);
                assert(hex_lines(rest, w) == seq![hex_line(rest)]);
            } else {
                assert(hex_lines(rest, w) == seq![hex_line(rest.take(w))] + hex_lines(
                    rest.skip(w),
                    w,
                ));
                assert(rest.skip(w) =~= bytes@.skip(end as int));
            }
            assert(r.deep_view() =~= old_dv + seq![line@]);
        }
        pos = end;
    }
    proof {
        assert(bytes@.skip(len as int) =~= Seq::<u8>::empty());
        assert(r.deep_view() =~= r.deep_view() + Seq::<Seq<char>>::empty());
    }
    r
}

/// The hex dump of the bytes at the given width, lines joined with `sep`.
pub fn openssl_hex_joined(bytes: &[u8], width: usize, sep: &str) -> (r: String)
    requires
        width >= 1,
    ensures
        r@ == join_strs(hex_lines(bytes@, width as int), sep@),
{
    let lines = openssl_hex(bytes, width);
    join_with(&lines, sep)
}

/// Chunk `i` of the byte sequence when it is split into chunks of `w` bytes:
/// the bytes from position `i * w` up to `i * w + w` (or the end).
pub open spec fn chunk_of(bs: Seq<u8>, w: int, i: int) -> Seq<u8>
    decreases i,
    when w >= 1 && i >= 0
{
    if i <= 0 {
        if bs.len() <= w {
            bs
        } else {
            bs.take(w)
        }
    } else {
        chunk_of(bs.skip(w), w, i - 1)
    }
}

/// The hex dump has one line per started chunk of `w` bytes: `ceil(len / w)`
/// lines in all, and line `i` shows exactly the bytes of chunk `i`, which
/// holds between 1 and `w` bytes.
pub proof fn lemma_hex_lines_shape(bs: Seq<u8>, w: int)
    requires
        w >= 1,
    ensures
        hex_lines(bs, w).len() == (bs.len() + w - 1) / w,
        forall|i: int|
            0 <= i < hex_lines(bs, w).len() ==> #[trigger] hex_lines(bs, w)[i] == hex_line(
                chunk_of(bs, w, i),
            ) && 1 <= chunk_of(bs, w, i).len() <= w,
    decreases bs.len(),
{
    let n = bs.len() as int;
    if bs.len() == 0 {
        assert((n + w - 1) / w == 0) by {
            vstd::arithmetic::div_mod::lemma_basic_div(w - 1, w);
        }
    } else if bs.len() <= w {
        assert((n + w - 1) / w == 1) by {
            vstd::arithmetic::div_mod::lemma_div_plus_one(n - 1, w);
            vstd::arithmetic::div_mod::lemma_basic_div(n - 1, w);
        }
    } else {
        lemma_hex_lines_shape(bs.skip(w), w);
        assert(hex_lines(bs, w).len() == (n + w - 1) / w) by {
            vstd::arithmetic::div_mod::lemma_div_plus_one(n - 1, w);
        }
        assert forall|i: int| 0 <= i < hex_lines(bs, w).len() implies #[trigger] hex_lines(
            bs,
            w,
        )[i] == hex_line(chunk_of(bs, w, i)) && 1 <= chunk_of(bs, w, i).len() <= w by {
            if i > 0 {
                assert(hex_lines(bs, w)[i] == hex_lines(bs.skip(w), w)[i - 1]);
                assert(chunk_of(bs, w, i) == chunk_of(bs.skip(w), w, i - 1));
            }
        }
    }
}

/// Chunk `i` is the subrange of the bytes from `i * w` to `i * w + w`,
/// clipped at the end of the sequence.
pub proof fn lemma_chunk_of_is_subrange(bs: Seq<u8>, w: int, i: int)
    requires
        w >= 1,
        0 <= i,
        i * w < bs.len(),
    ensures
        chunk_of(bs, w, i) == bs.subrange(
            i * w,
            if i * w + w <= bs.len() {
                i * w + w
            } else {
                bs.len() as int
            },
        ),
    decreases i,
{
    if i == 0 {
        assert(0 * w == 0) by (nonlinear_arith);
        if bs.len() <= w {
            assert(bs.subrange(0, bs.len() as int) =~= bs);
        } else {
            assert(bs.take(w) =~= bs.subrange(0, w));
        }
    } else {
        assert((i - 1) * w == i * w - w) by (nonlinear_arith);
        lemma_chunk_of_is_subrange(bs.skip(w), w, i - 1);
        let rest = bs.skip(w);
        let lo = (i - 1) * w;
        let hi = if lo + w <= rest.len() {
            lo + w
        } else {
            rest.len() as int
        };
        assert(rest.subrange(lo, hi) =~= bs.subrange(
            i * w,
            if i * w + w <= bs.len() {
                i * w + w
            } else {
                bs.len() as int
            },
        ));
    }
}

/// Every digit value below 16 renders as a lowercase hexadecimal digit
/// character, never as a colon.
pub proof fn lemma_hex_digit_range(d: int)
    requires
        0 <= d < 16,
    ensures
        ('0' <= hex_digit(d) && hex_digit(d) <= '9') || ('a' <= hex_digit(d) && hex_digit(d)
            <= 'f'),
        hex_digit(d) != ':',
{
}

/// The full shape of a hex dump, for every byte sequence and every width
/// `w >= 1`: the dump has `ceil(len / w)` lines; line `i` shows exactly
/// chunk `i` of the bytes, between 1 and `w` of them; each byte is two
/// lowercase hex digits; consecutive bytes are separated by single
/// colons; and no line begins or ends with a colon.
pub proof fn lemma_hex_dump_shape(bs: Seq<u8>, w: int)
    requires
        w >= 1,
    ensures
        hex_lines(bs, w).len() == (bs.len() + w - 1) / w,
        forall|i: int|
            0 <= i < hex_lines(bs, w).len() ==> {
                let line = #[trigger] hex_lines(bs, w)[i];
                let chunk = chunk_of(bs, w, i);
                &&& line == hex_line(chunk)
                &&& 1 <= chunk.len() <= w
                &&& line.len() == 3 * chunk.len() - 1
                &&& (forall|j: int|
                    0 <= j < chunk.len() ==> line[3 * j] == hex_digit(
                        #[trigger] chunk[j] as int / 16,
                    ) && line[3 * j + 1] == hex_digit(chunk[j] as int % 16) && line[3 * j] != ':'
                        && line[3 * j + 1] != ':')
                &&& (forall|j: int| 0 <= j < chunk.len() - 1 ==> #[trigger] line[3 * j + 2] == ':')
                &&& line[0] != ':'
                &&& line[line.len() - 1] != ':'
            },
{
    lemma_hex_lines_shape(bs, w);
    assert forall|i: int| 0 <= i < hex_lines(bs, w).len() implies {
        let line = #[trigger] hex_lines(bs, w)[i];
        let chunk = chunk_of(bs, w, i);
        &&& line == hex_line(chunk)
        &&& 1 <= chunk.len() <= w
        &&& line.len() == 3 * chunk.len() - 1
        &&& (forall|j: int|
            0 <= j < chunk.len() ==> line[3 * j] == hex_digit(#[trigger] chunk[j] as int / 16)
                && line[3 * j + 1] == hex_digit(chunk[j] as int % 16) && line[3 * j] != ':'
                && line[3 * j + 1] != ':')
        &&& (forall|j: int| 0 <= j < chunk.len() - 1 ==> #[trigger] line[3 * j + 2] == ':')
        &&& line[0] != ':'
        &&& line[line.len() - 1] != ':'
    } by {
        let line = hex_lines(bs, w)[i];
        let chunk = chunk_of(bs, w, i);
        lemma_hex_line_shape(chunk);
        assert forall|j: int| 0 <= j < chunk.len() implies line[3 * j] == hex_digit(
            #[trigger] chunk[j] as int / 16,
        ) && line[3 * j + 1] == hex_digit(chunk[j] as int % 16) && line[3 * j] != ':' && line[3 * j
            + 1] != ':' by {
            lemma_hex_digit_range(chunk[j] as int / 16);
            lemma_hex_digit_range(chunk[j] as int % 16);
            assert(line == hex_line(chunk));
            assert(hex_line(chunk)[3 * j] == hex_digit(chunk[j] as int / 16));
            assert(hex_line(chunk)[3 * j + 1] == hex_digit(chunk[j] as int % 16));
        }
        assert(line[0] == hex_digit(chunk[0] as int / 16));
        assert(line[0] != ':') by {
            lemma_hex_digit_range(chunk[0] as int / 16);
        }
        assert(line[line.len() - 1] == hex_digit(chunk[chunk.len() - 1] as int % 16));
        assert(line[line.len() - 1] != ':') by {
            lemma_hex_digit_range(chunk[chunk.len() - 1] as int % 16);
        }
    }
}

/// Every nonempty dump line is three characters per byte minus the final
/// colon: two lowercase hex digits per byte, single colons in between, and
/// no colon at either end.
pub proof fn lemma_hex_line_shape(bs: Seq<u8>)
    requires
        bs.len() >= 1,
    ensures
        hex_line(bs).len() == 3 * bs.len() - 1,
        forall|j: int|
            0 <= j < bs.len() ==> hex_line(bs)[3 * j] == hex_digit(#[trigger] bs[j] as int / 16)
                && hex_line(bs)[3 * j + 1] == hex_digit(bs[j] as int % 16),
        forall|j: int| 0 <= j < bs.len() - 1 ==> #[trigger] hex_line(bs)[3 * j + 2] == ':',
    decreases bs.len(),
{
    if bs.len() == 1 {
    } else {
        lemma_hex_line_shape(bs.drop_last());
        let pre = bs.drop_last();
        assert forall|j: int| 0 <= j < bs.len() implies hex_line(bs)[3 * j] == hex_digit(
            #[trigger] bs[j] as int / 16,
        ) && hex_line(bs)[3 * j + 1] == hex_digit(bs[j] as int % 16) by {
            if j < bs.len() - 1 {
                assert(pre[j] == bs[j]);
                assert(hex_line(bs)[3 * j] == hex_line(pre)[3 * j]);
                assert(hex_line(bs)[3 * j + 1] == hex_line(pre)[3 * j + 1]);
            }
        }
        assert forall|j: int| 0 <= j < bs.len() - 1 implies #[trigger] hex_line(bs)[3 * j + 2]
            == ':' by {
            if j < bs.len() - 2 {
                assert(hex_line(bs)[3 * j + 2] == hex_line(pre)[3 * j + 2]);
            }
        }
    }
}

} // verus!
