//! Renderings of a hash state: big-endian bytes, hexadecimal text and the
//! decimal concatenation of its words.
use vstd::prelude::*;
use vstd::string::*;
use crate::padding::{be_bytes, push_be_bytes};

verus! {

/// The digit for `d < 16`, upper case.
pub open spec fn hex_char(d: nat) -> char {
    seq!['0', '1', '2', '3', '4', '5', '6', '7', '8', '9', 'A', 'B', 'C', 'D', 'E', 'F'][d as int]
}

/// Sixteen hexadecimal digits of `w`, most significant first.
pub open spec fn hex_word(w: u64) -> Seq<char> {
    Seq::new(16, |i: int| hex_char(((w >> (60 - 4 * i) as u64) & 0xf) as nat))
}

/// The words of `h` in hexadecimal, one after another.
pub open spec fn hex_string(h: Seq<u64>) -> Seq<char>
    decreases h.len(),
{
    if h.len() == 0 {
        Seq::empty()
    } else {
        hex_string(h.drop_last()) + hex_word(h.last())
    }
}

/// The decimal digits of `n`, without leading zeros.
pub open spec fn decimal(n: nat) -> Seq<char>
    decreases n,
{
    if n < 10 {
        seq![hex_char(n)]
    } else {
        decimal(n / 10).push(hex_char(n % 10))
    }
}

/// The words of `h` in decimal, one after another.
pub open spec fn decimal_string(h: Seq<u64>) -> Seq<char>
    decreases h.len(),
{
    if h.len() == 0 {
        Seq::empty()
    } else {
        decimal_string(h.drop_last()) + decimal(h.last() as nat)
    }
}

/// The words of `h` as bytes, each big-endian.
pub open spec fn digest_bytes(h: Seq<u64>) -> Seq<u8>
    decreases h.len(),
{
    if h.len() == 0 {
        Seq::empty()
    } else {
        digest_bytes(h.drop_last()) + be_bytes(h.last() as nat, 8)
    }
}

/// Eight bytes per word.
pub proof fn lemma_digest_bytes_len(h: Seq<u64>)
    ensures
        digest_bytes(h).len() == 8 * h.len(),
    decreases h.len(),
{
    if h.len() > 0 {
        lemma_digest_bytes_len(h.drop_last());
    }
}

/// Sixteen characters per word.
pub proof fn lemma_hex_string_len(h: Seq<u64>)
    ensures
        hex_string(h).len() == 16 * h.len(),
    decreases h.len(),
{
    if h.len() > 0 {
        lemma_hex_string_len(h.drop_last());
    }
}

/// The one-character text of digit `d`.
fn digit_str(d: u64) -> (r: &'static str)
    requires
        d < 16,
    ensures
        r@ == seq![hex_char(d as nat)],
{
    let digits = "0123456789ABCDEF";
    proof {
        reveal_strlit("0123456789ABCDEF");
    }
    let r = digits.substring_char(d as usize, d as usize + 1);
    assert(r@ =~= seq![hex_char(d as nat)]);
    r
}

/// Appends the decimal digits of `v`.
fn push_decimal(out: &mut String, v: u64)
    ensures
        final(out)@ == old(out)@ + decimal(v as nat),
    decreases v,
{
    if v >= 10 {
        push_decimal(out, v / 10);
    }
    out.append(digit_str(v % 10));
    assert(final(out)@ =~= old(out)@ + decimal(v as nat));
}

/// The words of `h` in decimal, one after another.
pub fn decimal_text(h: &[u64]) -> (r: String)
    ensures
        r@ == decimal_string(h@),
{
    let mut out = String::new();
    let mut i: usize = 0;
    while i < h.len()
        invariant
            i <= h@.len(),
            out@ == decimal_string(h@.take(i as int)),
        decreases h@.len() - i,
    {
        push_decimal(&mut out, h[i]);
        assert(h@.take(i + 1).drop_last() =~= h@.take(i as int));
        i = i + 1;
    }
    assert(h@.take(h@.len() as int) =~= h@);
    out
}

/// The words of `h` in hexadecimal, sixteen upper-case digits each.
pub fn hex_text(h: &[u64]) -> (r: String)
    ensures
        r@ == hex_string(h@),
{
    let mut out = String::new();
    let mut i: usize = 0;
    while i < h.len()
        invariant
            i <= h@.len(),
            out@ == hex_string(h@.take(i as int)),
        decreases h@.len() - i,
    {
        let w = h[i];
        let ghost before = out@;
        let mut j: usize = 0;
        while j < 16
            invariant
                j <= 16,
                out@ == before + hex_word(w).take(j as int),
            decreases 16 - j,
        {
            let shift: u64 = 60 - 4 * j as u64;
            let nibble: u64 = (w >> shift) & 0xf;
            assert(nibble < 16) by (bit_vector)
                requires
                    nibble == (w >> shift) & 0xf,
            ;
            out.append(digit_str(nibble));
            assert(out@ =~= before + hex_word(w).take(j + 1));
            j = j + 1;
        }
        assert(hex_word(w).take(16) =~= hex_word(w));
        assert(h@.take(i + 1).drop_last() =~= h@.take(i as int));
        i = i + 1;
    }
    assert(h@.take(h@.len() as int) =~= h@);
    out
}

/// The words of `h` as bytes, each big-endian.
pub fn bytes_text(h: &[u64]) -> (r: Vec<u8>)
    ensures
        r@ == digest_bytes(h@),
{
    let mut out: Vec<u8> = Vec::new();
    let mut i: usize = 0;
    while i < h.len()
        invariant
            i <= h@.len(),
            out@ == digest_bytes(h@.take(i as int)),
        decreases h@.len() - i,
    {
        push_be_bytes(&mut out, h[i], 8);
        assert(h@.take(i + 1).drop_last() =~= h@.take(i as int));
        i = i + 1;
    }
    assert(h@.take(h@.len() as int) =~= h@);
    out
}

} // verus!
