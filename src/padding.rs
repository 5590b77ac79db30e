//! Message padding: the `0x80` marker, the zero fill and the 128-bit
//! big-endian length field.
use vstd::prelude::*;
use vstd::arithmetic::power::*;
use vstd::arithmetic::power2::*;
use vstd::arithmetic::div_mod::*;
use vstd::bits::*;

verus! {

/// Largest message length plus one, in bytes: the bit length of a message must
/// fit in 64 bits.
pub const MAX_MESSAGE_LEN: u64 = 0x2000_0000_0000_0000;

/// The `k` least significant base-256 digits of `v`, most significant first.
pub open spec fn be_bytes(v: nat, k: nat) -> Seq<u8> {
    Seq::new(k, |i: int| ((v as int / pow(256, (k - 1 - i) as nat)) % 256) as u8)
}

/// The number that a byte sequence denotes when read big-endian.
pub open spec fn be_value(s: Seq<u8>) -> nat
    decreases s.len(),
{
    if s.len() == 0 {
        0
    } else {
        be_value(s.drop_last()) * 256 + s.last() as nat
    }
}

/// Number of zero bytes after the marker byte, so that a message of `n` bytes
/// plus the marker reaches 112 modulo 128.
pub open spec fn zero_fill_len(n: nat) -> nat {
    ((239 - (n % 128) as int) % 128) as nat
}

/// The padded form of message `m`.
pub open spec fn padded(m: Seq<u8>) -> Seq<u8> {
    m.push(0x80u8) + Seq::new(zero_fill_len(m.len()), |i: int| 0u8) + be_bytes(m.len() * 8, 16)
}

/// `256^j` is `2^(8j)`, and positive.
pub proof fn lemma_pow256(j: nat)
    ensures
        pow2(8 * j) == pow(256, j),
        pow(256, j) > 0,
{
    lemma_pow2(8 * j);
    lemma_pow_multiplies(2, 8, j);
    lemma2_to64();
    lemma_pow2(8);
    lemma_pow_positive(256, j);
}

/// A byte sequence read big-endian is below `256^len`.
pub proof fn lemma_be_value_bound(s: Seq<u8>)
    ensures
        be_value(s) < pow(256, s.len()),
    decreases s.len(),
{
    if s.len() > 0 {
        lemma_be_value_bound(s.drop_last());
        let p = pow(256, (s.len() - 1) as nat);
        assert(pow(256, s.len()) == 256 * p) by {
            reveal(pow);
        }
        assert(be_value(s.drop_last()) * 256 + s.last() < 256 * p) by (nonlinear_arith)
            requires
                be_value(s.drop_last()) < p,
                s.last() < 256,
        ;
    } else {
        lemma_pow0(256);
    }
}

/// Decoding the `k`-byte big-endian encoding of `v` gives `v` modulo `256^k`.
pub proof fn lemma_be_round_trip(v: nat, k: nat)
    ensures
        be_value(be_bytes(v, k)) == v as int % pow(256, k),
    decreases k,
{
    if k == 0 {
        lemma_pow0(256);
        assert(v % 1 == 0);
    } else {
        let s = be_bytes(v, k);
        let p = pow(256, (k - 1) as nat);
        lemma_pow_positive(256, (k - 1) as nat);
        assert forall|i: int| 0 <= i < k - 1 implies s.drop_last()[i] == be_bytes(v / 256, (k - 1) as nat)[i] by {
            let j = (k - 2 - i) as nat;
            assert(pow(256, (j + 1) as nat) == 256 * pow(256, j)) by {
                reveal(pow);
            }
            assert((k - 1 - i) as nat == (j + 1) as nat);
            lemma_pow_positive(256, j);
            lemma_div_denominator(v as int, 256, pow(256, j));
        }
        assert(s.drop_last() =~= be_bytes(v / 256, (k - 1) as nat));
        lemma_pow0(256);
        assert(s.last() == (v % 256) as u8);
        lemma_be_round_trip(v / 256, (k - 1) as nat);
        lemma_mod_breakdown(v as int, 256, p);
        assert(pow(256, k) == 256 * p) by {
            reveal(pow);
        }
    }
}

/// Padding aligns a message to whole 1024-bit blocks and adds at least the
/// marker byte and the 16-byte length field.
pub proof fn lemma_padding_alignment(m: Seq<u8>)
    ensures
        padded(m).len() % 128 == 0,
        (padded(m).len() * 8) % 1024 == 0,
        padded(m).len() >= m.len() + 9,
{
    let n = m.len();
    let r = n % 128;
    assert(padded(m).len() == n + 1 + zero_fill_len(n) + 16);
    assert(n == 128 * (n / 128) + r);
    if r <= 111 {
        assert(zero_fill_len(n) == 111 - r);
        assert(padded(m).len() == 128 * (n / 128) + 128);
    } else {
        assert(zero_fill_len(n) == 239 - r);
        assert(padded(m).len() == 128 * (n / 128) + 256);
    }
    let l = padded(m).len();
    assert((l * 8) % 1024 == 0) by (nonlinear_arith)
        requires
            l % 128 == 0,
    ;
}

/// The last 16 bytes of a padded message, read big-endian, give the
/// message's length in bits.
pub proof fn lemma_length_recoverable(m: Seq<u8>)
    requires
        m.len() < MAX_MESSAGE_LEN,
    ensures
        be_value(padded(m).subrange(padded(m).len() - 16, padded(m).len() as int)) == m.len() * 8,
{
    let p = padded(m);
    assert(p.subrange(p.len() - 16, p.len() as int) =~= be_bytes(m.len() * 8, 16));
    lemma_be_round_trip(m.len() * 8, 16);
    lemma_pow256(8);
    lemma_pow_strictly_increases(256, 8, 16);
    lemma2_to64();
    lemma_small_mod(m.len() * 8, pow(256, 16) as nat);
}

/// Appends the `k` least significant bytes of `v`, most significant first.
pub fn push_be_bytes(out: &mut Vec<u8>, v: u64, k: usize)
    requires
        k <= 16,
    ensures
        final(out)@ == old(out)@ + be_bytes(v as nat, k as nat),
{
    let mut i: usize = 0;
    while i < k
        invariant
            i <= k <= 16,
            out@ == old(out)@ + be_bytes(v as nat, k as nat).take(i as int),
        decreases k - i,
    {
        let j: usize = k - 1 - i;
        let b: u8 = if j >= 8 {
            0
        } else {
            let shift: u64 = 8 * j as u64;
            ((v >> shift) & 0xff) as u8
        };
        proof {
            lemma_pow256(j as nat);
            let d = v as int / pow(256, j as nat);
            if j >= 8 {
                lemma_pow256(8);
                lemma2_to64();
                lemma_pow_increases(256, 8, j as nat);
                lemma_basic_div(v as int, pow(256, j as nat));
                assert(d == 0);
            } else {
                let shift: u64 = (8 * j) as u64;
                lemma_u64_shr_is_div(v, shift);
                let x = v >> shift;
                assert(x & 0xff == x % 256) by (bit_vector);
            }
            assert(b == (d % 256) as u8);
        }
        out.push(b);
        assert(out@ =~= old(out)@ + be_bytes(v as nat, k as nat).take(i + 1));
        i = i + 1;
    }
    assert(be_bytes(v as nat, k as nat).take(k as int) =~= be_bytes(v as nat, k as nat));
}

} // verus!
