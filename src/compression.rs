//! The message schedule and the 80-round compression function, with the
//! mathematical model of SHA-512 that the executable code is proved against.
use vstd::prelude::*;
use vstd::arithmetic::power::*;
use vstd::arithmetic::power2::*;
use crate::constants::{INITIAL_STATE, SHA_CONSTANTS};
use crate::helpers::{small_sigma0, small_sigma1, big_sigma0, big_sigma1, ch, maj, intermediate_hash_sigma0, intermediate_hash_sigma1};
use crate::padding::{be_value, padded, lemma_be_value_bound, lemma_pow256};

verus! {

/// Word `t` of the message schedule of `block`: the first sixteen are read
/// big-endian from the block, the rest mix four earlier words modulo 2^64.
pub open spec fn schedule_word(block: Seq<u8>, t: nat) -> u64
    decreases t,
{
    if t < 16 {
        be_value(block.subrange(8 * t as int, 8 * t as int + 8)) as u64
    } else {
        small_sigma1(schedule_word(block, (t - 2) as nat)).wrapping_add(
            schedule_word(block, (t - 7) as nat),
        ).wrapping_add(small_sigma0(schedule_word(block, (t - 15) as nat))).wrapping_add(
            schedule_word(block, (t - 16) as nat),
        )
    }
}

/// One compression round on the working variables `a..h`, with schedule word
/// `w` and round constant `k`.
pub open spec fn round(v: Seq<u64>, w: u64, k: u64) -> Seq<u64> {
    let t1 = v[7].wrapping_add(ch(v[4], v[5], v[6])).wrapping_add(big_sigma1(v[4])).wrapping_add(
        w,
    ).wrapping_add(k);
    let t2 = big_sigma0(v[0]).wrapping_add(maj(v[0], v[1], v[2]));
    seq![t1.wrapping_add(t2), v[0], v[1], v[2], v[3].wrapping_add(t1), v[4], v[5], v[6]]
}

/// The working variables after the first `n` rounds on `block`, from `h`.
pub open spec fn rounds(h: Seq<u64>, block: Seq<u8>, n: nat) -> Seq<u64>
    decreases n,
{
    if n == 0 {
        h
    } else {
        round(
            rounds(h, block, (n - 1) as nat),
            schedule_word(block, (n - 1) as nat),
            SHA_CONSTANTS@[n - 1],
        )
    }
}

/// The state after one block: the eighty rounds, fed forward into `h`.
pub open spec fn compress(h: Seq<u64>, block: Seq<u8>) -> Seq<u64> {
    let v = rounds(h, block, 80);
    Seq::new(8, |i: int| h[i].wrapping_add(v[i]))
}

/// The state after the first `n` 128-byte blocks of `msg`, from `h`, in order.
pub open spec fn process_blocks(h: Seq<u64>, msg: Seq<u8>, n: nat) -> Seq<u64>
    decreases n,
{
    if n == 0 {
        h
    } else {
        compress(process_blocks(h, msg, (n - 1) as nat), msg.subrange(128 * (n - 1), 128 * n as int))
    }
}

/// The SHA-512 hash of `m`, as eight words.
pub open spec fn sha512(m: Seq<u8>) -> Seq<u64> {
    let p = padded(m);
    process_blocks(INITIAL_STATE@, p, p.len() / 128)
}

/// Reads word `t` of a block big-endian.
fn read_be_word(block: &[u8; 128], t: usize) -> (r: u64)
    requires
        t < 16,
    ensures
        r == schedule_word(block@, t as nat),
{
    let mut acc: u64 = 0;
    let mut j: usize = 0;
    while j < 8
        invariant
            j <= 8,
            t < 16,
            block@.len() == 128,
            acc as nat == be_value(block@.subrange(8 * t, 8 * t + j)),
        decreases 8 - j,
    {
        proof {
            lemma_be_value_bound(block@.subrange(8 * t, 8 * t + j));
            lemma_pow_increases(256, j as nat, 7);
            lemma_pow256(7);
            lemma2_to64_rest();
            assert(block@.subrange(8 * t, 8 * t + j).len() == j);
            assert(acc < pow(256, j as nat));
            assert(pow2(8 * 7) == pow(256, 7));
            assert(pow2(56) == 0x100000000000000);
            assert(pow(256, 7) == 0x100000000000000);
            assert(acc < 0x100000000000000);
            assert(acc * 256 + 255 < 0x10000000000000000) by (nonlinear_arith)
                requires
                    acc < 0x100000000000000,
            ;
        }
        acc = acc * 256 + block[8 * t + j] as u64;
        assert(block@.subrange(8 * t, 8 * t + j + 1).drop_last() =~= block@.subrange(
            8 * t,
            8 * t + j,
        ));
        j = j + 1;
    }
    acc
}

/// Expands a block into its eighty-word message schedule.
pub fn message_schedule(block: &[u8; 128]) -> (w: Vec<u64>)
    ensures
        w@.len() == 80,
        forall|t: int| 0 <= t < 80 ==> w@[t] == schedule_word(block@, t as nat),
{
    let mut w: Vec<u64> = Vec::new();
    let mut t: usize = 0;
    while t < 16
        invariant
            t <= 16,
            w@.len() == t,
            forall|i: int| 0 <= i < t ==> w@[i] == schedule_word(block@, i as nat),
        decreases 16 - t,
    {
        let x = read_be_word(block, t);
        w.push(x);
        t = t + 1;
    }
    while t < 80
        invariant
            16 <= t <= 80,
            w@.len() == t,
            forall|i: int| 0 <= i < t ==> w@[i] == schedule_word(block@, i as nat),
        decreases 80 - t,
    {
        let x = intermediate_hash_sigma1(w[t - 2]).wrapping_add(w[t - 7]).wrapping_add(
            intermediate_hash_sigma0(w[t - 15]),
        ).wrapping_add(w[t - 16]);
        w.push(x);
        t = t + 1;
    }
    w
}

} // verus!
