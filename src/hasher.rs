//! The SHA-512 engine: owns the running state, pads a message and feeds its
//! blocks through the compression function.
use vstd::prelude::*;
use crate::constants::{INITIAL_STATE, SHA_CONSTANTS, BLOCK_SIZE, HASH_SIZE};
use crate::helpers::{choice, majority, final_hash_sigma0, final_hash_sigma1};
use crate::padding::{MAX_MESSAGE_LEN, padded, push_be_bytes, lemma_padding_alignment};
use crate::compression::{schedule_word, rounds, round, compress, process_blocks, sha512, message_schedule};
use crate::format::{digest_bytes, hex_string, decimal_string, decimal_text, hex_text, bytes_text, lemma_digest_bytes_len, lemma_hex_string_len};

verus! {

/// Why a message cannot be hashed.
#[derive(Debug, Clone, Copy, PartialEq, Eq, Structural)]
pub enum HashError {
    /// The message's length in bits does not fit in 64 bits.
    LengthOverflow,
}

/// A SHA-512 engine for one message.
pub struct SHA512Hasher {
    state: [u64; HASH_SIZE],
    block_count: usize,
    message: Option<Vec<u8>>,
}

/// What a `SHA512Hasher` holds, as mathematical values.
pub struct HasherView {
    /// The running hash state.
    pub state: Seq<u64>,
    /// How many blocks have been processed.
    pub block_count: nat,
    /// The padded message, once one was given.
    pub message: Option<Seq<u8>>,
}

impl View for SHA512Hasher {
    type V = HasherView;

    closed spec fn view(&self) -> HasherView {
        HasherView {
            state: self.state@,
            block_count: self.block_count as nat,
            message: match self.message {
                Some(m) => Some(m@),
                None => None,
            },
        }
    }
}

impl SHA512Hasher {
    /// The state has eight words and a held message consists of whole blocks.
    pub open spec fn wf(&self) -> bool {
        &&& self@.state.len() == 8
        &&& self@.message matches Some(m) ==> m.len() % 128 == 0
    }

    /// Number of blocks in the held message.
    pub open spec fn pending_blocks(&self) -> nat {
        match self@.message {
            Some(m) => m.len() / 128,
            None => 0,
        }
    }

    /// A fresh engine: the initial hash value, no block processed, no message.
    pub fn new() -> (r: Self)
        ensures
            r.wf(),
            r@.state == INITIAL_STATE@,
            r@.block_count == 0,
            r@.message is None,
    {
        SHA512Hasher { state: INITIAL_STATE, block_count: 0, message: None }
    }

    /// Pads `message` and holds the result for `update`. A message whose bit
    /// length does not fit in 64 bits is refused and nothing changes.
    pub fn pad(&mut self, message: Vec<u8>) -> (r: Result<(), HashError>)
        ensures
            message@.len() < MAX_MESSAGE_LEN ==> {
                &&& r is Ok
                &&& final(self)@.message == Some(padded(message@))
                &&& final(self)@.state == old(self)@.state
                &&& final(self)@.block_count == old(self)@.block_count
            },
            message@.len() >= MAX_MESSAGE_LEN ==> {
                &&& r == Err::<(), HashError>(HashError::LengthOverflow)
                &&& final(self)@ == old(self)@
            },
            old(self).wf() ==> final(self).wf(),
    {
        if message.len() as u64 >= MAX_MESSAGE_LEN {
            return Err(HashError::LengthOverflow);
        }
        let mut message = message;
        let ghost m = message@;
        let original_len: u64 = message.len() as u64 * 8;
        let fill: usize = (239 - message.len() % 128) % 128;
        message.push(0x80);
        let mut i: usize = 0;
        while i < fill
            invariant
                i <= fill,
                fill == crate::padding::zero_fill_len(m.len()),
                message@ == m.push(0x80u8) + Seq::new(i as nat, |k: int| 0u8),
            decreases fill - i,
        {
            message.push(0x00);
            assert(message@ =~= m.push(0x80u8) + Seq::new((i + 1) as nat, |k: int| 0u8));
            i = i + 1;
        }
        push_be_bytes(&mut message, original_len, 16);
        proof {
            lemma_padding_alignment(m);
        }
        assert(message@ =~= padded(m));
        self.message = Some(message);
        Ok(())
    }

    /// Runs the eighty rounds on one block and feeds the result forward into
    /// the state.
    pub fn process_block(&mut self, block: &[u8; BLOCK_SIZE])
        requires
            old(self).wf(),
        ensures
            final(self).wf(),
            final(self)@.state == compress(old(self)@.state, block@),
            final(self)@.block_count == old(self)@.block_count,
            final(self)@.message == old(self)@.message,
    {
        let words = message_schedule(block);
        let h0 = self.state;
        let mut a = h0[0];
        let mut b = h0[1];
        let mut c = h0[2];
        let mut d = h0[3];
        let mut e = h0[4];
        let mut f = h0[5];
        let mut g = h0[6];
        let mut h = h0[7];
        let mut t: usize = 0;
        assert(seq![a, b, c, d, e, f, g, h] =~= rounds(h0@, block@, 0));
        while t < 80
            invariant
                t <= 80,
                h0@.len() == 8,
                words@.len() == 80,
                forall|i: int| 0 <= i < 80 ==> words@[i] == schedule_word(block@, i as nat),
                seq![a, b, c, d, e, f, g, h] == rounds(h0@, block@, t as nat),
            decreases 80 - t,
        {
            let ghost v = seq![a, b, c, d, e, f, g, h];
            let t1 = h.wrapping_add(choice(e, f, g)).wrapping_add(final_hash_sigma1(e)).wrapping_add(
                words[t],
            ).wrapping_add(SHA_CONSTANTS[t]);
            let t2 = final_hash_sigma0(a).wrapping_add(majority(a, b, c));
            h = g;
            g = f;
            f = e;
            e = d.wrapping_add(t1);
            d = c;
            c = b;
            b = a;
            a = t1.wrapping_add(t2);
            assert(seq![a, b, c, d, e, f, g, h] =~= round(v, words@[t as int], SHA_CONSTANTS@[t as int]));
            t = t + 1;
        }
        self.state = [
            a.wrapping_add(h0[0]),
            b.wrapping_add(h0[1]),
            c.wrapping_add(h0[2]),
            d.wrapping_add(h0[3]),
            e.wrapping_add(h0[4]),
            f.wrapping_add(h0[5]),
            g.wrapping_add(h0[6]),
            h.wrapping_add(h0[7]),
        ];
        assert(self.state@ =~= compress(h0@, block@));
    }

    /// Processes every block of the held message, in order, on top of the
    /// current state. Without a message nothing changes.
    pub fn update(&mut self)
        requires
            old(self).wf(),
            old(self)@.block_count + old(self).pending_blocks() <= usize::MAX,
        ensures
            final(self).wf(),
            final(self)@.message == old(self)@.message,
            final(self)@.block_count == old(self)@.block_count + old(self).pending_blocks(),
            final(self)@.state == match old(self)@.message {
                Some(m) => process_blocks(old(self)@.state, m, m.len() / 128),
                None => old(self)@.state,
            },
    {
        let taken = self.message.take();
        if let Some(msg) = taken {
            let ghost m = msg@;
            let len: usize = msg.len();
            let n: usize = len / BLOCK_SIZE;
            let mut i: usize = 0;
            while i < n
                invariant
                    i <= n,
                    n == m.len() / 128,
                    len == m.len(),
                    msg@ == m,
                    m.len() % 128 == 0,
                    self.wf(),
                    self@.message is None,
                    self@.state == process_blocks(old(self)@.state, m, i as nat),
                    self@.block_count == old(self)@.block_count + i,
                    old(self)@.block_count + n <= usize::MAX,
                decreases n - i,
            {
                assert(128 * i + 128 <= m.len()) by (nonlinear_arith)
                    requires
                        i < n,
                        n == m.len() / 128,
                ;
                let offset: usize = i * BLOCK_SIZE;
                let mut block = [0u8; BLOCK_SIZE];
                let mut j: usize = 0;
                while j < BLOCK_SIZE
                    invariant
                        j <= 128,
                        offset == 128 * i,
                        128 * i + 128 <= m.len(),
                        msg@ == m,
                        block@.len() == 128,
                        forall|k: int| 0 <= k < j ==> block@[k] == m[offset + k],
                    decreases 128 - j,
                {
                    block[j] = msg[offset + j];
                    j = j + 1;
                }
                assert(block@ =~= m.subrange(128 * i, 128 * (i + 1)));
                self.process_block(&block);
                self.block_count = self.block_count + 1;
                i = i + 1;
            }
            self.message = Some(msg);
        }
    }

    /// The current hash state; after `update`, the digest.
    pub fn finalize(&self) -> (r: [u64; HASH_SIZE])
        ensures
            r@ == self@.state,
    {
        self.state
    }

    /// How many blocks have been processed.
    pub fn block_count(&self) -> (r: usize)
        ensures
            r == self@.block_count,
    {
        self.block_count
    }

    /// The padded message held for `update`, if any.
    pub fn padded_message(&self) -> (r: Option<&Vec<u8>>)
        ensures
            match r {
                Some(v) => self@.message == Some(v@),
                None => self@.message is None,
            },
    {
        self.message.as_ref()
    }

    /// The state as bytes, each word big-endian.
    pub fn to_bytes(&self) -> (r: Vec<u8>)
        ensures
            r@ == digest_bytes(self@.state),
    {
        bytes_text(&self.state)
    }

    /// The state as the decimal digits of each word, one after another.
    pub fn to_hash(&self) -> (r: String)
        ensures
            r@ == decimal_string(self@.state),
    {
        decimal_text(&self.state)
    }

    /// The state in hexadecimal: sixteen upper-case digits per word.
    pub fn to_hex_hash(&self) -> (r: String)
        ensures
            r@ == hex_string(self@.state),
    {
        hex_text(&self.state)
    }
}

/// The state after any number of blocks has eight words.
pub proof fn lemma_process_blocks_len(h: Seq<u64>, msg: Seq<u8>, n: nat)
    requires
        h.len() == 8,
    ensures
        process_blocks(h, msg, n).len() == 8,
    decreases n,
{
    if n > 0 {
        lemma_process_blocks_len(h, msg, (n - 1) as nat);
    }
}

/// The digest of every message is 64 bytes, or 128 hexadecimal digits,
/// the empty message included.
pub proof fn lemma_digest_size(m: Seq<u8>)
    ensures
        sha512(m).len() == 8,
        digest_bytes(sha512(m)).len() == 64,
        hex_string(sha512(m)).len() == 128,
{
    let p = padded(m);
    lemma_process_blocks_len(INITIAL_STATE@, p, p.len() / 128);
    lemma_digest_bytes_len(sha512(m));
    lemma_hex_string_len(sha512(m));
}

/// Hashing is a function of the message alone: equal messages have equal
/// digests, however often and wherever they are hashed.
pub proof fn lemma_hash_deterministic(m1: Seq<u8>, m2: Seq<u8>)
    requires
        m1 == m2,
    ensures
        digest_bytes(sha512(m1)) == digest_bytes(sha512(m2)),
        hex_string(sha512(m1)) == hex_string(sha512(m2)),
{
}

/// The SHA-512 digest of `message`, as 64 bytes. A message whose bit length
/// does not fit in 64 bits is refused.
pub fn hash(message: &[u8]) -> (r: Result<Vec<u8>, HashError>)
    ensures
        match r {
            Ok(d) => {
                &&& message@.len() < MAX_MESSAGE_LEN
                &&& d@ == digest_bytes(sha512(message@))
                &&& d@.len() == 64
            },
            Err(e) => message@.len() >= MAX_MESSAGE_LEN && e == HashError::LengthOverflow,
        },
{
    if message.len() as u64 >= MAX_MESSAGE_LEN {
        return Err(HashError::LengthOverflow);
    }
    let mut hasher = SHA512Hasher::new();
    let _ = hasher.pad(vstd::slice::slice_to_vec(message));
    proof {
        lemma_padding_alignment(message@);
        lemma_digest_size(message@);
    }
    hasher.update();
    Ok(hasher.to_bytes())
}

} // verus!
