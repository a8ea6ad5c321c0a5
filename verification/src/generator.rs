//! Deterministic content generator keyed purely by absolute byte offset.
//!
//! A 64-bit seed is derived from the offset by an avalanche mixing function
//! (golden-ratio additive step plus two xor-shift-multiply rounds), and the
//! seed is expanded through a counter-based pseudorandom generator, one byte
//! at a time. The stream for a given offset is identical across calls,
//! processes and machines, which is what lets verification happen without
//! storing a reference copy of the written data.
use vstd::prelude::*;

verus! {

use vstd::wrapping::u64_specs;

/// Additive step of the mixing function: 2^64 divided by the golden ratio.
pub const SEED_INCREMENT: u64 = 0x9E3779B97F4A7C15;

pub const MIX_MULTIPLIER_ONE: u64 = 0xBF58476D1CE4E5B9;

pub const MIX_MULTIPLIER_TWO: u64 = 0x94D049BB133111EB;

/// Avalanche finalizer: two xor-shift-multiply rounds and a final xor-shift.
pub open spec fn mix64(z0: u64) -> u64 {
    let z1 = u64_specs::wrapping_mul(z0 ^ (z0 >> 30u64), MIX_MULTIPLIER_ONE);
    let z2 = u64_specs::wrapping_mul(z1 ^ (z1 >> 27u64), MIX_MULTIPLIER_TWO);
    z2 ^ (z2 >> 31u64)
}

/// The seed that keys the byte stream for a given absolute offset. The
/// additive step is applied before mixing, so offset 0 does not collapse
/// the generator into an all-zero state.
pub open spec fn seed_of(offset: u64) -> u64 {
    mix64(u64_specs::wrapping_add(offset, SEED_INCREMENT))
}

/// Internal counter state of the generator after `words` 64-bit words have
/// been produced from `seed`.
pub open spec fn gen_state(seed: u64, words: nat) -> u64
    decreases words,
{
    if words == 0 {
        seed
    } else {
        u64_specs::wrapping_add(gen_state(seed, (words - 1) as nat), SEED_INCREMENT)
    }
}

/// The `n`-th 64-bit word of the stream keyed by `seed`.
pub open spec fn word_of(seed: u64, n: nat) -> u64 {
    mix64(gen_state(seed, n + 1))
}

/// The `i`-th byte of the stream keyed by `seed`: the little-endian bytes of
/// each 64-bit word, in word order.
pub open spec fn stream_byte(seed: u64, i: nat) -> u8 {
    ((word_of(seed, i / 8) >> (((i % 8) * 8) as u64)) & 0xFF) as u8
}

/// The `i`-th byte of the deterministic pattern for absolute `offset`.
pub open spec fn pattern_byte(offset: u64, i: nat) -> u8 {
    stream_byte(seed_of(offset), i)
}

/// `data` is exactly the deterministic pattern generated for `offset`.
pub open spec fn block_matches(offset: u64, data: Seq<u8>) -> bool {
    forall|i: int| 0 <= i < data.len() ==> data[i] == pattern_byte(offset, i as nat)
}

/// Derives the 64-bit stream seed for an absolute byte offset.
pub fn generate_seed(offset: u64) -> (r: u64)
    ensures
        r == seed_of(offset),
{
    let z0 = offset.wrapping_add(SEED_INCREMENT);
    let z1 = (z0 ^ (z0 >> 30u64)).wrapping_mul(MIX_MULTIPLIER_ONE);
    let z2 = (z1 ^ (z1 >> 27u64)).wrapping_mul(MIX_MULTIPLIER_TWO);
    z2 ^ (z2 >> 31u64)
}

proof fn lemma_shr_byte_step(w: u64, sh: u64)
    by (bit_vector)
    requires
        sh <= 48,
    ensures
        (w >> sh) >> 8u64 == w >> (sh + 8),
{
}

/// Counter-based pseudorandom generator: each 64-bit word is the avalanche
/// mix of an advancing counter, and words are handed out one byte at a time,
/// least-significant byte first.
struct SplitMix64 {
    state: u64,
    buffer: u64,
    available: u8,
    seed: Ghost<u64>,
    emitted: Ghost<nat>,
}

impl SplitMix64 {
    /// Number of 64-bit words drawn from the counter after `emitted` bytes.
    spec fn words_consumed(emitted: nat) -> nat {
        (emitted + 7) / 8
    }

    spec fn wf(self) -> bool {
        &&& self.state == gen_state(self.seed@, Self::words_consumed(self.emitted@))
        &&& (self.emitted@ % 8 == 0 ==> self.available == 0)
        &&& (self.emitted@ % 8 != 0 ==> {
            &&& self.available as nat == 8 - (self.emitted@ % 8)
            &&& self.buffer == word_of(self.seed@, self.emitted@ / 8) >> (((self.emitted@ % 8)
                * 8) as u64)
        })
    }

    fn new(seed: u64) -> (r: Self)
        ensures
            r.wf(),
            r.seed@ == seed,
            r.emitted@ == 0,
    {
        Self { state: seed, buffer: 0, available: 0, seed: Ghost(seed), emitted: Ghost(0nat) }
    }

    fn next_u64(&mut self) -> (r: u64)
        ensures
            final(self).state == u64_specs::wrapping_add(old(self).state, SEED_INCREMENT),
            r == mix64(final(self).state),
            final(self).buffer == old(self).buffer,
            final(self).available == old(self).available,
            final(self).seed == old(self).seed,
            final(self).emitted == old(self).emitted,
    {
        self.state = self.state.wrapping_add(SEED_INCREMENT);
        let z = self.state;
        let z1 = (z ^ (z >> 30u64)).wrapping_mul(MIX_MULTIPLIER_ONE);
        let z2 = (z1 ^ (z1 >> 27u64)).wrapping_mul(MIX_MULTIPLIER_TWO);
        z2 ^ (z2 >> 31u64)
    }

    fn next_u8(&mut self) -> (r: u8)
        requires
            old(self).wf(),
        ensures
            final(self).wf(),
            final(self).seed == old(self).seed,
            final(self).emitted@ == old(self).emitted@ + 1,
            r == stream_byte(old(self).seed@, old(self).emitted@),
    {
        let ghost seed = self.seed@;
        let ghost emitted = self.emitted@;
        if self.available == 0 {
            let word = self.next_u64();
            proof {
                assert(emitted % 8 == 0);
                assert(Self::words_consumed(emitted + 1) == Self::words_consumed(emitted) + 1);
                assert(gen_state(seed, Self::words_consumed(emitted) + 1)
                    == u64_specs::wrapping_add(
                    gen_state(seed, Self::words_consumed(emitted)),
                    SEED_INCREMENT,
                ));
                assert((emitted + 1) / 8 == emitted / 8);
                assert(Self::words_consumed(emitted) == emitted / 8);
                assert(word == word_of(seed, emitted / 8));
            }
            self.buffer = word;
            self.available = 8;
        }
        let ghost k = emitted % 8;
        let ghost w = word_of(seed, emitted / 8);
        proof {
            assert(w >> 0u64 == w) by (bit_vector);
            assert(self.buffer == w >> ((k * 8) as u64));
        }
        let ghost bb = self.buffer;
        proof {
            assert(bb & 0xFF < 256) by (bit_vector);
        }
        let byte = (self.buffer & 0xFF) as u8;
        self.buffer = self.buffer >> 8u64;
        self.available = self.available - 1;
        proof {
            if k < 7 {
                lemma_shr_byte_step(w, (k * 8) as u64);
            }
            assert((emitted + 1) % 8 == if k == 7 { 0nat } else { k + 1 });
            assert(Self::words_consumed(emitted + 1) == Self::words_consumed(emitted) + (if k == 0 {
                1nat
            } else {
                0nat
            }));
            if k != 7 {
                assert((emitted + 1) / 8 == emitted / 8);
            }
        }
        self.emitted = Ghost(emitted + 1);
        byte
    }
}

/// Fills the whole buffer with the deterministic pattern for `offset`:
/// afterwards byte `i` equals `pattern_byte(offset, i)`.
pub fn fill_block(offset: u64, buffer: &mut Vec<u8>)
    ensures
        final(buffer)@.len() == old(buffer)@.len(),
        block_matches(offset, final(buffer)@),
{
    let seed = generate_seed(offset);
    let mut rng = SplitMix64::new(seed);
    let n = buffer.len();
    let mut i: usize = 0;
    while i < n
        invariant
            i <= n,
            n == buffer@.len(),
            rng.wf(),
            rng.seed@ == seed,
            rng.emitted@ == i as nat,
            seed == seed_of(offset),
            forall|j: int| 0 <= j < i ==> buffer@[j] == pattern_byte(offset, j as nat),
        decreases n - i,
    {
        let b = rng.next_u8();
        buffer.set(i, b);
        i = i + 1;
    }
}

/// Regenerates the pattern for `offset` and compares it byte-by-byte against
/// the buffer. Succeeds exactly when the buffer is the pattern; on the first
/// divergence, returns its index.
pub fn verify_block(offset: u64, buffer: &Vec<u8>) -> (r: Result<(), usize>)
    ensures
        r is Ok <==> block_matches(offset, buffer@),
        r matches Err(j) ==> {
            &&& j < buffer@.len()
            &&& buffer@[j as int] != pattern_byte(offset, j as nat)
            &&& forall|i: int| 0 <= i < j ==> buffer@[i] == pattern_byte(offset, i as nat)
        },
{
    let seed = generate_seed(offset);
    let mut rng = SplitMix64::new(seed);
    let n = buffer.len();
    let mut i: usize = 0;
    while i < n
        invariant
            i <= n,
            n == buffer@.len(),
            rng.wf(),
            rng.seed@ == seed,
            rng.emitted@ == i as nat,
            seed == seed_of(offset),
            forall|j: int| 0 <= j < i ==> buffer@[j] == pattern_byte(offset, j as nat),
        decreases n - i,
    {
        let expected = rng.next_u8();
        if *buffer.get(i).unwrap() != expected {
            return Err(i);
        }
        i = i + 1;
    }
    Ok(())
}

/// Allocates a zero-filled block buffer of the given length.
pub fn zero_block(len: usize) -> (v: Vec<u8>)
    ensures
        v@.len() == len,
        forall|i: int| 0 <= i < len ==> v@[i] == 0,
{
    let mut v: Vec<u8> = Vec::new();
    let mut i: usize = 0;
    while i < len
        invariant
            i <= len,
            v@.len() == i,
            forall|j: int| 0 <= j < i ==> v@[j] == 0,
        decreases len - i,
    {
        v.push(0);
        i = i + 1;
    }
    v
}

/// Multiplicative inverse of `MIX_MULTIPLIER_ONE` modulo 2^64.
pub const INV_MULTIPLIER_ONE: u64 = 0x96DE1B173F119089;

/// Multiplicative inverse of `MIX_MULTIPLIER_TWO` modulo 2^64.
pub const INV_MULTIPLIER_TWO: u64 = 0x319642B2D24D8EC3;

proof fn lemma_xorshift30_injective(x: u64, y: u64)
    by (bit_vector)
    requires
        x ^ (x >> 30u64) == y ^ (y >> 30u64),
    ensures
        x == y,
{
}

proof fn lemma_xorshift27_injective(x: u64, y: u64)
    by (bit_vector)
    requires
        x ^ (x >> 27u64) == y ^ (y >> 27u64),
    ensures
        x == y,
{
}

proof fn lemma_xorshift31_injective(x: u64, y: u64)
    by (bit_vector)
    requires
        x ^ (x >> 31u64) == y ^ (y >> 31u64),
    ensures
        x == y,
{
}

/// Multiplication by a unit modulo 2^64 is injective: equal wrapping
/// products by a constant with a known modular inverse force equal factors.
proof fn lemma_wrapping_mul_cancel(x: u64, y: u64, c: u64, cinv: u64)
    requires
        (c * cinv) % 0x1_0000_0000_0000_0000 == 1,
        u64_specs::wrapping_mul(x, c) == u64_specs::wrapping_mul(y, c),
    ensures
        x == y,
{
    let m: int = 0x1_0000_0000_0000_0000;
    assert(u64_specs::wrapping_mul(x, c) == ((x * c) % m) as u64);
    assert(u64_specs::wrapping_mul(y, c) == ((y * c) % m) as u64);
    assert((x * c) % m == (y * c) % m);
    vstd::arithmetic::div_mod::lemma_small_mod(x as nat, m as nat);
    vstd::arithmetic::div_mod::lemma_small_mod(y as nat, m as nat);
    vstd::arithmetic::div_mod::lemma_mul_mod_noop_right(x as int, c * cinv, m);
    vstd::arithmetic::div_mod::lemma_mul_mod_noop_right(y as int, c * cinv, m);
    vstd::arithmetic::mul::lemma_mul_is_associative(x as int, c as int, cinv as int);
    vstd::arithmetic::mul::lemma_mul_is_associative(y as int, c as int, cinv as int);
    vstd::arithmetic::div_mod::lemma_mul_mod_noop_left(x * c, cinv as int, m);
    vstd::arithmetic::div_mod::lemma_mul_mod_noop_left(y * c, cinv as int, m);
    assert(x as int == (x * ((c * cinv) % m)) % m);
    assert((x * ((c * cinv) % m)) % m == ((x * c) * cinv) % m);
    assert(((x * c) * cinv) % m == (((x * c) % m) * cinv) % m);
    assert((((y * c) % m) * cinv) % m == y as int);
}

/// Adding a constant modulo 2^64 is injective.
proof fn lemma_wrapping_add_cancel(x: u64, y: u64, c: u64)
    requires
        u64_specs::wrapping_add(x, c) == u64_specs::wrapping_add(y, c),
    ensures
        x == y,
{
}

/// The avalanche finalizer is injective: every round is invertible.
proof fn lemma_mix64_injective(a: u64, b: u64)
    requires
        mix64(a) == mix64(b),
    ensures
        a == b,
{
    let a1 = a ^ (a >> 30u64);
    let z1a = u64_specs::wrapping_mul(a1, MIX_MULTIPLIER_ONE);
    let b1a = z1a ^ (z1a >> 27u64);
    let z2a = u64_specs::wrapping_mul(b1a, MIX_MULTIPLIER_TWO);
    let a2 = b ^ (b >> 30u64);
    let z1b = u64_specs::wrapping_mul(a2, MIX_MULTIPLIER_ONE);
    let b1b = z1b ^ (z1b >> 27u64);
    let z2b = u64_specs::wrapping_mul(b1b, MIX_MULTIPLIER_TWO);
    assert(mix64(a) == z2a ^ (z2a >> 31u64));
    assert(mix64(b) == z2b ^ (z2b >> 31u64));
    lemma_xorshift31_injective(z2a, z2b);
    assert((MIX_MULTIPLIER_TWO * INV_MULTIPLIER_TWO) % 0x1_0000_0000_0000_0000 == 1);
    lemma_wrapping_mul_cancel(b1a, b1b, MIX_MULTIPLIER_TWO, INV_MULTIPLIER_TWO);
    lemma_xorshift27_injective(z1a, z1b);
    assert((MIX_MULTIPLIER_ONE * INV_MULTIPLIER_ONE) % 0x1_0000_0000_0000_0000 == 1);
    lemma_wrapping_mul_cancel(a1, a2, MIX_MULTIPLIER_ONE, INV_MULTIPLIER_ONE);
    lemma_xorshift30_injective(a, b);
}

/// Seed separation, in general: distinct offsets always derive distinct
/// seeds, because the additive step and every mixing round are invertible.
pub proof fn lemma_seed_injective(o1: u64, o2: u64)
    requires
        o1 != o2,
    ensures
        seed_of(o1) != seed_of(o2),
{
    if seed_of(o1) == seed_of(o2) {
        lemma_mix64_injective(
            u64_specs::wrapping_add(o1, SEED_INCREMENT),
            u64_specs::wrapping_add(o2, SEED_INCREMENT),
        );
        lemma_wrapping_add_cancel(o1, o2, SEED_INCREMENT);
    }
}

/// Offset 0 does not collapse the generator: its seed is not the all-zero
/// state, because the additive step runs before the mixing rounds.
pub proof fn lemma_seed_nonzero()
    ensures
        seed_of(0) != 0,
{
    let s = SEED_INCREMENT;
    assert(u64_specs::wrapping_add(0, s) == s);
    assert(s ^ (s >> 30u64) == 0x9E3779BB07979AF0u64) by (bit_vector)
        requires
            s == 0x9E3779B97F4A7C15u64,
    ;
    assert(u64_specs::wrapping_mul(0x9E3779BB07979AF0, MIX_MULTIPLIER_ONE)
        == 0x6F68261B57E7A770);
    assert(0x6F68261B57E7A770u64 ^ (0x6F68261B57E7A770u64 >> 27u64) == 0x6F682616BAE3641Au64)
        by (bit_vector);
    assert(u64_specs::wrapping_mul(0x6F682616BAE3641A, MIX_MULTIPLIER_TWO)
        == 0xE220A838BF5C9DDE);
    assert(0xE220A838BF5C9DDEu64 ^ (0xE220A838BF5C9DDEu64 >> 31u64) == 0xE220A8397B1DCDAFu64)
        by (bit_vector);
    assert(seed_of(0) == 0xE220A8397B1DCDAFu64);
}

/// Determinism: any two buffers of equal length that both hold the pattern
/// for the same offset are identical, so two independent fills at one offset
/// produce the same bytes.
pub proof fn lemma_fill_deterministic(offset: u64, a: Seq<u8>, b: Seq<u8>)
    requires
        a.len() == b.len(),
        block_matches(offset, a),
        block_matches(offset, b),
    ensures
        a == b,
{
    assert(a =~= b);
}

/// Round trip: against a buffer `filled` produced by the generator for
/// `offset`, a candidate of the same length verifies exactly when it is
/// byte-for-byte equal to `filled`.
pub proof fn lemma_verify_roundtrip(offset: u64, filled: Seq<u8>, candidate: Seq<u8>)
    requires
        filled.len() == candidate.len(),
        block_matches(offset, filled),
    ensures
        block_matches(offset, candidate) <==> candidate == filled,
{
    if block_matches(offset, candidate) {
        assert(candidate =~= filled);
    }
}

} // verus!
