//! The 32-bit MurmurHash3 of a sequence of 32-bit words, by which the sectors
//! of the suspend marker are checked.

use vstd::prelude::*;
use vstd::wrapping::u32_specs::{wrapping_add, wrapping_mul};

verus! {

/// Multipliers of the word scrambler.
pub const K1: u32 = 0xcc9e_2d51;

pub const K2: u32 = 0x1b87_3593;

/// Multiplier and increment of the state update.
pub const M: u32 = 5;

pub const N: u32 = 0xe654_6b64;

/// Multipliers of the finalizer.
pub const F1: u32 = 0x85eb_ca6b;

pub const F2: u32 = 0xc2b2_ae35;

/// Most words that can be hashed: their byte count has to fit in 32 bits.
pub const MAX_WORDS: usize = 0x3fff_ffff;

/// Number of words in the data part of one marker sector.
pub const SECTOR_DATA_WORDS: usize = 127;

/// Hash of 127 zero words with seed zero.
pub const ZERO_SECTOR_HASH: u32 = 0x0c96_0b2d;

/// `x` rotated left by `r` bits, for `0 < r < 32`.
pub open spec fn rotl(x: u32, r: u32) -> u32 {
    (x << r) | (x >> ((32 - r) as u32))
}

/// A data word, scrambled before it enters the state.
pub open spec fn calc_k(word: u32) -> u32 {
    wrapping_mul(rotl(wrapping_mul(word, K1), 15), K2)
}

/// The state after one more word.
pub open spec fn mix(state: u32, word: u32) -> u32 {
    wrapping_add(wrapping_mul(rotl(state ^ calc_k(word), 13), M), N)
}

/// The hash from the state after the last word and the number of bytes
/// hashed.
pub open spec fn finish(state: u32, processed: u32) -> u32 {
    let a = state ^ processed;
    let b = wrapping_mul(a ^ (a >> 16), F1);
    let c = wrapping_mul(b ^ (b >> 13), F2);
    c ^ (c >> 16)
}

/// The state after all of `words`, starting from `seed`.
pub open spec fn fold(words: Seq<u32>, seed: u32) -> u32
    decreases words.len(),
{
    if words.len() == 0 {
        seed
    } else {
        mix(fold(words.drop_last(), seed), words.last())
    }
}

/// MurmurHash3 (32-bit) of the little-endian bytes of `words`.
pub open spec fn spec_murmur3_32(words: Seq<u32>, seed: u32) -> u32 {
    finish(fold(words, seed), (4 * words.len()) as u32)
}

fn rotate_left(x: u32, r: u32) -> (y: u32)
    requires
        0 < r < 32,
    ensures
        y == rotl(x, r),
{
    (x << r) | (x >> (32 - r))
}

fn mix_word(state: u32, word: u32) -> (next: u32)
    ensures
        next == mix(state, word),
{
    let k = rotate_left(word.wrapping_mul(K1), 15).wrapping_mul(K2);
    rotate_left(state ^ k, 13).wrapping_mul(M).wrapping_add(N)
}

fn finish_hash(state: u32, processed: u32) -> (hash: u32)
    ensures
        hash == finish(state, processed),
{
    let a = state ^ processed;
    let b = (a ^ (a >> 16)).wrapping_mul(F1);
    let c = (b ^ (b >> 13)).wrapping_mul(F2);
    c ^ (c >> 16)
}

/// Hashes `source` with `seed`.
pub fn murmur3_32(source: &[u32], seed: u32) -> (hash: u32)
    requires
        source@.len() <= MAX_WORDS,
    ensures
        hash == spec_murmur3_32(source@, seed),
{
    let mut state = seed;
    let mut i: usize = 0;
    while i < source.len()
        invariant
            i <= source@.len() <= MAX_WORDS,
            state == fold(source@.take(i as int), seed),
        decreases source@.len() - i,
    {
        assert(source@.take(i + 1).drop_last() =~= source@.take(i as int));
        state = mix_word(state, source[i]);
        i = i + 1;
    }
    assert(source@.take(i as int) =~= source@);
    let processed: u32 = (4 * i) as u32;
    finish_hash(state, processed)
}

proof fn lemma_multipliers_invert(x: u32)
    by (bit_vector)
    ensures
        wrapping_mul(wrapping_mul(x, K1), 0xdee1_3bb1) == x,
        wrapping_mul(wrapping_mul(x, K2), 0x56ed_309b) == x,
        wrapping_mul(wrapping_mul(x, M), 0xcccc_cccd) == x,
        wrapping_mul(wrapping_mul(x, F1), 0xa5cb_9243) == x,
        wrapping_mul(wrapping_mul(x, F2), 0x7ed1_b41d) == x,
{
}

proof fn lemma_rotations_invert(x: u32)
    by (bit_vector)
    ensures
        rotl(rotl(x, 15), 17) == x,
        rotl(rotl(x, 13), 19) == x,
{
}

proof fn lemma_xor_shift_inverts(x: u32)
    by (bit_vector)
    ensures
        ({
            let y = x ^ (x >> 16);
            y ^ (y >> 16)
        }) == x,
        ({
            let y = x ^ (x >> 13);
            y ^ (y >> 13) ^ (y >> 26)
        }) == x,
{
}

proof fn lemma_xor_cancels(x: u32, y: u32)
    by (bit_vector)
    ensures
        (x ^ y) ^ y == x,
        x ^ (x ^ y) == y,
{
}

proof fn lemma_add_inverts(x: u32)
    by (bit_vector)
    ensures
        wrapping_add(wrapping_add(x, N), 0x19ab_949c) == x,
{
}

proof fn lemma_calc_k_injective(a: u32, b: u32)
    requires
        calc_k(a) == calc_k(b),
    ensures
        a == b,
{
    let a1 = wrapping_mul(a, K1);
    let b1 = wrapping_mul(b, K1);
    lemma_multipliers_invert(rotl(a1, 15));
    lemma_multipliers_invert(rotl(b1, 15));
    lemma_rotations_invert(a1);
    lemma_rotations_invert(b1);
    lemma_multipliers_invert(a);
    lemma_multipliers_invert(b);
}

proof fn lemma_update_injective(x: u32, y: u32)
    requires
        wrapping_add(wrapping_mul(rotl(x, 13), M), N) == wrapping_add(
            wrapping_mul(rotl(y, 13), M),
            N,
        ),
    ensures
        x == y,
{
    lemma_add_inverts(wrapping_mul(rotl(x, 13), M));
    lemma_add_inverts(wrapping_mul(rotl(y, 13), M));
    lemma_multipliers_invert(rotl(x, 13));
    lemma_multipliers_invert(rotl(y, 13));
    lemma_rotations_invert(x);
    lemma_rotations_invert(y);
}

/// Two different words take the same state to different states.
pub proof fn lemma_mix_injective_in_word(state: u32, a: u32, b: u32)
    requires
        a != b,
    ensures
        mix(state, a) != mix(state, b),
{
    if mix(state, a) == mix(state, b) {
        lemma_update_injective(state ^ calc_k(a), state ^ calc_k(b));
        lemma_xor_cancels(state, calc_k(a));
        lemma_xor_cancels(state, calc_k(b));
        lemma_calc_k_injective(a, b);
    }
}

/// The same word takes two different states to different states.
pub proof fn lemma_mix_injective_in_state(s: u32, t: u32, word: u32)
    requires
        s != t,
    ensures
        mix(s, word) != mix(t, word),
{
    if mix(s, word) == mix(t, word) {
        lemma_update_injective(s ^ calc_k(word), t ^ calc_k(word));
        lemma_xor_cancels(s, calc_k(word));
        lemma_xor_cancels(t, calc_k(word));
    }
}

/// Two different states give different hashes for the same byte count.
pub proof fn lemma_finish_injective(s: u32, t: u32, processed: u32)
    requires
        s != t,
    ensures
        finish(s, processed) != finish(t, processed),
{
    if finish(s, processed) == finish(t, processed) {
        let a = s ^ processed;
        let b = wrapping_mul(a ^ (a >> 16), F1);
        let c = wrapping_mul(b ^ (b >> 13), F2);
        let a2 = t ^ processed;
        let b2 = wrapping_mul(a2 ^ (a2 >> 16), F1);
        let c2 = wrapping_mul(b2 ^ (b2 >> 13), F2);
        lemma_xor_shift_inverts(c);
        lemma_xor_shift_inverts(c2);
        assert(c == c2);
        lemma_multipliers_invert(b ^ (b >> 13));
        lemma_multipliers_invert(b2 ^ (b2 >> 13));
        lemma_xor_shift_inverts(b);
        lemma_xor_shift_inverts(b2);
        assert(b == b2);
        lemma_multipliers_invert(a ^ (a >> 16));
        lemma_multipliers_invert(a2 ^ (a2 >> 16));
        lemma_xor_shift_inverts(a);
        lemma_xor_shift_inverts(a2);
        assert(a == a2);
        lemma_xor_cancels(s, processed);
        lemma_xor_cancels(t, processed);
    }
}

/// Sequences that agree up to `n` reach the same state there.
proof fn lemma_fold_of_equal_prefix(a: Seq<u32>, b: Seq<u32>, n: int, seed: u32)
    requires
        0 <= n <= a.len(),
        n <= b.len(),
        forall|j: int| 0 <= j < n ==> a[j] == b[j],
    ensures
        fold(a.take(n), seed) == fold(b.take(n), seed),
{
    assert(a.take(n) =~= b.take(n));
}

/// Once the states differ, equal words keep them different.
proof fn lemma_fold_keeps_difference(a: Seq<u32>, b: Seq<u32>, from: int, n: int, seed: u32)
    requires
        a.len() == b.len(),
        0 <= from <= n <= a.len(),
        fold(a.take(from), seed) != fold(b.take(from), seed),
        forall|j: int| from <= j < n ==> a[j] == b[j],
    ensures
        fold(a.take(n), seed) != fold(b.take(n), seed),
    decreases n - from,
{
    if from < n {
        lemma_fold_keeps_difference(a, b, from, n - 1, seed);
        assert(a.take(n).drop_last() =~= a.take(n - 1));
        assert(b.take(n).drop_last() =~= b.take(n - 1));
        lemma_mix_injective_in_state(
            fold(a.take(n - 1), seed),
            fold(b.take(n - 1), seed),
            a[n - 1],
        );
    }
}

/// Changing a single word changes the hash: two sequences of one length
/// that differ in exactly one place never hash alike.
pub proof fn lemma_single_word_changes_hash(a: Seq<u32>, b: Seq<u32>, i: int, seed: u32)
    requires
        a.len() == b.len(),
        0 <= i < a.len(),
        a[i] != b[i],
        forall|j: int| 0 <= j < a.len() && j != i ==> a[j] == b[j],
    ensures
        spec_murmur3_32(a, seed) != spec_murmur3_32(b, seed),
{
    lemma_fold_of_equal_prefix(a, b, i, seed);
    assert(a.take(i + 1).drop_last() =~= a.take(i));
    assert(b.take(i + 1).drop_last() =~= b.take(i));
    lemma_mix_injective_in_word(fold(a.take(i), seed), a[i], b[i]);
    lemma_fold_keeps_difference(a, b, i + 1, a.len() as int, seed);
    assert(a.take(a.len() as int) =~= a);
    assert(b.take(b.len() as int) =~= b);
    lemma_finish_injective(fold(a, seed), fold(b, seed), (4 * a.len()) as u32);
}

/// The state after `n` zero words, starting from zero.
pub open spec fn zero_state(n: nat) -> u32
    decreases n,
{
    if n == 0 {
        0
    } else {
        mix(zero_state((n - 1) as nat), 0)
    }
}

proof fn lemma_fold_of_zeros(n: nat)
    ensures
        fold(Seq::new(n, |i: int| 0u32), 0) == zero_state(n),
    decreases n,
{
    if n > 0 {
        let zeros = Seq::new(n, |i: int| 0u32);
        assert(zeros.drop_last() =~= Seq::new((n - 1) as nat, |i: int| 0u32));
        lemma_fold_of_zeros((n - 1) as nat);
    }
}

/// Each state of the run over a zero sector, computed from the one before.
proof fn lemma_zero_steps()
    by (bit_vector)
    ensures
        mix(0x00000000, 0) == 0xe6546b64,
        mix(0xe6546b64, 0) == 0xa9737b56,
        mix(0xa9737b56, 0) == 0x136a954a,
        mix(0x136a954a, 0) == 0x83a2b785,
        mix(0x83a2b785, 0) == 0x9907dda8,
        mix(0x9907dda8, 0) == 0xd0ddcb04,
        mix(0xd0ddcb04, 0) == 0x85376deb,
        mix(0x85376deb, 0) == 0x8b079ea2,
        mix(0x8b079ea2, 0) == 0xa97a0244,
        mix(0xa97a0244, 0) == 0x27bf554f,
        mix(0x27bf554f, 0) == 0x7ba5e437,
        mix(0x7ba5e437, 0) == 0x94f718a8,
        mix(0x94f718a8, 0) == 0x55bdc87a,
        mix(0x55bdc87a, 0) == 0x83a0e0f7,
        mix(0x83a0e0f7, 0) == 0x72ef1da8,
        mix(0x72ef1da8, 0) == 0x58ddb335,
        mix(0x58ddb335, 0) == 0x7655c2eb,
        mix(0x7655c2eb, 0) == 0x80279556,
        mix(0x80279556, 0) == 0xa3aa7b78,
        mix(0xa3aa7b78, 0) == 0x737fd1ad,
        mix(0x737fd1ad, 0) == 0xc960d38f,
        mix(0xc960d38f, 0) == 0x6a8e4940,
        mix(0x6a8e4940, 0) == 0xd41cadf9,
        mix(0xd41cadf9, 0) == 0xd3108ff3,
        mix(0xd3108ff3, 0) == 0x404ccf4e,
        mix(0x404ccf4e, 0) == 0xe7e55391,
        mix(0xe7e55391, 0) == 0x3a8f9c50,
        mix(0x3a8f9c50, 0) == 0xa8068ff9,
        mix(0xa8068ff9, 0) == 0x00507464,
        mix(0x00507464, 0) == 0x2f12eb96,
        mix(0x2f12eb96, 0) == 0xb99248ce,
        mix(0xb99248ce, 0) == 0x53d59f5e,
        mix(0x53d59f5e, 0) == 0x69ef5fc6,
        mix(0x69ef5fc6, 0) == 0x82306d95,
        mix(0x82306d95, 0) == 0x2ad1dcc2,
        mix(0x2ad1dcc2, 0) == 0x104dc626,
        mix(0x104dc626, 0) == 0x822c3591,
        mix(0x822c3591, 0) == 0x87cf5cbd,
        mix(0x87cf5cbd, 0) == 0x804ae041,
        mix(0x804ae041, 0) == 0xb27d5b91,
        mix(0xb27d5b91, 0) == 0x3f8f7aef,
        mix(0x3f8f7aef, 0) == 0x9329f319,
        mix(0x9329f319, 0) == 0x1e44675d,
        mix(0x1e44675d, 0) == 0xa6ee9e4c,
        mix(0xa6ee9e4c, 0) == 0x094453b5,
        mix(0x094453b5, 0) == 0x9aa5912c,
        mix(0x9aa5912c, 0) == 0x61104c08,
        mix(0x61104c08, 0) == 0x15d9a80e,
        mix(0x15d9a80e, 0) == 0xef5d390b,
        mix(0xef5d390b, 0) == 0x29fbe0fb,
        mix(0x29fbe0fb, 0) == 0x52f1659f,
        mix(0x52f1659f, 0) == 0xc5d7ff3a,
        mix(0xc5d7ff3a, 0) == 0xe5d92706,
        mix(0xe5d92706, 0) == 0x9eb8bb0b,
        mix(0x9eb8bb0b, 0) == 0x5b3bae97,
        mix(0x5b3bae97, 0) == 0x33730467,
        mix(0x33730467, 0) == 0xc914eb8a,
        mix(0xc914eb8a, 0) == 0xf98b290e,
        mix(0xf98b290e, 0) == 0xdffdc759,
        mix(0xdffdc759, 0) == 0x82ec975f,
        mix(0x82ec975f, 0) == 0xc4f01d35,
        mix(0xc4f01d35, 0) == 0xf896067a,
        mix(0xf896067a, 0) == 0xaa6146be,
        mix(0xaa6146be, 0) == 0xb28b95e0,
        mix(0xb28b95e0, 0) == 0x2400daf9,
        mix(0x2400daf9, 0) == 0x6f3021e4,
        mix(0x6f3021e4, 0) == 0xfb8330e2,
        mix(0xfb8330e2, 0) == 0xe4e24894,
        mix(0xe4e24894, 0) == 0x53b17a70,
        mix(0x53b17a70, 0) == 0xd2da9fb2,
        mix(0xd2da9fb2, 0) == 0x8a242f2b,
        mix(0x8a242f2b, 0) == 0x83cfa1b8,
        mix(0x83cfa1b8, 0) == 0xab67bdc1,
        mix(0xab67bdc1, 0) == 0xbced7680,
        mix(0xbced7680, 0) == 0x5064e175,
        mix(0x5064e175, 0) == 0xf33dbda0,
        mix(0xf33dbda0, 0) == 0x7cd90367,
        mix(0x7cd90367, 0) == 0x8875196b,
        mix(0x8875196b, 0) == 0x1637a0aa,
        mix(0x1637a0aa, 0) == 0xaabeb942,
        mix(0xaabeb942, 0) == 0x1a1e1617,
        mix(0x1a1e1617, 0) == 0xb422dbb3,
        mix(0xb422dbb3, 0) == 0xafa4bbf8,
        mix(0xafa4bbf8, 0) == 0xdbcfd928,
        mix(0xdbcfd928, 0) == 0xce0df4c1,
        mix(0xce0df4c1, 0) == 0x9f4d8c29,
        mix(0x9f4d8c29, 0) == 0x5dee6ef1,
        mix(0x5dee6ef1, 0) == 0xebab4615,
        mix(0xebab4615, 0) == 0xf2221ead,
        mix(0xf2221ead, 0) == 0x398122b8,
        mix(0x398122b8, 0) == 0x9c078f54,
        mix(0x9c078f54, 0) == 0x9fe94ce4,
        mix(0x9fe94ce4, 0) == 0xb6634f55,
        mix(0xb6634f55, 0) == 0xf7e9fd60,
        mix(0xf7e9fd60, 0) == 0x24b10655,
        mix(0x24b10655, 0) == 0x8a49a252,
        mix(0x8a49a252, 0) == 0xebc801d1,
        mix(0xebc801d1, 0) == 0xe7779ec1,
        mix(0xe7779ec1, 0) == 0xa98d9c0a,
        mix(0xa98d9c0a, 0) == 0x67db1559,
        mix(0x67db1559, 0) == 0xd3ac4c4b,
        mix(0xd3ac4c4b, 0) == 0x9603cfad,
        mix(0x9603cfad, 0) == 0x4820e924,
        mix(0x4820e924, 0) == 0x780b1878,
        mix(0x780b1878, 0) == 0xd59fb669,
        mix(0xd59fb669, 0) == 0xb85690e3,
        mix(0xb85690e3, 0) == 0x00e2be96,
        mix(0x00e2be96, 0) == 0x9d722bf0,
        mix(0x9d722bf0, 0) == 0x41cacdca,
        mix(0x41cacdca, 0) == 0xa6f2d481,
        mix(0xa6f2d481, 0) == 0xab2573ba,
        mix(0xab2573ba, 0) == 0x4ea91658,
        mix(0x4ea91658, 0) == 0x944b9c8d,
        mix(0x944b9c8d, 0) == 0x282ce811,
        mix(0x282ce811, 0) == 0xf75f247d,
        mix(0xf75f247d, 0) == 0x5d2325fb,
        mix(0x5d2325fb, 0) == 0xde118598,
        mix(0xde118598, 0) == 0xd9d3f62e,
        mix(0xd9d3f62e, 0) == 0x6031b386,
        mix(0x6031b386, 0) == 0xf6886782,
        mix(0xf6886782, 0) == 0x27064579,
        mix(0x27064579, 0) == 0xd1c023c4,
        mix(0xd1c023c4, 0) == 0xfcaf6e7c,
        mix(0xfcaf6e7c, 0) == 0x8b62894d,
        mix(0x8b62894d, 0) == 0x7c24e280,
        mix(0x7c24e280, 0) == 0xf3e4b8f8,
        mix(0xf3e4b8f8, 0) == 0xd9f003d0,
{
}

proof fn lemma_zero_state_of_sector()
    ensures
        zero_state(127) == 0xd9f003d0,
{
    lemma_zero_steps();
    assert(zero_state(0) == 0);
    assert(zero_state(1) == 0xe6546b64);
    assert(zero_state(2) == 0xa9737b56);
    assert(zero_state(3) == 0x136a954a);
    assert(zero_state(4) == 0x83a2b785);
    assert(zero_state(5) == 0x9907dda8);
    assert(zero_state(6) == 0xd0ddcb04);
    assert(zero_state(7) == 0x85376deb);
    assert(zero_state(8) == 0x8b079ea2);
    assert(zero_state(9) == 0xa97a0244);
    assert(zero_state(10) == 0x27bf554f);
    assert(zero_state(11) == 0x7ba5e437);
    assert(zero_state(12) == 0x94f718a8);
    assert(zero_state(13) == 0x55bdc87a);
    assert(zero_state(14) == 0x83a0e0f7);
    assert(zero_state(15) == 0x72ef1da8);
    assert(zero_state(16) == 0x58ddb335);
    assert(zero_state(17) == 0x7655c2eb);
    assert(zero_state(18) == 0x80279556);
    assert(zero_state(19) == 0xa3aa7b78);
    assert(zero_state(20) == 0x737fd1ad);
    assert(zero_state(21) == 0xc960d38f);
    assert(zero_state(22) == 0x6a8e4940);
    assert(zero_state(23) == 0xd41cadf9);
    assert(zero_state(24) == 0xd3108ff3);
    assert(zero_state(25) == 0x404ccf4e);
    assert(zero_state(26) == 0xe7e55391);
    assert(zero_state(27) == 0x3a8f9c50);
    assert(zero_state(28) == 0xa8068ff9);
    assert(zero_state(29) == 0x00507464);
    assert(zero_state(30) == 0x2f12eb96);
    assert(zero_state(31) == 0xb99248ce);
    assert(zero_state(32) == 0x53d59f5e);
    assert(zero_state(33) == 0x69ef5fc6);
    assert(zero_state(34) == 0x82306d95);
    assert(zero_state(35) == 0x2ad1dcc2);
    assert(zero_state(36) == 0x104dc626);
    assert(zero_state(37) == 0x822c3591);
    assert(zero_state(38) == 0x87cf5cbd);
    assert(zero_state(39) == 0x804ae041);
    assert(zero_state(40) == 0xb27d5b91);
    assert(zero_state(41) == 0x3f8f7aef);
    assert(zero_state(42) == 0x9329f319);
    assert(zero_state(43) == 0x1e44675d);
    assert(zero_state(44) == 0xa6ee9e4c);
    assert(zero_state(45) == 0x094453b5);
    assert(zero_state(46) == 0x9aa5912c);
    assert(zero_state(47) == 0x61104c08);
    assert(zero_state(48) == 0x15d9a80e);
    assert(zero_state(49) == 0xef5d390b);
    assert(zero_state(50) == 0x29fbe0fb);
    assert(zero_state(51) == 0x52f1659f);
    assert(zero_state(52) == 0xc5d7ff3a);
    assert(zero_state(53) == 0xe5d92706);
    assert(zero_state(54) == 0x9eb8bb0b);
    assert(zero_state(55) == 0x5b3bae97);
    assert(zero_state(56) == 0x33730467);
    assert(zero_state(57) == 0xc914eb8a);
    assert(zero_state(58) == 0xf98b290e);
    assert(zero_state(59) == 0xdffdc759);
    assert(zero_state(60) == 0x82ec975f);
    assert(zero_state(61) == 0xc4f01d35);
    assert(zero_state(62) == 0xf896067a);
    assert(zero_state(63) == 0xaa6146be);
    assert(zero_state(64) == 0xb28b95e0);
    assert(zero_state(65) == 0x2400daf9);
    assert(zero_state(66) == 0x6f3021e4);
    assert(zero_state(67) == 0xfb8330e2);
    assert(zero_state(68) == 0xe4e24894);
    assert(zero_state(69) == 0x53b17a70);
    assert(zero_state(70) == 0xd2da9fb2);
    assert(zero_state(71) == 0x8a242f2b);
    assert(zero_state(72) == 0x83cfa1b8);
    assert(zero_state(73) == 0xab67bdc1);
    assert(zero_state(74) == 0xbced7680);
    assert(zero_state(75) == 0x5064e175);
    assert(zero_state(76) == 0xf33dbda0);
    assert(zero_state(77) == 0x7cd90367);
    assert(zero_state(78) == 0x8875196b);
    assert(zero_state(79) == 0x1637a0aa);
    assert(zero_state(80) == 0xaabeb942);
    assert(zero_state(81) == 0x1a1e1617);
    assert(zero_state(82) == 0xb422dbb3);
    assert(zero_state(83) == 0xafa4bbf8);
    assert(zero_state(84) == 0xdbcfd928);
    assert(zero_state(85) == 0xce0df4c1);
    assert(zero_state(86) == 0x9f4d8c29);
    assert(zero_state(87) == 0x5dee6ef1);
    assert(zero_state(88) == 0xebab4615);
    assert(zero_state(89) == 0xf2221ead);
    assert(zero_state(90) == 0x398122b8);
    assert(zero_state(91) == 0x9c078f54);
    assert(zero_state(92) == 0x9fe94ce4);
    assert(zero_state(93) == 0xb6634f55);
    assert(zero_state(94) == 0xf7e9fd60);
    assert(zero_state(95) == 0x24b10655);
    assert(zero_state(96) == 0x8a49a252);
    assert(zero_state(97) == 0xebc801d1);
    assert(zero_state(98) == 0xe7779ec1);
    assert(zero_state(99) == 0xa98d9c0a);
    assert(zero_state(100) == 0x67db1559);
    assert(zero_state(101) == 0xd3ac4c4b);
    assert(zero_state(102) == 0x9603cfad);
    assert(zero_state(103) == 0x4820e924);
    assert(zero_state(104) == 0x780b1878);
    assert(zero_state(105) == 0xd59fb669);
    assert(zero_state(106) == 0xb85690e3);
    assert(zero_state(107) == 0x00e2be96);
    assert(zero_state(108) == 0x9d722bf0);
    assert(zero_state(109) == 0x41cacdca);
    assert(zero_state(110) == 0xa6f2d481);
    assert(zero_state(111) == 0xab2573ba);
    assert(zero_state(112) == 0x4ea91658);
    assert(zero_state(113) == 0x944b9c8d);
    assert(zero_state(114) == 0x282ce811);
    assert(zero_state(115) == 0xf75f247d);
    assert(zero_state(116) == 0x5d2325fb);
    assert(zero_state(117) == 0xde118598);
    assert(zero_state(118) == 0xd9d3f62e);
    assert(zero_state(119) == 0x6031b386);
    assert(zero_state(120) == 0xf6886782);
    assert(zero_state(121) == 0x27064579);
    assert(zero_state(122) == 0xd1c023c4);
    assert(zero_state(123) == 0xfcaf6e7c);
    assert(zero_state(124) == 0x8b62894d);
    assert(zero_state(125) == 0x7c24e280);
    assert(zero_state(126) == 0xf3e4b8f8);
    assert(zero_state(127) == 0xd9f003d0);
}

proof fn lemma_finish_of_zero_sector()
    by (bit_vector)
    ensures
        finish(0xd9f003d0, 508) == ZERO_SECTOR_HASH,
{
}

/// The hash of a sector's worth of zero words is a fixed value that is not
/// zero.
pub proof fn lemma_zero_sector_hash()
    ensures
        spec_murmur3_32(Seq::new(SECTOR_DATA_WORDS as nat, |i: int| 0u32), 0) == ZERO_SECTOR_HASH,
        ZERO_SECTOR_HASH != 0,
{
    lemma_fold_of_zeros(127);
    lemma_zero_state_of_sector();
    lemma_finish_of_zero_sector();
}

} // verus!
