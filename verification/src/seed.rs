//! From a seed to the state a generator starts in.
//!
//! A seed may be a small number, so it is not used as the state itself. Two
//! steps of the PCG32 generator, started from the seed, give two words of 32
//! bits; the first is the low half of the state, the second the high half.

use vstd::prelude::*;

verus! {

/// The multiplier of a PCG32 step.
pub const PCG_MUL: u64 = 6364136223846793005;

/// The increment of a PCG32 step.
pub const PCG_INC: u64 = 11634580027462260723;

/// The PCG32 state that follows `state`: `state * PCG_MUL + PCG_INC`, in
/// arithmetic modulo `2^64`.
pub open spec fn pcg_next(state: u64) -> u64 {
    ((state as nat * PCG_MUL as nat + PCG_INC as nat) % 0x1_0000_0000_0000_0000) as u64
}

/// `word` with its bits moved right by `by` places, those that leave at the
/// low end entering at the high end.
pub open spec fn rotated_right(word: u32, by: u32) -> u32 {
    if by % 32 == 0 {
        word
    } else {
        (word >> (by % 32)) | (word << ((32 - by % 32) as u32))
    }
}

/// The word that PCG32 puts out in `state`: the low 32 bits of
/// `((state >> 18) ^ state) >> 27`, rotated right by the top five bits of
/// the state.
pub open spec fn pcg_word(state: u64) -> u32 {
    rotated_right(((((state >> 18) ^ state) >> 27) & 0xFFFF_FFFF) as u32, (state >> 59) as u32)
}

/// The state a generator starts in for `seed`: the words of the first two
/// PCG32 states after `seed`, the first as the low half.
pub open spec fn expanded(seed: u64) -> u64 {
    let first = pcg_next(seed);
    let second = pcg_next(first);
    (pcg_word(first) as u64) | ((pcg_word(second) as u64) << 32)
}

/// One PCG32 step.
pub fn pcg_step(state: u64) -> (next: u64)
    ensures
        next == pcg_next(state),
{
    let product: u64 = state.wrapping_mul(PCG_MUL);
    let next: u64 = product.wrapping_add(PCG_INC);
    proof {
        let range: int = 0x1_0000_0000_0000_0000;
        let full: int = state as int * PCG_MUL as int;
        assert(0 <= full) by (nonlinear_arith)
            requires
                full == state as int * PCG_MUL as int,
                0 <= state as int,
                0 <= PCG_MUL as int,
        ;
        assert(product == full % range);
        vstd::arithmetic::div_mod::lemma_add_mod_noop(full, PCG_INC as int, range);
        vstd::arithmetic::div_mod::lemma_small_mod(PCG_INC as nat, range as nat);
        assert((product + PCG_INC) % range == (full + PCG_INC) % range);
        if product + PCG_INC > u64::MAX {
            vstd::arithmetic::div_mod::lemma_mod_sub_multiples_vanish(product + PCG_INC, range);
            vstd::arithmetic::div_mod::lemma_small_mod(
                (product + PCG_INC - range) as nat,
                range as nat,
            );
        } else {
            vstd::arithmetic::div_mod::lemma_small_mod((product + PCG_INC) as nat, range as nat);
        }
    }
    next
}

/// Rotates `word` right by `by` places.
pub fn rotate_right(word: u32, by: u32) -> (turned: u32)
    ensures
        turned == rotated_right(word, by),
{
    let places: u32 = by % 32;
    if places == 0 {
        word
    } else {
        (word >> places) | (word << (32 - places))
    }
}

/// The word that PCG32 puts out in `state`.
pub fn pcg_output(state: u64) -> (word: u32)
    ensures
        word == pcg_word(state),
{
    let mixed: u64 = (((state >> 18) ^ state) >> 27) & 0xFFFF_FFFF;
    let by: u64 = state >> 59;
    assert(mixed <= 0xFFFF_FFFF) by (bit_vector)
        requires
            mixed == (((state >> 18) ^ state) >> 27) & 0xFFFF_FFFF,
    ;
    assert(by <= 31) by (bit_vector)
        requires
            by == state >> 59,
    ;
    rotate_right(mixed as u32, by as u32)
}

/// Expands `seed` to the state a generator starts in.
pub fn expand_seed(seed: u64) -> (state: u64)
    ensures
        state == expanded(seed),
{
    let first: u64 = pcg_step(seed);
    let second: u64 = pcg_step(first);
    let low: u64 = pcg_output(first) as u64;
    let high: u64 = pcg_output(second) as u64;
    low | (high << 32)
}

} // verus!
