use vstd::prelude::*;

verus! {

/// Seed of the static noise generator's random sequence.
pub const NOISE_SEED: u64 = 0x853c49e6748fea9b;

/// One step of the linear congruential generator behind the television's
/// static: multiply by 6364136223846793005 and add 1442695040888963407,
/// both modulo 2^64.
pub open spec fn lcg_step(state: u64) -> u64 {
    ((state as int * 6364136223846793005 + 1442695040888963407) % 0x1_0000_0000_0000_0000) as u64
}

/// Advances the generator and returns the high 32 bits of the new state,
/// the raw white-noise word that the audio side scales to a sample.
pub fn next_noise_word(state: &mut u64) -> (word: u32)
    ensures
        *final(state) == lcg_step(*old(state)),
        word == *final(state) / 0x1_0000_0000,
{
    let s: u64 = *state;
    let next: u64 = s.wrapping_mul(6364136223846793005).wrapping_add(1442695040888963407);
    assert(next == lcg_step(s)) by (nonlinear_arith)
        requires
            next == ((((s as int * 6364136223846793005) % 0x1_0000_0000_0000_0000) + 1442695040888963407)
                % 0x1_0000_0000_0000_0000),
    ;
    *state = next;
    let word: u32 = (next >> 32u64) as u32;
    assert(word == next / 0x1_0000_0000) by (bit_vector)
        requires
            word == (next >> 32u64) as u32,
    ;
    word
}

} // verus!
