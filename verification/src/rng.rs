//! The pseudo-random source behind `RND`: a 32-bit linear congruential
//! generator whose state lives in the interpreter.

use vstd::prelude::*;

verus! {

/// Multiplier of the generator.
pub const MULTIPLIER: u64 = 1664525;

/// Increment of the generator.
pub const INCREMENT: u64 = 1013904223;

/// The state that follows `state`: `state * MULTIPLIER + INCREMENT`
/// modulo 2^32.
pub open spec fn next_state(state: u32) -> u32 {
    ((state * MULTIPLIER + INCREMENT) % 0x1_0000_0000) as u32
}

/// The byte drawn from a state: its eight most significant bits.
pub open spec fn output_byte(state: u32) -> u8 {
    (state / 0x100_0000) as u8
}

/// Advances the generator once and returns the new state together with the
/// byte drawn from it.
pub fn advance(state: u32) -> (drawn: (u32, u8))
    ensures
        drawn.0 == next_state(state),
        drawn.1 == output_byte(next_state(state)),
{
    let wide: u64 = state as u64 * MULTIPLIER + INCREMENT;
    let next: u32 = (wide % 0x1_0000_0000) as u32;
    (next, (next / 0x100_0000) as u8)
}

} // verus!
