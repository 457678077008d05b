//! The dice: two independent uniform 1–6 rolls, so totals lie in [2, 12].

use vstd::prelude::*;

verus! {

/// Relies on `rand::Rng::gen_range` on `rand::thread_rng()`: it samples a
/// value from the given non-empty range, so for `1..=6` the result lies
/// between 1 and 6. Nothing more can be promised of a random draw.
#[verifier::external_body]
fn roll_die() -> (r: u8)
    ensures
        1 <= r <= 6,
{
    rand::Rng::gen_range(&mut rand::thread_rng(), 1u8..=6u8)
}

/// Roll the two dice and return their sum, which lies in [2, 12].
pub fn roll_two_dice() -> (r: usize)
    ensures
        2 <= r <= 12,
{
    let first = roll_die();
    let second = roll_die();
    first as usize + second as usize
}

} // verus!
