//! Projectile emitters.

use vstd::prelude::*;

verus! {

/// How many projectiles an emitter sends out on one tick of its clock: its
/// whole `amount` when the clock has run out on this tick, none otherwise.
/// An emitter with a negative amount sends out nothing.
pub open spec fn spec_projectiles_to_emit(timer_finished: bool, amount: int) -> nat {
    if timer_finished && amount > 0 {
        amount as nat
    } else {
        0
    }
}

/// How many projectiles an emitter sends out on one tick of its clock.
pub fn projectiles_to_emit(timer_finished: bool, amount: i32) -> (count: u32)
    ensures
        count == spec_projectiles_to_emit(timer_finished, amount as int),
{
    if timer_finished && amount > 0 {
        amount as u32
    } else {
        0
    }
}

} // verus!
