//! Paddle movement as the rules decide it: the CPU chases the primary ball's height.

use vstd::prelude::*;
use crate::types::Difficulty;
use crate::jaws::Lean;

verus! {

/// The CPU tong's vertical speed, in pixels a second, up positive: it chases the
/// primary ball at its difficulty's speed once the ball is past the difficulty's dead
/// zone above or below it, and holds still inside it, so easier CPUs wobble less
/// precisely. The lean is the ball's height against the tong's, read against that dead
/// zone; no ball reads as level.
pub fn ai_dy(difficulty: Difficulty, lean: Lean) -> (dy: i32)
    ensures
        lean == Lean::Positive ==> dy == difficulty.ai_speed_spec(),
        lean == Lean::Negative ==> dy == -difficulty.ai_speed_spec(),
        lean == Lean::Rest ==> dy == 0,
{
    let speed = difficulty.ai_speed() as i32;
    match lean {
        Lean::Positive => speed,
        Lean::Negative => -speed,
        Lean::Rest => 0,
    }
}

} // verus!
