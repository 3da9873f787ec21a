//! Power-ups: when one may spawn, which kind, and where the collected ones stood.

use vstd::prelude::*;
use crate::types::{GameState, PowerUpKind};
use crate::balls::EntityId;

verus! {

/// At most this many pickups wait on the court at once.
pub const MAX_POWERUPS: usize = 3;

/// Whether the spawn timer runs this frame: only while the match is being played, and
/// only while fewer than the most pickups wait on the court.
pub fn may_spawn_power_up(state: GameState, active: usize) -> (may: bool)
    ensures
        may == (state == GameState::Playing && active < MAX_POWERUPS),
{
    match state {
        GameState::Playing => active < MAX_POWERUPS,
        _ => false,
    }
}

/// The kind of the next pickup, from a hash of the frame count: an even hash gives the
/// flame's speed boost, an odd one the knife's extra ball.
pub fn power_up_kind_for(hash: u32) -> (kind: PowerUpKind)
    ensures
        kind == (if hash % 2 == 0 {
            PowerUpKind::SpeedBoost
        } else {
            PowerUpKind::MultiBall
        }),
{
    if hash % 2 == 0 {
        PowerUpKind::SpeedBoost
    } else {
        PowerUpKind::MultiBall
    }
}

/// What a collected pickup does to the ball that reached it.
#[derive(Debug, Clone, Copy, PartialEq, Eq, Structural)]
pub enum PickupEffect {
    /// The flame: the speed boost starts (or restarts), and the ball is toasted until
    /// it runs out.
    BoostAndToast,
    /// The knife: the ball splits, and an extra ball joins the match from where it is.
    SplitBall,
}

/// The effect of collecting a pickup of `kind`: the flame boosts and toasts, the knife
/// splits the ball.
pub fn pickup_effect(kind: PowerUpKind) -> (effect: PickupEffect)
    ensures
        kind == PowerUpKind::SpeedBoost ==> effect == PickupEffect::BoostAndToast,
        kind == PowerUpKind::MultiBall ==> effect == PickupEffect::SplitBall,
{
    match kind {
        PowerUpKind::SpeedBoost => PickupEffect::BoostAndToast,
        PowerUpKind::MultiBall => PickupEffect::SplitBall,
    }
}

/// The positions of the pickups in `placed` that are not in `remaining`, in the
/// tracker's own order.
pub open spec fn collected_spec<P>(placed: Seq<(EntityId, P)>, remaining: Seq<EntityId>) -> Seq<P>
    decreases placed.len(),
{
    if placed.len() == 0 {
        Seq::empty()
    } else {
        let before = collected_spec(placed.drop_last(), remaining);
        if remaining.contains(placed.last().0) {
            before
        } else {
            before.push(placed.last().1)
        }
    }
}

/// The positions of the pickups a collection took, in the tracker's own order: every
/// placed pickup that is no longer placed afterwards. The collection reports the
/// pickups it took in that same order, so a caller pairs the two to learn where each
/// collected pickup stood.
pub fn collected_positions<P: Copy>(placed: &[(EntityId, P)], remaining: &[EntityId]) -> (taken: Vec<P>)
    ensures
        taken@ == collected_spec(placed@, remaining@),
{
    let mut taken: Vec<P> = Vec::new();
    let n = placed.len();
    let mut i: usize = 0;
    while i < n
        invariant
            n == placed@.len(),
            i <= n,
            taken@ == collected_spec(placed@.take(i as int), remaining@),
        decreases n - i,
    {
        let (entity, position) = placed[i];
        assert(placed@.take((i + 1) as int).drop_last() =~= placed@.take(i as int));
        let mut still = false;
        let mut k: usize = 0;
        while k < remaining.len()
            invariant
                k <= remaining@.len(),
                still == (exists|x: int| 0 <= x < k && remaining@[x] == entity),
            decreases remaining@.len() - k,
        {
            if remaining[k] == entity {
                still = true;
            }
            k = k + 1;
        }
        assert(still == remaining@.contains(entity));
        if !still {
            taken.push(position);
        }
        i = i + 1;
    }
    assert(placed@.take(n as int) =~= placed@);
    taken
}

} // verus!
