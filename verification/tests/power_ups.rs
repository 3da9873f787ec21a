use insiculous_pong::power_ups::{collected_positions, may_spawn_power_up, pickup_effect, power_up_kind_for, PickupEffect, MAX_POWERUPS};
use insiculous_pong::types::{GameState, PowerUpKind};

const FLAME: u64 = 1;
const KNIFE: u64 = 2;

#[test]
fn test_each_collected_pickup_leaves_one_puff_at_its_own_position() {
    // A flame at (10, 0) and a knife at (-10, 0), both collected this frame.
    let placed = [(FLAME, (10.0f32, 0.0f32)), (KNIFE, (-10.0f32, 0.0f32))];
    let remaining: [u64; 0] = [];
    let taken = collected_positions(&placed, &remaining);
    assert_eq!(taken.len(), 2, "one position per collection");
    assert_eq!(taken[0], (10.0, 0.0));
    assert_eq!(taken[1], (-10.0, 0.0));
}

#[test]
fn test_two_balls_touching_one_pickup_are_reported_once() {
    // Two balls reach the one flame in a frame. Which of them takes it is the
    // engine's pickup tracker's to report; what the rules make of the frame depends
    // only on the flame being gone: one puff where it stood and one boost, whichever
    // ball reached it.
    let placed = [(FLAME, (10.0f32, 0.0f32))];
    let remaining: [u64; 0] = [];
    let taken = collected_positions(&placed, &remaining);
    assert_eq!(taken, vec![(10.0, 0.0)], "one puff, not one per ball");
    assert_eq!(pickup_effect(PowerUpKind::SpeedBoost), PickupEffect::BoostAndToast, "and one boost");
}

#[test]
fn the_flame_boosts_and_the_knife_splits() {
    assert_eq!(pickup_effect(PowerUpKind::SpeedBoost), PickupEffect::BoostAndToast);
    assert_eq!(pickup_effect(PowerUpKind::MultiBall), PickupEffect::SplitBall);
}

#[test]
fn a_pickup_still_on_the_court_leaves_no_puff() {
    let placed = [(FLAME, (10.0f32, 0.0f32)), (KNIFE, (-10.0f32, 0.0f32)), (3, (0.0f32, 5.0f32))];
    assert_eq!(collected_positions(&placed, &[KNIFE]), vec![(10.0, 0.0), (0.0, 5.0)]);
    assert!(collected_positions(&placed, &[FLAME, KNIFE, 3]).is_empty());
}

#[test]
fn pickups_spawn_only_in_play_and_up_to_three() {
    assert_eq!(MAX_POWERUPS, 3);
    assert!(may_spawn_power_up(GameState::Playing, 2));
    assert!(!may_spawn_power_up(GameState::Playing, 3));
    assert!(!may_spawn_power_up(GameState::Serving, 0));
    assert!(!may_spawn_power_up(GameState::GameOver { left_wins: true }, 0));
}

#[test]
fn an_even_hash_gives_the_flame() {
    assert_eq!(power_up_kind_for(4), PowerUpKind::SpeedBoost);
    assert_eq!(power_up_kind_for(7), PowerUpKind::MultiBall);
    assert_eq!(PowerUpKind::SpeedBoost.entity_name(), "Power-Up (Speed Boost)");
    assert_eq!(PowerUpKind::MultiBall.entity_name(), "Power-Up (Multi-Ball)");
}
