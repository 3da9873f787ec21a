use insiculous_pong::jaws::Lean;
use insiculous_pong::paddles::ai_dy;
use insiculous_pong::types::Difficulty;

#[test]
fn the_cpu_chases_at_its_speed_and_holds_inside_its_dead_zone() {
    assert_eq!(ai_dy(Difficulty::Hard, Lean::Positive), 380);
    assert_eq!(ai_dy(Difficulty::Easy, Lean::Negative), -180);
    assert_eq!(ai_dy(Difficulty::Medium, Lean::Rest), 0);
}
