use insiculous_pong::layout::{
    court_grid, tong_face_x, wall_strip_xs, BALL_SIZE, COURT_HALF_H, COURT_HALF_W,
    GOAL_LINE_DAYLIGHT, GOAL_SENSOR_W, GOAL_SENSOR_X, GRILL_CELL_W, GRILL_X, PADDLE_H,
    PADDLE_MAX_Y, PADDLE_W, PADDLE_X, TONG_CELL_W, TONG_MOUTH_GAP,
};
use insiculous_pong::types::Side;

#[test]
fn test_the_derived_playfield_numbers() {
    assert_eq!(PADDLE_W, 22);
    assert_eq!(PADDLE_H, 78);
    assert_eq!(BALL_SIZE as f32 / 2.0, 15.5);
    assert_eq!(PADDLE_X, 350);
    assert_eq!(PADDLE_MAX_Y, 241);
    assert_eq!(GOAL_SENSOR_X, 410);
    assert_eq!(GRILL_X, 384);
    assert_eq!(COURT_HALF_H, 280);
    assert_eq!(PADDLE_MAX_Y + PADDLE_H / 2, COURT_HALF_H);
    assert_eq!(GRILL_X + GRILL_CELL_W / 2, COURT_HALF_W);
}

#[test]
fn test_a_tong_and_its_goal_sensor_never_intersect() {
    let sensor_inner_x = GOAL_SENSOR_X - GOAL_SENSOR_W / 2;
    assert_eq!(sensor_inner_x, COURT_HALF_W, "the sensor's box starts at the goal line");
    let collider_edge = PADDLE_X + PADDLE_W / 2;
    let cell_edge = PADDLE_X + TONG_CELL_W / 2;
    assert!(collider_edge < sensor_inner_x, "the tong's collider at {collider_edge}");
    assert!(cell_edge < sensor_inner_x, "and the art's whole cell at {cell_edge}");
}

#[test]
fn test_a_meatball_resting_on_a_tong_is_inside_the_goal_line() {
    let resting_edge = PADDLE_X + PADDLE_W / 2 + BALL_SIZE;
    assert!(resting_edge + GOAL_LINE_DAYLIGHT <= COURT_HALF_W);
}

#[test]
fn test_the_mouth_is_narrower_than_the_meatball() {
    assert!(TONG_MOUTH_GAP < BALL_SIZE);
}

#[test]
fn the_tong_faces_are_at_339() {
    assert_eq!(tong_face_x(Side::Right), 339);
    assert_eq!(tong_face_x(Side::Left), -339);
}

#[test]
fn the_wall_strips_are_centred() {
    let xs = wall_strip_xs();
    assert_eq!(xs.len(), 13);
    assert_eq!(xs[0], -384);
    assert_eq!(xs[12], 384);
    assert_eq!(xs[6], 0);
}

#[test]
fn the_court_is_thirteen_by_ten() {
    assert_eq!(court_grid(), (13, 10, -384, 288));
}
