//! The court's layout in whole pixels, derived from the measured art in the order the
//! geometry nests: the window, the court's edge, the walls, then what stands inside.
//! Every art box is the opaque box of its sheet's reference frame, measured from the
//! synced PNG inside its own cell, `(left, top)` to `(right, bottom)`.

use vstd::prelude::*;
use crate::types::Side;

verus! {

pub const WIN_W: u32 = 800;
pub const WIN_H: u32 = 600;

/// The tong's cell, and its `closed` frame: 22 x 78, centred in the cell.
pub const TONG_CELL_W: u32 = 64;
pub const TONG_CELL_H: u32 = 96;
pub const TONG_CLOSED_LEFT: u32 = 21;
pub const TONG_CLOSED_TOP: u32 = 9;
pub const TONG_CLOSED_RIGHT: u32 = 43;
pub const TONG_CLOSED_BOTTOM: u32 = 87;

/// The meatball's cell, and its `idle` body: 31 x 31, sitting low so the fire has
/// room above it.
pub const MEATBALL_CELL_W: u32 = 48;
pub const MEATBALL_CELL_H: u32 = 64;
pub const MEATBALL_BODY_LEFT: u32 = 9;
pub const MEATBALL_BODY_TOP: u32 = 27;
pub const MEATBALL_BODY_RIGHT: u32 = 40;
pub const MEATBALL_BODY_BOTTOM: u32 = 58;

/// A grill's cell: 32 px wide, drawn flush with the goal line.
pub const GRILL_CELL_W: u32 = 32;

/// The court's edge, where the walls end and a goal line sits.
pub const COURT_HALF_W: u32 = WIN_W / 2;

/// The wall's centre line inset from the window, and the thickness of its one
/// continuous collider.
pub const WALL_INSET: u32 = 10;
pub const WALL_THICKNESS: u32 = 20;

/// The walls' inner face: the court's top and bottom edge.
pub const COURT_HALF_H: u32 = WIN_H / 2 - WALL_INSET - WALL_THICKNESS / 2;

/// The goal sensor: a full-height box whose inner edge sits on the goal line.
pub const GOAL_SENSOR_W: u32 = 20;
pub const GOAL_SENSOR_X: u32 = COURT_HALF_W + GOAL_SENSOR_W / 2;

/// The tong's collider: the closed tong's measured box.
pub const PADDLE_W: u32 = TONG_CLOSED_RIGHT - TONG_CLOSED_LEFT;
pub const PADDLE_H: u32 = TONG_CLOSED_BOTTOM - TONG_CLOSED_TOP;

/// The meatball's collider: one circle across the body's measured width.
pub const BALL_SIZE: u32 = MEATBALL_BODY_RIGHT - MEATBALL_BODY_LEFT;

/// Whole pixels of daylight between a meatball resting on a tong's face and the goal
/// line: without them a ball the player is holding would already be scoring.
pub const GOAL_LINE_DAYLIGHT: u32 = 8;

/// The tongs' centre: a tong's face, a resting meatball and the daylight, inside the
/// goal line.
pub const PADDLE_X: u32 = COURT_HALF_W - PADDLE_W / 2 - BALL_SIZE - GOAL_LINE_DAYLIGHT;

/// How far a tong may travel before its art would cross the wall.
pub const PADDLE_MAX_Y: u32 = COURT_HALF_H - PADDLE_H / 2;

/// The grill behind a tong: its cell flush with the goal line.
pub const GRILL_X: u32 = COURT_HALF_W - GRILL_CELL_W / 2;

/// Pixels a second.
pub const PADDLE_SPEED: u32 = 450;
pub const BALL_INITIAL_SPEED: u32 = 250;
pub const BALL_MAX_SPEED: u32 = 500;

/// The court floor's tile, which also sets how many cells cover the window.
pub const COURT_TILE_PX: u32 = 64;

/// The pickup's collider.
pub const POWERUP_SIZE: u32 = 24;

/// The faces a pose's two tip pads present to each other: how far open the jaw is.
pub const TONG_MOUTH_GAP: u32 = 24;
pub const TONG_MOUTH_GAP_WIDE: u32 = 18;
pub const TONG_MOUTH_GAP_NARROW: u32 = 10;
pub const TONG_MOUTH_GAP_TWITCH: u32 = 4;

/// How far past a tong's own end the ball must be before the CPU turns its face to it:
/// half the tong's height.
pub const CPU_FACE_TURN_DISTANCE: u32 = PADDLE_H / 2;

/// A tong's face: the edge of its collider that meets the court, which is what a ball
/// arrives at and what the CPU measures its time to.
pub fn tong_face_x(side: Side) -> (x: i32)
    ensures
        side == Side::Left ==> x == -(PADDLE_X - PADDLE_W / 2),
        side == Side::Right ==> x == PADDLE_X - PADDLE_W / 2,
{
    let face = (PADDLE_X - PADDLE_W / 2) as i32;
    match side {
        Side::Left => -face,
        Side::Right => face,
    }
}

/// The numbers the layout derives from the measured art, and the geometry they
/// satisfy: the tong's art top reaches the wall's inner face, the grill's cell is flush
/// with the goal line, and the court's edge is where the sensor's box begins.
pub proof fn lemma_the_derived_playfield_numbers()
    ensures
        PADDLE_W == 22,
        PADDLE_H == 78,
        BALL_SIZE == 31,
        PADDLE_X == 350,
        PADDLE_MAX_Y == 241,
        GOAL_SENSOR_X == 410,
        GRILL_X == 384,
        COURT_HALF_H == 280,
        PADDLE_MAX_Y + PADDLE_H / 2 == COURT_HALF_H,
        GRILL_X + GRILL_CELL_W / 2 == COURT_HALF_W,
        GOAL_SENSOR_X - GOAL_SENSOR_W / 2 == COURT_HALF_W,
{
}

/// A tong and its goal sensor never intersect: the sensor's box begins on the goal
/// line, and both the tong's collider and its whole cell stop short of it.
pub proof fn lemma_a_tong_and_its_goal_sensor_never_intersect()
    ensures
        PADDLE_X + PADDLE_W / 2 < GOAL_SENSOR_X - GOAL_SENSOR_W / 2,
        PADDLE_X + TONG_CELL_W / 2 < GOAL_SENSOR_X - GOAL_SENSOR_W / 2,
{
}

/// A meatball resting on a tong's face is inside the goal line, with the daylight to
/// spare: a ball the player is holding is never scoring.
pub proof fn lemma_a_meatball_resting_on_a_tong_is_inside_the_goal_line()
    ensures
        PADDLE_X + PADDLE_W / 2 + BALL_SIZE + GOAL_LINE_DAYLIGHT <= COURT_HALF_W,
{
}

/// Every open pose's mouth is narrower than the meatball, so no closing jaw can take
/// one in: the bite is a tip deflection, never a catch.
pub proof fn lemma_the_mouth_is_narrower_than_the_meatball()
    ensures
        TONG_MOUTH_GAP < BALL_SIZE,
        TONG_MOUTH_GAP_WIDE < TONG_MOUTH_GAP,
        TONG_MOUTH_GAP_NARROW < TONG_MOUTH_GAP_WIDE,
        TONG_MOUTH_GAP_TWITCH < TONG_MOUTH_GAP_NARROW,
{
}

/// How many cells of `cell` pixels it takes to cover `span` pixels.
pub open spec fn cells_to_cover(span: int, cell: int) -> int {
    (span + cell - 1) / cell
}

/// The court edge's cell: the strips a wall is drawn with are this wide.
pub const COURT_EDGE_CELL_W: u32 = 64;

/// The centres of the strips that draw one wall: `ceil(WIN_W / cell)` of them, one
/// cell apart, centred on the window, so the outermost pair reaches half a strip past
/// the visible area and the rail reads as continuous.
pub fn wall_strip_xs() -> (xs: Vec<i32>)
    ensures
        xs@.len() == cells_to_cover(WIN_W as int, COURT_EDGE_CELL_W as int),
        forall|i: int| 0 <= i < xs@.len() ==> #[trigger] xs@[i] == -(xs@.len() - 1) * COURT_EDGE_CELL_W / 2
            + i * COURT_EDGE_CELL_W,
        forall|i: int| 0 <= i < xs@.len() ==> #[trigger] xs@[i] == -xs@[xs@.len() - 1 - i],
{
    let cell = COURT_EDGE_CELL_W as i32;
    let count = (WIN_W as i32 + cell - 1) / cell;
    assert(count == 13);
    let first = -(count - 1) * cell / 2;
    let mut xs: Vec<i32> = Vec::new();
    let mut i: i32 = 0;
    while i < count
        invariant
            count == 13,
            cell == 64,
            first == -384,
            0 <= i <= count,
            xs@.len() == i,
            forall|k: int| 0 <= k < i ==> #[trigger] xs@[k] == first + k * 64,
        decreases count - i,
    {
        xs.push(first + i * cell);
        i = i + 1;
    }
    xs
}

/// The court floor's grid: columns and rows of tiles covering the window, and where
/// the centre of the top-left tile stands, the rows growing downward, so the grid is
/// centred on the window.
pub fn court_grid() -> (grid: (i32, i32, i32, i32))
    ensures
        grid.0 == cells_to_cover(WIN_W as int, COURT_TILE_PX as int),
        grid.1 == cells_to_cover(WIN_H as int, COURT_TILE_PX as int),
        grid.2 * 2 == -(grid.0 - 1) * COURT_TILE_PX,
        grid.3 * 2 == (grid.1 - 1) * COURT_TILE_PX,
{
    let tile = COURT_TILE_PX as i32;
    let columns = (WIN_W as i32 + tile - 1) / tile;
    let rows = (WIN_H as i32 + tile - 1) / tile;
    let anchor_x = -(columns - 1) * tile / 2;
    let anchor_y = (rows - 1) * tile / 2;
    (columns, rows, anchor_x, anchor_y)
}

} // verus!
