use insiculous_pong::game::Match;
use insiculous_pong::scoring::Contact;
use insiculous_pong::clips::tong_state;
use insiculous_pong::jaws::drive_tong;
use insiculous_pong::machines::{tong_machine, OnFinished};
use insiculous_pong::types::{ChaosMode, Facing, GameState, Jaw, Side, TongControl, TONG_CLOSED, TONG_CLOSING, TONG_OPEN};

const BALL: u64 = 1;
const LEFT_TONG: u64 = 10;
const RIGHT_TONG: u64 = 11;
const LEFT_GOAL: u64 = 20;
const RIGHT_GOAL: u64 = 21;

/// A game with a jaw at each end and a ball in play.
fn playing() -> Match {
    let mut game = Match::new();
    game.playfield.left_paddle = Some(LEFT_TONG);
    game.playfield.right_paddle = Some(RIGHT_TONG);
    game.playfield.left_goal = Some(LEFT_GOAL);
    game.playfield.right_goal = Some(RIGHT_GOAL);
    game.balls.primary = Some(BALL);
    game.state = GameState::Playing;
    game
}

fn contact(a: u64, b: u64, started: bool, stopped: bool) -> Contact {
    Contact { entity_a: a, entity_b: b, started, stopped }
}

#[test]
fn test_only_a_started_contact_is_a_hit() {
    let mut game = playing();

    // The ball arrives: a hit, credited to the tong that returned it.
    let arrived = [contact(BALL, LEFT_TONG, true, false)];
    let found = game.handle_paddle_hits_and_collect_goals(&arrived, &[BALL]);
    assert_eq!(found.paddle_hits, vec![(BALL, Side::Left)]);
    assert_eq!(game.score.last_touch, Some(Side::Left));

    // Going on touching, and parting, are not hits and credit nobody.
    game.score.last_touch = None;
    let ongoing = [contact(BALL, LEFT_TONG, false, false)];
    let found = game.handle_paddle_hits_and_collect_goals(&ongoing, &[BALL]);
    assert!(found.paddle_hits.is_empty(), "an ongoing contact is not a hit");
    let parted = [contact(BALL, LEFT_TONG, false, true)];
    let found = game.handle_paddle_hits_and_collect_goals(&parted, &[BALL]);
    assert!(found.paddle_hits.is_empty(), "and neither is the pair parting");
    assert_eq!(game.score.last_touch, None);

    // A hit and its bounce in one frame is one hit, and the next arrival is another.
    let hit_and_gone = [contact(BALL, LEFT_TONG, true, false), contact(BALL, LEFT_TONG, false, true)];
    let found = game.handle_paddle_hits_and_collect_goals(&hit_and_gone, &[BALL]);
    assert_eq!(found.paddle_hits, vec![(BALL, Side::Left)]);
    let returned = [contact(BALL, LEFT_TONG, true, false)];
    let found = game.handle_paddle_hits_and_collect_goals(&returned, &[BALL]);
    assert_eq!(found.paddle_hits, vec![(BALL, Side::Left)], "the return after it is a hit too");
}

#[test]
fn a_hit_is_credited_whichever_way_round_the_pair_is_reported() {
    let mut game = playing();
    let found = game.handle_paddle_hits_and_collect_goals(&[contact(RIGHT_TONG, BALL, true, false)], &[BALL]);
    assert_eq!(found.paddle_hits, vec![(BALL, Side::Right)]);
    assert_eq!(game.score.last_touch, Some(Side::Right));
}

#[test]
fn a_goal_sensor_scores_for_the_other_side_once_a_frame() {
    let mut game = playing();
    let events = [
        contact(BALL, LEFT_GOAL, true, false),
        contact(BALL, RIGHT_GOAL, true, false),
        contact(BALL, LEFT_GOAL, true, false),
    ];
    let found = game.handle_paddle_hits_and_collect_goals(&events, &[BALL]);
    assert_eq!(found.balls_scored, vec![(BALL, Side::Right)]);
    assert!(found.paddle_hits.is_empty());
}

#[test]
fn insane_hits_double_the_ball_each_time() {
    let mut game = playing();
    game.settings.chaos = ChaosMode::Insane;
    let events = [contact(BALL, LEFT_TONG, true, false), contact(BALL, RIGHT_TONG, true, false)];
    let found = game.handle_paddle_hits_and_collect_goals(&events, &[BALL]);
    assert_eq!(found.insane_hits, vec![BALL, BALL]);
    assert_eq!(game.balls.speed_doublings_of(BALL), 2);

    let mut calm = playing();
    let found = calm.handle_paddle_hits_and_collect_goals(&events, &[BALL]);
    assert!(found.insane_hits.is_empty());
    assert_eq!(calm.balls.speed_doublings_of(BALL), 0);
}

#[test]
fn a_goal_awards_the_other_side_and_forgets_the_ball() {
    let mut game = playing();
    let report = game
        .check_goals(&[], &[contact(BALL, LEFT_GOAL, true, false)])
        .expect("the playfield is in place");
    assert_eq!(report.goals.len(), 1);
    assert_eq!(report.goals[0].ball, BALL);
    assert_eq!(report.goals[0].conceded, Side::Left);
    assert_eq!(report.goals[0].tong_reaction, "scored_on_up");
    assert_eq!((game.score.left, game.score.right), (0, 1));
    assert_eq!(game.score.last_scorer, Side::Right);
    assert_eq!(game.balls.primary, None);
    assert!(report.respawn, "the last ball went, so the serve needs a fresh one");
}

#[test]
fn an_escaped_ball_concedes_first_and_takes_no_part_in_the_contacts() {
    let mut game = playing();
    game.balls.extras = vec![2];
    let events = [contact(BALL, RIGHT_GOAL, true, false), contact(2, RIGHT_TONG, true, false)];
    let report = game.check_goals(&[(BALL, Side::Right)], &events).expect("in place");
    assert_eq!(report.escapes.len(), 1);
    assert_eq!(report.escapes[0].conceded, Side::Right);
    assert_eq!(report.escapes[0].tong_reaction, "scored_on_down");
    assert!(report.goals.is_empty(), "a torn-down ball is not scored twice");
    assert_eq!(report.hits, vec![(2, Side::Right)]);
    assert_eq!((game.score.left, game.score.right), (1, 0));
    assert_eq!(game.balls.primary, Some(2), "an extra is promoted");
    assert!(!report.respawn);
}

#[test]
fn nothing_is_decided_without_the_goals_in_place() {
    let mut game = Match::new();
    game.balls.primary = Some(BALL);
    assert!(game.check_goals(&[(BALL, Side::Left)], &[]).is_none());
    assert_eq!(game.score.left + game.score.right, 0);
    assert_eq!(game.balls.primary, Some(BALL));
}

#[test]
fn each_goal_in_a_frame_is_one_point_to_the_side_that_scored_it() {
    let mut game = playing();
    game.balls.extras = vec![2, 3, 4];
    game.score.left = 2;
    game.score.right = 5;
    // Ball 4 escapes out the left; then 1 and 3 go in the left goal (the right
    // scores), and 2 in the right goal (the left scores).
    let events = [
        contact(BALL, LEFT_GOAL, true, false),
        contact(2, RIGHT_GOAL, true, false),
        contact(LEFT_GOAL, 3, true, false),
    ];
    let report = game.check_goals(&[(4, Side::Left)], &events).expect("in place");
    assert_eq!(report.escapes.len() + report.goals.len(), 4);
    assert_eq!((game.score.left, game.score.right), (3, 8));
    assert_eq!(game.score.last_scorer, Side::Right, "the last goal found was ball 3's");
    assert!(report.respawn);
}

#[test]
fn test_a_press_shuts_the_jaw_once_and_a_returned_ball_changes_nothing() {
    let mut game = playing();
    let machine = tong_machine(Facing::Up, Jaw::Open);
    let open = tong_state(TONG_OPEN, Facing::Up);
    let closing = tong_state(TONG_CLOSING, Facing::Up);
    let closed = tong_state(TONG_CLOSED, Facing::Up);
    // Where `closing` goes when its clip ends, by the tong's own table.
    let after_closing = machine
        .states
        .iter()
        .find(|(name, _)| *name == closing)
        .map(|(_, row)| match &row.on_finished {
            OnFinished::Next(next) => next.clone(),
            _ => panic!("closing is a one-shot"),
        })
        .expect("closing is a state");
    assert_eq!(after_closing, closed);

    // The engine's side of the frame: a one-shot clip shows its three frames, and the
    // machine moves on at the frame after.
    let mut state = open.clone();
    let mut frames_in_state = 0;
    let mut control = TongControl::new(Facing::Up);
    let mut moves = 0;
    let mut played = Vec::new();

    // The player pushes at the ball and keeps pushing. Two balls arrive a frame
    // apart, the second on a jaw already closing; neither hit touches the jaw.
    for frame in 0..7 {
        let events = match frame {
            1 | 2 => vec![contact(BALL, LEFT_TONG, true, false)],
            _ => Vec::new(),
        };
        let tongs_before = game.tongs;
        let found = game.handle_paddle_hits_and_collect_goals(&events, &[BALL]);
        if frame == 1 || frame == 2 {
            assert_eq!(found.paddle_hits, vec![(BALL, Side::Left)], "a return is a hit");
        }
        assert_eq!(game.tongs, tongs_before, "a hit moves no jaw");

        if let Some(target) = drive_tong(&state, &mut control, Jaw::Closed, None) {
            state = target;
            frames_in_state = 0;
            moves += 1;
        }
        frames_in_state += 1;
        if state == closing && frames_in_state > 3 {
            state = after_closing.clone();
            frames_in_state = 0;
        }
        played.push(state.clone());
    }

    assert_eq!(moves, 1, "one press, one pass through closing: nothing restarted it");
    assert_eq!(
        played,
        vec![closing.clone(), closing.clone(), closing, closed.clone(), closed.clone(), closed.clone(), closed]
    );
    assert_eq!(control.jaw, Jaw::Closed);
}
