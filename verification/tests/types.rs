use insiculous_pong::names::decimal;
use insiculous_pong::game::Match;
use insiculous_pong::types::{
    chaos_label_key, ChaosMode, Difficulty, Facing, Jaw, MatchSettings, Scoreboard, Side,
    TongControl, Tongs, GameMode, CHAOS_MODE_COUNT,
};

#[test]
fn the_opposite_side() {
    assert_eq!(Side::Left.opposite(), Side::Right);
    assert_eq!(Side::Right.opposite(), Side::Left);
    assert_eq!(Side::Left.opposite().opposite(), Side::Left);
}

#[test]
fn the_facings_and_jaws_name_their_clips() {
    assert_eq!(Facing::Up.suffix(), "up");
    assert_eq!(Facing::Down.suffix(), "down");
    assert_eq!(Jaw::Open.clip(), "open");
    assert_eq!(Jaw::Closed.clip(), "closed");
}

#[test]
fn the_tongs_are_spawned_facing_as_drawn() {
    let tongs = Tongs::default();
    assert_eq!(tongs.left, TongControl { jaw: Jaw::Open, facing: Facing::Up });
    assert_eq!(tongs.right, TongControl { jaw: Jaw::Open, facing: Facing::Down });
    let mut tongs = tongs;
    tongs.set(Side::Right, TongControl { jaw: Jaw::Closed, facing: Facing::Up });
    assert_eq!(tongs.get(Side::Right).jaw, Jaw::Closed);
    assert_eq!(*tongs.get(Side::Left), TongControl::new(Facing::Up));
}

#[test]
fn the_difficulties() {
    assert_eq!(Difficulty::Easy.ai_speed(), 180);
    assert_eq!(Difficulty::Medium.ai_speed(), 255);
    assert_eq!(Difficulty::Hard.ai_speed(), 380);
    assert!(!Difficulty::Easy.opens_its_jaw());
    assert!(Difficulty::Medium.opens_its_jaw());
    assert_eq!(Difficulty::Hard.label_key(), "diff.hard");
}

#[test]
fn the_chaos_modes_in_menu_order() {
    let modes: Vec<ChaosMode> = (0..CHAOS_MODE_COUNT).map(ChaosMode::from_index).collect();
    assert_eq!(modes, vec![ChaosMode::Normal, ChaosMode::Insane, ChaosMode::Ridiculous, ChaosMode::Insiculous]);
    assert!(ChaosMode::Insiculous.is_insane() && ChaosMode::Insiculous.is_ridiculous());
    assert!(ChaosMode::Insane.is_insane() && !ChaosMode::Insane.is_ridiculous());
    assert!(!ChaosMode::Normal.is_insane() && !ChaosMode::Normal.is_ridiculous());
    assert_eq!(chaos_label_key(ChaosMode::Ridiculous), "chaos.ridiculous");
}

#[test]
fn a_point_goes_to_one_side_and_a_reset_clears_the_board() {
    let mut board = Scoreboard::default();
    board.award_point(Side::Left);
    board.award_point(Side::Left);
    board.award_point(Side::Right);
    assert_eq!((board.left, board.right, board.last_scorer), (2, 1, Side::Right));
    board.last_touch = Some(Side::Left);
    board.reset();
    assert_eq!(board, Scoreboard::default());
}

#[test]
fn a_game_boots_on_the_title_screen() {
    let game = Match::new();
    assert_eq!(game.settings, MatchSettings { mode: GameMode::SinglePlayer, difficulty: Difficulty::Medium, chaos: ChaosMode::Normal });
    assert_eq!(game.frame_count, 0);
}

#[test]
fn extra_balls_are_numbered_from_two() {
    let mut game = Match::new();
    assert_eq!(game.next_extra_ball_name(), "Ball 2");
    game.balls.extras = vec![5; 9];
    assert_eq!(game.next_extra_ball_name(), "Ball 11");
    assert_eq!(decimal(0), "0");
    assert_eq!(decimal(1007), "1007");
    assert_eq!(decimal(u64::MAX), u64::MAX.to_string());
}
