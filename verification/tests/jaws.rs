use insiculous_pong::clips::tong_state;
use insiculous_pong::jaws::{cpu_jaw, drive_tong, facing_for_axis, human_jaw, BallCourse, Lean};
use insiculous_pong::types::{
    Difficulty, Facing, GameMode, Jaw, MatchSettings, ChaosMode, Side, TongControl, Tongs,
    TONG_CLOSED, TONG_CLOSING, TONG_OPEN, TONG_OPENING, TONG_SCORED_ON,
};

/// How a stick's axis reads against the jaw's half-way dead zone.
fn lean(axis: f32) -> Lean {
    const JAW_AXIS_DEAD_ZONE: f32 = 0.5;
    if axis > JAW_AXIS_DEAD_ZONE {
        Lean::Positive
    } else if axis < -JAW_AXIS_DEAD_ZONE {
        Lean::Negative
    } else {
        Lean::Rest
    }
}

#[test]
fn test_pushing_at_the_ball_shuts_a_tong_and_pulling_away_opens_it() {
    // Toward the court is +x for the left tong and -x for the right one, so both
    // players push at the ball to bite.
    assert_eq!(human_jaw(Side::Left, lean(1.0), Jaw::Open), Jaw::Closed);
    assert_eq!(human_jaw(Side::Right, lean(-1.0), Jaw::Open), Jaw::Closed);
    assert_eq!(human_jaw(Side::Left, lean(-1.0), Jaw::Closed), Jaw::Open);
    assert_eq!(human_jaw(Side::Right, lean(1.0), Jaw::Closed), Jaw::Open);

    // Inside the dead zone the jaw stays where it was put, whichever that is.
    for held in [Jaw::Open, Jaw::Closed] {
        assert_eq!(human_jaw(Side::Left, lean(0.0), held), held);
        assert_eq!(human_jaw(Side::Left, lean(0.5), held), held);
        assert_eq!(human_jaw(Side::Right, lean(-0.5), held), held);
    }
}

#[test]
fn the_facing_follows_the_axis_past_the_dead_zone() {
    assert_eq!(facing_for_axis(lean(1.0)), Some(Facing::Up));
    assert_eq!(facing_for_axis(lean(-1.0)), Some(Facing::Down));
    assert_eq!(facing_for_axis(lean(0.5)), None, "the band is a hold, not a pick");
    assert_eq!(facing_for_axis(lean(0.0)), None);
}

#[test]
fn the_cpu_shuts_by_its_lead_and_opens_only_when_the_return_allows_it() {
    let medium = Difficulty::Medium.ai_chomp_lead_ms();
    let hard = Difficulty::Hard.ai_chomp_lead_ms();
    assert_eq!(medium, Some(450));
    assert_eq!(hard, Some(600));
    assert_eq!(Difficulty::Easy.ai_chomp_lead_ms(), None, "Easy never works its jaw at all");

    assert_eq!(cpu_jaw(medium, BallCourse::Arriving { within_lead: true }, Jaw::Open), Jaw::Closed);
    assert_eq!(cpu_jaw(medium, BallCourse::Arriving { within_lead: false }, Jaw::Closed), Jaw::Open);
    assert_eq!(cpu_jaw(hard, BallCourse::Leaving { return_allows_cycle: true }, Jaw::Closed), Jaw::Open);
    assert_eq!(cpu_jaw(hard, BallCourse::Leaving { return_allows_cycle: false }, Jaw::Open), Jaw::Closed);
    for held in [Jaw::Open, Jaw::Closed] {
        assert_eq!(cpu_jaw(medium, BallCourse::Still, held), held, "a ball going nowhere moves nothing");
        for course in [
            BallCourse::Still,
            BallCourse::Arriving { within_lead: false },
            BallCourse::Leaving { return_allows_cycle: true },
        ] {
            assert_eq!(cpu_jaw(None, course, held), Jaw::Closed);
        }
    }
}

#[test]
fn the_facing_turns_only_at_rest() {
    let mut control = TongControl::new(Facing::Up);

    // From `open`, a downward ask turns the face: the same clip, the other way up.
    let target = drive_tong("open_up", &mut control, Jaw::Open, Some(Facing::Down));
    assert_eq!(target, Some(tong_state(TONG_OPEN, Facing::Down)));
    assert_eq!(control.facing, Facing::Down);

    // From rest a close starts the one-shot, in the facing asked.
    let target = drive_tong("open_down", &mut control, Jaw::Closed, None);
    assert_eq!(target, Some(tong_state(TONG_CLOSING, Facing::Down)));
    assert_eq!(control.jaw, Jaw::Closed);

    // Mid-close the face waits, and so does the jaw: nothing restarts the clip.
    let target = drive_tong("closing_down", &mut control, Jaw::Open, Some(Facing::Up));
    assert_eq!(target, None, "the face waits out the clip it is in");
    assert_eq!(control.facing, Facing::Down, "and the stick's wish does not move it");
    assert_eq!(control.jaw, Jaw::Closed);

    // Once shut, the face turns on the spot.
    let target = drive_tong("closed_down", &mut control, Jaw::Closed, Some(Facing::Up));
    assert_eq!(target, Some(tong_state(TONG_CLOSED, Facing::Up)));
    assert_eq!(control.facing, Facing::Up);

    // Asked the same again, nothing moves.
    let target = drive_tong("closed_up", &mut control, Jaw::Closed, Some(Facing::Up));
    assert_eq!(target, None);

    // An opening is asked for from shut.
    let target = drive_tong("closed_up", &mut control, Jaw::Open, None);
    assert_eq!(target, Some(tong_state(TONG_OPENING, Facing::Up)));
}

#[test]
fn a_goal_reaction_and_an_unknown_state_are_left_alone() {
    let mut control = TongControl { jaw: Jaw::Open, facing: Facing::Down };
    let before = control;
    assert_eq!(drive_tong(&tong_state(TONG_SCORED_ON, Facing::Down), &mut control, Jaw::Closed, Some(Facing::Up)), None);
    assert_eq!(control, before);
    assert_eq!(drive_tong("opening_up", &mut control, Jaw::Closed, None), None);
    assert_eq!(drive_tong("open", &mut control, Jaw::Closed, None), None);
    assert_eq!(drive_tong("open_sideways", &mut control, Jaw::Closed, None), None);
    assert_eq!(drive_tong("", &mut control, Jaw::Closed, None), None);
    assert_eq!(control, before);
}

#[test]
fn only_easy_rests_the_cpu_jaw_shut() {
    let mut settings = MatchSettings { mode: GameMode::SinglePlayer, difficulty: Difficulty::Easy, chaos: ChaosMode::Normal };
    assert!(settings.is_cpu_tong(Side::Right));
    assert!(!settings.is_cpu_tong(Side::Left));
    assert_eq!(settings.rest_jaw(Side::Right), Jaw::Closed);
    assert_eq!(settings.rest_jaw(Side::Left), Jaw::Open);
    settings.difficulty = Difficulty::Hard;
    assert_eq!(settings.rest_jaw(Side::Right), Jaw::Open);
    settings.difficulty = Difficulty::Easy;
    settings.mode = GameMode::TwoPlayer;
    assert!(!settings.is_cpu_tong(Side::Right));
    assert_eq!(settings.rest_jaw(Side::Right), Jaw::Open);
}

#[test]
fn resetting_the_intents_keeps_the_facings() {
    let settings = MatchSettings { mode: GameMode::SinglePlayer, difficulty: Difficulty::Easy, chaos: ChaosMode::Normal };
    let mut tongs = Tongs::default();
    tongs.left = TongControl { jaw: Jaw::Closed, facing: Facing::Down };
    tongs.reset_jaw_intents(&settings);
    assert_eq!(tongs.left, TongControl { jaw: Jaw::Open, facing: Facing::Down });
    assert_eq!(tongs.right, TongControl { jaw: Jaw::Closed, facing: Facing::Down });
}
