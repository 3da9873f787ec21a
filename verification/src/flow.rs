//! The match's lifecycle: serving, a goal conceded, the respawn after it, the win, a
//! fresh start, and leaving for the title screen.

use vstd::prelude::*;
use crate::types::{
    Side, Jaw, GameState, Scoreboard, TongControl, fresh_scoreboard, scored, points_of,
    opposite_side, ridiculous_mode, TONG_SCORED_ON,
};
use crate::balls::{EntityId, after_remove};
use crate::clips::{tong_state, tong_state_name};
use crate::jaws::rest_jaw_spec;
use crate::scoring::winner_spec;
use crate::game::Match;

verus! {

/// What a button press during a match asks for.
#[derive(Debug, Clone, Copy, PartialEq, Eq, Structural)]
pub enum GameplayAction {
    Nothing,
    Serve,
    StartGame,
    ResetToTitle,
}

/// What the serve and game-over screens make of this frame's presses: the primary
/// action serves while serving and restarts after a match, and the menu action leaves
/// a finished match for the title screen. The pause menu handles the menu action while
/// a match is on.
pub fn gameplay_action(state: GameState, primary: bool, menu: bool) -> (action: GameplayAction)
    ensures
        action == match state {
            GameState::Serving => if primary {
                GameplayAction::Serve
            } else {
                GameplayAction::Nothing
            },
            GameState::GameOver { .. } => if primary {
                GameplayAction::StartGame
            } else if menu {
                GameplayAction::ResetToTitle
            } else {
                GameplayAction::Nothing
            },
            _ => GameplayAction::Nothing,
        },
{
    match state {
        GameState::Serving => if primary {
            GameplayAction::Serve
        } else {
            GameplayAction::Nothing
        },
        GameState::GameOver { .. } => if primary {
            GameplayAction::StartGame
        } else if menu {
            GameplayAction::ResetToTitle
        } else {
            GameplayAction::Nothing
        },
        _ => GameplayAction::Nothing,
    }
}

/// What the pause menu answered this frame: nothing, a resume, or one of its three
/// ways out of the match.
#[derive(Debug, Clone, Copy, PartialEq, Eq, Structural)]
pub enum PauseChoice {
    Idle,
    Resumed,
    Restart,
    QuitToTitle,
    ExitGame,
}

/// What a match frame does after the pause menu has had its say.
#[derive(Debug, Clone, Copy, PartialEq, Eq, Structural)]
pub enum FramePlan {
    /// The whole frame runs: tongs, jaws, the physics step, goals, pickups, the win.
    Run,
    /// The match is frozen under the pause menu; only the collider overlay is drawn.
    HoldPaused,
    /// Nothing more this frame: the resuming press must not leak into play.
    SkipFrame,
    /// A fresh match, with the same settings.
    Restart,
    /// Back to the title screen.
    QuitToTitle,
    /// Leave the game.
    ExitGame,
}

/// Whether the pause menu is in play: while serving and playing, and nowhere else.
pub fn pausable(state: GameState) -> (pausable: bool)
    ensures
        pausable == (state is Serving || state is Playing),
{
    match state {
        GameState::Serving | GameState::Playing => true,
        _ => false,
    }
}

/// The frame's plan, from the pause menu's answer when it is in play (`None` when it
/// is not) and whether it is still open after answering: its three ways out act at
/// once, a resume skips the rest of the frame, an open menu freezes the match, and
/// otherwise the match runs.
pub fn frame_plan(pause: Option<(PauseChoice, bool)>) -> (plan: FramePlan)
    ensures
        plan == match pause {
            None => FramePlan::Run,
            Some((choice, open)) => match choice {
                PauseChoice::Restart => FramePlan::Restart,
                PauseChoice::QuitToTitle => FramePlan::QuitToTitle,
                PauseChoice::ExitGame => FramePlan::ExitGame,
                PauseChoice::Resumed => FramePlan::SkipFrame,
                PauseChoice::Idle => if open {
                    FramePlan::HoldPaused
                } else {
                    FramePlan::Run
                },
            },
        },
{
    match pause {
        None => FramePlan::Run,
        Some((choice, open)) => match choice {
            PauseChoice::Restart => FramePlan::Restart,
            PauseChoice::QuitToTitle => FramePlan::QuitToTitle,
            PauseChoice::ExitGame => FramePlan::ExitGame,
            PauseChoice::Resumed => FramePlan::SkipFrame,
            PauseChoice::Idle => if open {
                FramePlan::HoldPaused
            } else {
                FramePlan::Run
            },
        },
    }
}

/// Whether the match's sprites are drawn: during a match, and not behind the menus,
/// which get the bare court.
pub fn gameplay_visible(state: GameState) -> (visible: bool)
    ensures
        visible == !(state is TitleScreen || state is DifficultySelect || state is ChaosSelect
            || state is Achievements),
{
    match state {
        GameState::TitleScreen { .. } | GameState::DifficultySelect { .. } | GameState::ChaosSelect {
            ..
        } | GameState::Achievements => false,
        _ => true,
    }
}

impl Match {
    /// Drop every detached effect from the list, handing back the ids for the world to
    /// remove. An id the world has already dropped is the world's to skip.
    pub fn clear_transient_visuals(&mut self) -> (cleared: Vec<EntityId>)
        ensures
            cleared@ == old(self).transient_visuals@,
            final(self).transient_visuals@.len() == 0,
            final(self).state == old(self).state,
            final(self).score == old(self).score,
            final(self).settings == old(self).settings,
            final(self).tongs == old(self).tongs,
            final(self).balls.primary == old(self).balls.primary,
            final(self).balls.extras == old(self).balls.extras,
            final(self).balls.speed_doublings@ == old(self).balls.speed_doublings@,
            final(self).playfield == old(self).playfield,
            final(self).frame_count == old(self).frame_count,
    {
        let mut cleared: Vec<EntityId> = Vec::new();
        std::mem::swap(&mut cleared, &mut self.transient_visuals);
        cleared
    }

    /// Forget every extra ball, and its multiplier, handing back their ids for the
    /// world to destroy. The primary stays.
    pub fn take_extra_balls(&mut self) -> (extras: Vec<EntityId>)
        ensures
            extras@ == old(self).balls.extras@,
            final(self).balls.extras@.len() == 0,
            final(self).balls.primary == old(self).balls.primary,
            forall|b: EntityId| #[trigger] final(self).balls.speed_doublings@.contains_key(b) <==> (
                old(self).balls.speed_doublings@.contains_key(b) && !old(self).balls.extras@.contains(b)),
            forall|b: EntityId| #[trigger] final(self).balls.speed_doublings@.contains_key(b)
                ==> final(self).balls.speed_doublings@[b] == old(self).balls.speed_doublings@[b],
            final(self).state == old(self).state,
            final(self).score == old(self).score,
            final(self).settings == old(self).settings,
            final(self).tongs == old(self).tongs,
            final(self).transient_visuals == old(self).transient_visuals,
            final(self).playfield == old(self).playfield,
            final(self).frame_count == old(self).frame_count,
    {
        broadcast use vstd::std_specs::hash::group_hash_axioms;
        let mut extras: Vec<EntityId> = Vec::new();
        std::mem::swap(&mut extras, &mut self.balls.extras);
        let n = extras.len();
        let ghost start = self.balls.speed_doublings@;
        let mut i: usize = 0;
        while i < n
            invariant
                n == extras@.len(),
                i <= n,
                forall|b: EntityId| #[trigger] self.balls.speed_doublings@.contains_key(b) <==> (
                    start.contains_key(b) && !extras@.take(i as int).contains(b)),
                forall|b: EntityId| #[trigger] self.balls.speed_doublings@.contains_key(b)
                    ==> self.balls.speed_doublings@[b] == start[b],
                self.balls.extras@.len() == 0,
                self.balls.primary == old(self).balls.primary,
                self.state == old(self).state,
                self.score == old(self).score,
                self.settings == old(self).settings,
                self.tongs == old(self).tongs,
                self.transient_visuals == old(self).transient_visuals,
                self.playfield == old(self).playfield,
                self.frame_count == old(self).frame_count,
            decreases n - i,
        {
            let b = extras[i];
            let ghost prefix = extras@.take(i as int);
            assert(extras@.take((i + 1) as int) =~= prefix.push(b));
            assert forall|x: EntityId| prefix.push(b).contains(x) <==> (prefix.contains(x) || x == b) by {
                if prefix.push(b).contains(x) {
                    let k = choose|k: int| 0 <= k < prefix.len() + 1 && prefix.push(b)[k] == x;
                    if k < prefix.len() {
                        assert(prefix[k] == x);
                    }
                }
                if prefix.contains(x) {
                    let k = choose|k: int| 0 <= k < prefix.len() && prefix[k] == x;
                    assert(prefix.push(b)[k] == x);
                }
                if x == b {
                    assert(prefix.push(b)[prefix.len() as int] == x);
                }
            }
            self.balls.speed_doublings.remove(&b);
            i = i + 1;
        }
        assert(extras@.take(n as int) =~= extras@);
        extras
    }

    /// Whether a match frame has what it works on: a primary ball and both tongs.
    /// Without them the frame does nothing.
    pub fn ready_for_play(&self) -> (ready: bool)
        ensures
            ready == (self.balls.primary is Some && self.playfield.left_paddle is Some
                && self.playfield.right_paddle is Some),
    {
        self.balls.primary.is_some() && self.playfield.left_paddle.is_some()
            && self.playfield.right_paddle.is_some()
    }

    /// The side the serve heads toward: the last scorer's opponent, so the side that
    /// conceded receives.
    pub fn serve_heading(&self) -> (heading: Side)
        ensures
            heading == opposite_side(self.score.last_scorer),
    {
        self.score.last_scorer.opposite()
    }

    /// Launch the serve. The launch is a clean slate: the detached effects a point left
    /// behind end here, which is how a goal's fire stops burning; their ids are handed
    /// back for the world to remove. Then the match is on. In Ridiculous mode (and Insiculous) a second
    /// ball heads the other way so each player gets one incoming (`serves_two_balls`
    /// says when); that ball, when one is given, joins the extras. With no primary ball
    /// there is nothing to launch, and nothing changes. Besides the cleared ids, the
    /// side the primary ball is launched toward is returned: the last scorer's
    /// opponent (the second ball goes the other way); `None` when nothing is launched.
    pub fn serve(&mut self, second_ball: Option<EntityId>) -> (served: (Vec<EntityId>, Option<Side>))
        ensures
            served.0@ == old(self).transient_visuals@,
            final(self).transient_visuals@.len() == 0,
            old(self).balls.primary is None ==> final(self).state == old(self).state
                && final(self).balls.extras@ == old(self).balls.extras@
                && served.1 is None,
            old(self).balls.primary is Some ==> {
                &&& served.1 == Some(opposite_side(old(self).score.last_scorer))
                &&& final(self).state == GameState::Playing
                &&& final(self).balls.extras@ == match second_ball {
                    Some(b) => old(self).balls.extras@.push(b),
                    None => old(self).balls.extras@,
                }
            },
            final(self).balls.primary == old(self).balls.primary,
            final(self).balls.speed_doublings@ == old(self).balls.speed_doublings@,
            final(self).score == old(self).score,
            final(self).settings == old(self).settings,
            final(self).tongs == old(self).tongs,
            final(self).playfield == old(self).playfield,
            final(self).frame_count == old(self).frame_count,
    {
        let cleared = self.clear_transient_visuals();
        if self.balls.primary.is_none() {
            return (cleared, None);
        }
        let heading = self.serve_heading();
        if let Some(b) = second_ball {
            self.balls.extras.push(b);
        }
        self.state = GameState::Playing;
        (cleared, Some(heading))
    }

    /// Whether a serve now launches a second ball.
    pub fn serves_two_balls(&self) -> (two: bool)
        ensures
            two == ridiculous_mode(self.settings.chaos),
    {
        self.settings.chaos.is_ridiculous()
    }

    /// One goal's consequences for the rules, whichever path found it: the side that
    /// did not concede gets the point, and the ball is forgotten. Returns the state the
    /// conceding tong's machine plays: its angry pose, in the facing it wears.
    pub fn concede_goal(&mut self, ball: EntityId, conceded: Side) -> (tong_reaction: String)
        requires
            points_of(old(self).score, opposite_side(conceded)) < u32::MAX,
        ensures
            final(self).score == scored(old(self).score, opposite_side(conceded)),
            (final(self).balls.primary, final(self).balls.extras@) == after_remove(
                old(self).balls.primary,
                old(self).balls.extras@,
                ball,
            ),
            final(self).balls.speed_doublings@ == old(self).balls.speed_doublings@.remove(ball),
            tong_reaction@ == tong_state_name(
                TONG_SCORED_ON@,
                (if conceded == Side::Left {
                    old(self).tongs.left
                } else {
                    old(self).tongs.right
                }).facing,
            ),
            final(self).state == old(self).state,
            final(self).settings == old(self).settings,
            final(self).tongs == old(self).tongs,
            final(self).playfield == old(self).playfield,
            final(self).transient_visuals == old(self).transient_visuals,
            final(self).frame_count == old(self).frame_count,
    {
        let facing = self.tongs.get(conceded).facing;
        let reaction = tong_state(TONG_SCORED_ON, facing);
        self.score.award_point(conceded.opposite());
        self.balls.remove(ball);
        reaction
    }

    /// All balls gone: clear the rally's state and take `fresh` as the primary ball for
    /// the next serve. Nobody has touched it, no multiplier is carried over, and each
    /// jaw asks for the jaw its match rests it at, so no tong shuts itself on the serve
    /// for a bite asked in the last rally. The detached effects are the serve's to
    /// clear: a goal's fire burns through `Serving`.
    pub fn respawn_for_serve(&mut self, fresh: EntityId)
        ensures
            final(self).state == GameState::Serving,
            final(self).balls.primary == Some(fresh),
            final(self).balls.extras == old(self).balls.extras,
            final(self).balls.speed_doublings@.len() == 0,
            final(self).score == (Scoreboard { last_touch: None, ..old(self).score }),
            final(self).tongs.left == (TongControl {
                jaw: rest_jaw_spec(old(self).settings, Side::Left),
                facing: old(self).tongs.left.facing,
            }),
            final(self).tongs.right == (TongControl {
                jaw: rest_jaw_spec(old(self).settings, Side::Right),
                facing: old(self).tongs.right.facing,
            }),
            final(self).settings == old(self).settings,
            final(self).transient_visuals == old(self).transient_visuals,
            final(self).playfield == old(self).playfield,
            final(self).frame_count == old(self).frame_count,
    {
        self.score.last_touch = None;
        self.balls.clear_speeds();
        let settings = self.settings;
        self.tongs.reset_jaw_intents(&settings);
        self.balls.primary = Some(fresh);
        self.state = GameState::Serving;
    }

    /// Whether the match is won: while serving or playing, once a side has the match's
    /// points, the match is over and the winner is returned (`true` for the left).
    /// A won match keeps only its primary ball: every extra ball, and its multiplier,
    /// is forgotten and its id handed back for the world to remove. Otherwise nothing
    /// changes and no id is handed back.
    pub fn check_win_condition(&mut self) -> (outcome: (Option<bool>, Vec<EntityId>))
        ensures
            outcome.0 == (if old(self).state is Playing || old(self).state is Serving {
                winner_spec(old(self).score)
            } else {
                None
            }),
            final(self).state == (match outcome.0 {
                Some(l) => GameState::GameOver { left_wins: l },
                None => old(self).state,
            }),
            (old(self).state is Playing || old(self).state is Serving) && old(self).score.left >= 7
                ==> outcome.0 == Some(true),
            (old(self).state is Playing || old(self).state is Serving) && old(self).score.left < 7
                && old(self).score.right >= 7 ==> outcome.0 == Some(false),
            old(self).score.left < 7 && old(self).score.right < 7 ==> outcome.0 is None,
            outcome.0 is Some ==> {
                &&& outcome.1@ == old(self).balls.extras@
                &&& final(self).balls.extras@.len() == 0
                &&& forall|b: EntityId| #[trigger] final(self).balls.speed_doublings@.contains_key(b)
                    <==> (old(self).balls.speed_doublings@.contains_key(b)
                    && !old(self).balls.extras@.contains(b))
                &&& forall|b: EntityId| #[trigger] final(self).balls.speed_doublings@.contains_key(b)
                    ==> final(self).balls.speed_doublings@[b] == old(self).balls.speed_doublings@[b]
            },
            outcome.0 is None ==> {
                &&& outcome.1@.len() == 0
                &&& final(self).balls.extras == old(self).balls.extras
                &&& final(self).balls.speed_doublings@ == old(self).balls.speed_doublings@
            },
            final(self).score == old(self).score,
            final(self).settings == old(self).settings,
            final(self).tongs == old(self).tongs,
            final(self).balls.primary == old(self).balls.primary,
            final(self).playfield == old(self).playfield,
            final(self).frame_count == old(self).frame_count,
            final(self).transient_visuals == old(self).transient_visuals,
    {
        match self.state {
            GameState::Playing | GameState::Serving => {},
            _ => return (None, Vec::new()),
        }
        let winner = if self.score.left >= crate::types::WIN_SCORE {
            Some(true)
        } else if self.score.right >= crate::types::WIN_SCORE {
            Some(false)
        } else {
            None
        };
        match winner {
            Some(l) => {
                let extras = self.take_extra_balls();
                self.state = GameState::GameOver { left_wins: l };
                (winner, extras)
            },
            None => (None, Vec::new()),
        }
    }

    /// A fresh match with the current settings: no points, no rally state, and no
    /// detached effects or extra balls, whose ids are handed back for the world to
    /// remove; each tong's jaw is laid back at the jaw this match rests it at (shut for
    /// an Easy CPU, open otherwise), facing as it was; then wait for the serve.
    pub fn start_game(&mut self) -> (removed: (Vec<EntityId>, Vec<EntityId>))
        ensures
            removed.0@ == old(self).transient_visuals@,
            removed.1@ == old(self).balls.extras@,
            final(self).state == GameState::Serving,
            final(self).score == fresh_scoreboard(),
            final(self).transient_visuals@.len() == 0,
            final(self).balls.primary == old(self).balls.primary,
            final(self).balls.extras@.len() == 0,
            final(self).balls.speed_doublings@.len() == 0,
            final(self).settings == old(self).settings,
            final(self).tongs.left == (TongControl {
                jaw: rest_jaw_spec(old(self).settings, Side::Left),
                facing: old(self).tongs.left.facing,
            }),
            final(self).tongs.right == (TongControl {
                jaw: rest_jaw_spec(old(self).settings, Side::Right),
                facing: old(self).tongs.right.facing,
            }),
            final(self).playfield == old(self).playfield,
            final(self).frame_count == old(self).frame_count,
    {
        self.score.reset();
        let visuals = self.clear_transient_visuals();
        let extras = self.take_extra_balls();
        self.balls.clear_speeds();
        let settings = self.settings;
        self.tongs.reset_jaw_intents(&settings);
        self.state = GameState::Serving;
        (visuals, extras)
    }

    /// Leave for the title screen's first row: no detached effects and no extra balls
    /// (nor their multipliers), whose ids are handed back for the world to remove. The
    /// score stays as it was.
    pub fn reset_to_title(&mut self) -> (removed: (Vec<EntityId>, Vec<EntityId>))
        ensures
            removed.0@ == old(self).transient_visuals@,
            removed.1@ == old(self).balls.extras@,
            final(self).state == (GameState::TitleScreen { selection: 0 }),
            final(self).transient_visuals@.len() == 0,
            final(self).balls.primary == old(self).balls.primary,
            final(self).balls.extras@.len() == 0,
            forall|b: EntityId| #[trigger] final(self).balls.speed_doublings@.contains_key(b) <==> (
                old(self).balls.speed_doublings@.contains_key(b) && !old(self).balls.extras@.contains(b)),
            forall|b: EntityId| #[trigger] final(self).balls.speed_doublings@.contains_key(b)
                ==> final(self).balls.speed_doublings@[b] == old(self).balls.speed_doublings@[b],
            final(self).score == old(self).score,
            final(self).settings == old(self).settings,
            final(self).tongs == old(self).tongs,
            final(self).playfield == old(self).playfield,
            final(self).frame_count == old(self).frame_count,
    {
        let visuals = self.clear_transient_visuals();
        let extras = self.take_extra_balls();
        self.state = GameState::TitleScreen { selection: 0 };
        (visuals, extras)
    }
}

} // verus!
