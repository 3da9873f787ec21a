//! The match as the rules see it: where the game is, what was picked, the tongs'
//! controls, the balls in play, the score, and the ids of the entities the rules
//! name. The engine's world, physics and art stay with the program that drives it.

use vstd::prelude::*;
use crate::types::{
    GameState, MatchSettings, Tongs, Scoreboard, fresh_scoreboard, default_settings, spawned_tongs,
};
use crate::balls::{Balls, EntityId, Playfield};

verus! {

/// The rules' whole state of one running game.
pub struct Match {
    pub state: GameState,
    pub settings: MatchSettings,
    pub playfield: Playfield,
    pub tongs: Tongs,
    pub balls: Balls,
    pub score: Scoreboard,
    /// Frames since start-up; wraps.
    pub frame_count: u32,
    /// Every detached effect entity: a collected pickup's puff, a scored ball's fire.
    /// They end themselves, so an id here may already be gone from the world. Cleared
    /// by the serve and by every reset, but not by the respawn after a goal: a goal's
    /// fire burns through `Serving` until the next ball is launched.
    pub transient_visuals: Vec<EntityId>,
}

impl Match {
    /// A game at start-up: on the title screen's first row, with the default settings,
    /// the tongs as the art draws them, nothing spawned yet, no balls and no points.
    pub fn new() -> (game: Match)
        ensures
            game.state == (GameState::TitleScreen { selection: 0 }),
            game.settings == default_settings(),
            game.tongs == spawned_tongs(),
            game.balls.primary is None,
            game.balls.extras@.len() == 0,
            game.balls.speed_doublings@.len() == 0,
            game.score == fresh_scoreboard(),
            game.frame_count == 0,
            game.transient_visuals@.len() == 0,
            game.playfield.court is None,
            game.playfield.wall_strips@.len() == 0,
            game.playfield.backdrop is None,
            game.playfield.left_paddle is None,
            game.playfield.right_paddle is None,
            game.playfield.left_grill is None,
            game.playfield.right_grill is None,
            game.playfield.left_goal is None,
            game.playfield.right_goal is None,
    {
        Match {
            state: GameState::TitleScreen { selection: 0 },
            settings: MatchSettings::default(),
            playfield: Playfield::new(),
            tongs: Tongs::default(),
            balls: Balls::new(),
            score: Scoreboard::default(),
            frame_count: 0,
            transient_visuals: Vec::new(),
        }
    }
}

} // verus!
