use insiculous_pong::game::Match;
use insiculous_pong::menu::{title_index, title_item_count, title_items, title_selection, Build, TitleItem};
use insiculous_pong::types::{ChaosMode, Difficulty, GameMode, GameState};

#[test]
fn the_title_menu_rows() {
    assert_eq!(title_items(Build::Native).len(), title_item_count(Build::Native) as usize);
    assert_eq!(title_index(Build::Native, TitleItem::SinglePlayer), 0);
    assert_eq!(title_index(Build::Native, TitleItem::Achievements), 2);
    assert_eq!(title_index(Build::Native, TitleItem::Exit), 4);
}

#[test]
fn the_web_title_menu_has_no_achievements_row() {
    assert_eq!(
        title_items(Build::Web),
        vec![TitleItem::SinglePlayer, TitleItem::TwoPlayer, TitleItem::Language, TitleItem::Exit]
    );
    assert_eq!(title_item_count(Build::Web), 4);
    assert_eq!(title_index(Build::Web, TitleItem::Achievements), 0, "absent: the first row");
    assert_eq!(title_index(Build::Web, TitleItem::Exit), 3);
    assert_eq!(title_selection(Build::Web, 4, None), 3, "a native row past the web menu is held inside it");

    let mut game = Match::new();
    assert_eq!(game.title_input(Build::Web, 2, None, true), Some(TitleItem::Language));
    assert_eq!(game.state, GameState::TitleScreen { selection: 2 });
    game.state = GameState::Achievements;
    game.achievements_input(Build::Web, true);
    assert_eq!(game.state, GameState::TitleScreen { selection: 0 });
}

#[test]
fn a_stored_row_past_the_menu_is_held_inside_it() {
    assert_eq!(title_selection(Build::Native, 9, None), 4);
    assert_eq!(title_selection(Build::Native, 1, None), 1);
    assert_eq!(title_selection(Build::Native, 1, Some(3)), 3, "the hovered row wins");
}

#[test]
fn single_player_goes_on_to_the_difficulty_on_medium() {
    let mut game = Match::new();
    assert_eq!(game.title_input(Build::Native, 0, None, true), Some(TitleItem::SinglePlayer));
    assert_eq!(game.state, GameState::DifficultySelect { selection: 1 });
}

#[test]
fn two_player_goes_straight_to_the_chaos_menu() {
    let mut game = Match::new();
    assert_eq!(game.title_input(Build::Native, 0, Some(1), false), Some(TitleItem::TwoPlayer));
    assert_eq!(game.settings.mode, GameMode::TwoPlayer);
    assert_eq!(game.state, GameState::ChaosSelect { selection: 0 });
}

#[test]
fn moving_without_confirming_only_moves() {
    let mut game = Match::new();
    assert_eq!(game.title_input(Build::Native, 3, None, false), None);
    assert_eq!(game.state, GameState::TitleScreen { selection: 3 });
    assert_eq!(game.title_input(Build::Native, 3, None, true), Some(TitleItem::Language));
    assert_eq!(game.state, GameState::TitleScreen { selection: 3 });
}

#[test]
fn the_achievements_page_returns_to_its_row() {
    let mut game = Match::new();
    game.title_input(Build::Native, 2, None, true);
    assert_eq!(game.state, GameState::Achievements);
    game.achievements_input(Build::Native, false);
    assert_eq!(game.state, GameState::Achievements);
    game.achievements_input(Build::Native, true);
    assert_eq!(game.state, GameState::TitleScreen { selection: 2 });
}

#[test]
fn the_difficulty_menu() {
    let mut game = Match::new();
    game.settings.mode = GameMode::TwoPlayer;
    game.difficulty_input(2, None, false, false);
    assert_eq!(game.state, GameState::DifficultySelect { selection: 2 });
    game.difficulty_input(2, None, true, false);
    assert_eq!(game.settings.mode, GameMode::SinglePlayer);
    assert_eq!(game.settings.difficulty, Difficulty::Hard);
    assert_eq!(game.state, GameState::ChaosSelect { selection: 0 });

    game.difficulty_input(0, Some(0), false, false);
    assert_eq!(game.settings.difficulty, Difficulty::Easy);
    game.difficulty_input(1, None, true, true);
    assert_eq!(game.state, GameState::TitleScreen { selection: 0 }, "back wins");
    assert_eq!(game.settings.difficulty, Difficulty::Easy);
}

#[test]
fn the_chaos_menu_starts_the_match() {
    let mut game = Match::new();
    assert!(!game.chaos_input(3, None, false, false));
    assert_eq!(game.state, GameState::ChaosSelect { selection: 3 });
    assert!(game.chaos_input(3, None, true, false));
    assert_eq!(game.settings.chaos, ChaosMode::Insiculous);
    assert!(!game.chaos_input(1, None, true, true));
    assert_eq!(game.state, GameState::TitleScreen { selection: 0 });
    assert_eq!(game.settings.chaos, ChaosMode::Insiculous);
}
