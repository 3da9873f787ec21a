use insiculous_pong::types::{ChaosMode, GameMode};
use insiculous_pong::ui::{
    achievement_label, achievement_row, chaos_description_key, unlocked_count_text, game_over_message_key, score_label_keys, score_text,
};

#[test]
fn the_game_over_banner() {
    assert_eq!(game_over_message_key(GameMode::SinglePlayer, true), "over.you_win");
    assert_eq!(game_over_message_key(GameMode::SinglePlayer, false), "over.cpu_wins");
    assert_eq!(game_over_message_key(GameMode::TwoPlayer, true), "over.p1_wins");
    assert_eq!(game_over_message_key(GameMode::TwoPlayer, false), "over.p2_wins");
}

#[test]
fn the_chaos_hints() {
    assert_eq!(chaos_description_key(ChaosMode::Insiculous), "chaos.insiculous.desc");
    assert_eq!(chaos_description_key(ChaosMode::Normal), "chaos.normal.desc");
}

#[test]
fn the_score_line() {
    assert_eq!(score_label_keys(GameMode::SinglePlayer), ("hud.you", "hud.cpu"));
    assert_eq!(score_label_keys(GameMode::TwoPlayer), ("hud.p1", "hud.p2"));
    assert_eq!(score_text("You", 3, 12, "CPU"), "You 3  :  12 CPU");
}

#[test]
fn a_locked_hidden_achievement_keeps_its_secret() {
    assert_eq!(achievement_row(false, true, "Name", "Desc", "???", "Hidden"), ("[ ]", "???", "Hidden"));
    assert_eq!(achievement_row(true, true, "Name", "Desc", "???", "Hidden"), ("[X]", "Name", "Desc"));
    assert_eq!(achievement_row(false, false, "Name", "Desc", "???", "Hidden"), ("[ ]", "Name", "Desc"));
}

#[test]
fn the_achievements_page_lines() {
    assert_eq!(unlocked_count_text(3, 12, "unlocked"), "3 / 12 unlocked");
    assert_eq!(unlocked_count_text(0, 12, "unlocked"), "0 / 12 unlocked");
    assert_eq!(achievement_label("[X]", "Chef"), "[X] Chef");
}
