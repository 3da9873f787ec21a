use insiculous_pong::achievements::{
    all_ids, chaos_shutout_id, chaos_win_id, desc_key, display_sections, name_key,
    win_achievements, AchievementId,
};
use insiculous_pong::types::{ChaosMode, Difficulty, GameMode, MatchSettings};
use std::collections::HashSet;

const WIN_NORMAL: &str = "win_normal";
const WIN_INSANE: &str = "win_insane";
const WIN_RIDICULOUS: &str = "win_ridiculous";
const WIN_INSICULOUS: &str = "win_insiculous";
const SHUTOUT_NORMAL: &str = "shutout_normal";
const SHUTOUT_INSANE: &str = "shutout_insane";
const SHUTOUT_RIDICULOUS: &str = "shutout_ridiculous";
const SHUTOUT_INSICULOUS: &str = "shutout_insiculous";

#[test]
fn chaos_win_id_maps_each_mode() {
    assert_eq!(chaos_win_id(ChaosMode::Normal).id(), WIN_NORMAL);
    assert_eq!(chaos_win_id(ChaosMode::Insane).id(), WIN_INSANE);
    assert_eq!(chaos_win_id(ChaosMode::Ridiculous).id(), WIN_RIDICULOUS);
    assert_eq!(chaos_win_id(ChaosMode::Insiculous).id(), WIN_INSICULOUS);
}

#[test]
fn chaos_shutout_id_maps_each_mode() {
    assert_eq!(chaos_shutout_id(ChaosMode::Normal).id(), SHUTOUT_NORMAL);
    assert_eq!(chaos_shutout_id(ChaosMode::Insane).id(), SHUTOUT_INSANE);
    assert_eq!(chaos_shutout_id(ChaosMode::Ridiculous).id(), SHUTOUT_RIDICULOUS);
    assert_eq!(chaos_shutout_id(ChaosMode::Insiculous).id(), SHUTOUT_INSICULOUS);
}

#[test]
fn display_sections_cover_every_registered_achievement() {
    let registered = all_ids();
    let shown: HashSet<&str> = display_sections()
        .iter()
        .flat_map(|(_, ids)| ids.iter().map(|id| id.id()))
        .collect();
    for ach in &registered {
        assert!(shown.contains(ach.id()), "{} registered but not in the display sections", ach.id());
    }
    let distinct: HashSet<&str> = registered.iter().map(|a| a.id()).collect();
    assert_eq!(shown.len(), distinct.len(), "the display sections have duplicates or extras");
}

#[test]
fn every_id_is_registered() {
    let registered: Vec<&str> = all_ids().iter().map(|a| a.id()).collect();
    for id in [
        "beat_cpu_easy", "beat_cpu_medium", "beat_cpu_hard",
        "win_normal", "win_insane", "win_ridiculous", "win_insiculous",
        "two_player",
        "shutout_normal", "shutout_insane", "shutout_ridiculous", "shutout_insiculous",
    ] {
        assert!(registered.contains(&id), "{} not registered", id);
    }
}

#[test]
fn registering_every_achievement_makes_twelve_distinct_ids() {
    let ids: HashSet<&str> = all_ids().iter().map(|a| a.id()).collect();
    assert_eq!(all_ids().len(), 12);
    assert_eq!(ids.len(), 12);
}

#[test]
fn the_locale_keys_wrap_the_id() {
    assert_eq!(name_key(AchievementId::BeatCpuEasy), "ach.beat_cpu_easy.name");
    assert_eq!(desc_key(AchievementId::ShutoutInsiculous), "ach.shutout_insiculous.desc");
}

#[test]
fn the_sections_are_drawn_in_their_order() {
    let sections = display_sections();
    let keys: Vec<&str> = sections.iter().map(|(key, _)| *key).collect();
    assert_eq!(keys, vec!["ach.section.cpu", "ach.section.chaos", "ach.section.shutouts", "ach.section.multi"]);
    assert_eq!(sections[3].1, vec![AchievementId::TwoPlayer]);
}

fn settings(mode: GameMode, difficulty: Difficulty, chaos: ChaosMode) -> MatchSettings {
    MatchSettings { mode, difficulty, chaos }
}

#[test]
fn beating_hard_cascades_to_the_easier_difficulties() {
    let won = win_achievements(&settings(GameMode::SinglePlayer, Difficulty::Hard, ChaosMode::Insane), true, 3);
    assert_eq!(
        won,
        vec![
            AchievementId::BeatCpuEasy,
            AchievementId::BeatCpuMedium,
            AchievementId::BeatCpuHard,
            AchievementId::WinInsane,
        ]
    );
}

#[test]
fn a_shutout_adds_the_modes_shutout() {
    let won = win_achievements(&settings(GameMode::SinglePlayer, Difficulty::Easy, ChaosMode::Normal), true, 0);
    assert_eq!(
        won,
        vec![AchievementId::BeatCpuEasy, AchievementId::WinNormal, AchievementId::ShutoutNormal]
    );
}

#[test]
fn a_loss_to_the_cpu_earns_nothing() {
    let won = win_achievements(&settings(GameMode::SinglePlayer, Difficulty::Hard, ChaosMode::Normal), false, 0);
    assert!(won.is_empty());
}

#[test]
fn a_two_player_match_earns_two_player_whoever_wins() {
    for left_wins in [true, false] {
        let won = win_achievements(&settings(GameMode::TwoPlayer, Difficulty::Medium, ChaosMode::Ridiculous), left_wins, 0);
        assert_eq!(won, vec![AchievementId::TwoPlayer]);
    }
}
