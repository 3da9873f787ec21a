//! Achievements: their ids, the order they are registered and shown in, the locale
//! keys their names come from, and which ones a finished match unlocks.

use vstd::prelude::*;
use vstd::string::*;
use crate::types::{GameMode, Difficulty, ChaosMode, MatchSettings};

verus! {

/// Every achievement of the game.
#[derive(Debug, Clone, Copy, PartialEq, Eq, Structural)]
pub enum AchievementId {
    BeatCpuEasy,
    BeatCpuMedium,
    BeatCpuHard,
    WinNormal,
    WinInsane,
    WinRidiculous,
    WinInsiculous,
    TwoPlayer,
    ShutoutNormal,
    ShutoutInsane,
    ShutoutRidiculous,
    ShutoutInsiculous,
}

/// The id an achievement is registered and unlocked under.
pub open spec fn id_text(a: AchievementId) -> Seq<char> {
    match a {
        AchievementId::BeatCpuEasy => "beat_cpu_easy"@,
        AchievementId::BeatCpuMedium => "beat_cpu_medium"@,
        AchievementId::BeatCpuHard => "beat_cpu_hard"@,
        AchievementId::WinNormal => "win_normal"@,
        AchievementId::WinInsane => "win_insane"@,
        AchievementId::WinRidiculous => "win_ridiculous"@,
        AchievementId::WinInsiculous => "win_insiculous"@,
        AchievementId::TwoPlayer => "two_player"@,
        AchievementId::ShutoutNormal => "shutout_normal"@,
        AchievementId::ShutoutInsane => "shutout_insane"@,
        AchievementId::ShutoutRidiculous => "shutout_ridiculous"@,
        AchievementId::ShutoutInsiculous => "shutout_insiculous"@,
    }
}

impl AchievementId {
    /// The id this achievement is registered and unlocked under.
    pub fn id(self) -> (id: &'static str)
        ensures
            id@ == id_text(self),
    {
        match self {
            AchievementId::BeatCpuEasy => "beat_cpu_easy",
            AchievementId::BeatCpuMedium => "beat_cpu_medium",
            AchievementId::BeatCpuHard => "beat_cpu_hard",
            AchievementId::WinNormal => "win_normal",
            AchievementId::WinInsane => "win_insane",
            AchievementId::WinRidiculous => "win_ridiculous",
            AchievementId::WinInsiculous => "win_insiculous",
            AchievementId::TwoPlayer => "two_player",
            AchievementId::ShutoutNormal => "shutout_normal",
            AchievementId::ShutoutInsane => "shutout_insane",
            AchievementId::ShutoutRidiculous => "shutout_ridiculous",
            AchievementId::ShutoutInsiculous => "shutout_insiculous",
        }
    }
}

/// No two achievements share an id, so registering all of them, keyed by id, holds
/// one entry for each.
pub proof fn lemma_achievement_ids_are_distinct(a: AchievementId, b: AchievementId)
    ensures
        id_text(a) == id_text(b) ==> a == b,
{
    reveal_strlit("beat_cpu_easy");
    reveal_strlit("beat_cpu_medium");
    reveal_strlit("beat_cpu_hard");
    reveal_strlit("win_normal");
    reveal_strlit("win_insane");
    reveal_strlit("win_ridiculous");
    reveal_strlit("win_insiculous");
    reveal_strlit("two_player");
    reveal_strlit("shutout_normal");
    reveal_strlit("shutout_insane");
    reveal_strlit("shutout_ridiculous");
    reveal_strlit("shutout_insiculous");
    if id_text(a) == id_text(b) {
        assert(id_text(a).len() == id_text(b).len());
        assert(id_text(a)[0] == id_text(b)[0]);
        assert(id_text(a)[4] == id_text(b)[4]);
        assert(id_text(a)[9] == id_text(b)[9]);
        assert(id_text(a)[8] == id_text(b)[8]);
    }
}

/// Every achievement, in registration order.
pub open spec fn all_ids_spec() -> Seq<AchievementId> {
    seq![
        AchievementId::BeatCpuEasy,
        AchievementId::BeatCpuMedium,
        AchievementId::BeatCpuHard,
        AchievementId::WinNormal,
        AchievementId::WinInsane,
        AchievementId::WinRidiculous,
        AchievementId::WinInsiculous,
        AchievementId::TwoPlayer,
        AchievementId::ShutoutNormal,
        AchievementId::ShutoutInsane,
        AchievementId::ShutoutRidiculous,
        AchievementId::ShutoutInsiculous,
    ]
}

/// Every achievement, in registration order.
pub fn all_ids() -> (ids: Vec<AchievementId>)
    ensures
        ids@ == all_ids_spec(),
{
    vec![
        AchievementId::BeatCpuEasy,
        AchievementId::BeatCpuMedium,
        AchievementId::BeatCpuHard,
        AchievementId::WinNormal,
        AchievementId::WinInsane,
        AchievementId::WinRidiculous,
        AchievementId::WinInsiculous,
        AchievementId::TwoPlayer,
        AchievementId::ShutoutNormal,
        AchievementId::ShutoutInsane,
        AchievementId::ShutoutRidiculous,
        AchievementId::ShutoutInsiculous,
    ]
}

/// The achievements page's sections: a header's locale key, then the achievements
/// under it, in the order drawn.
pub open spec fn display_sections_spec() -> Seq<(Seq<char>, Seq<AchievementId>)> {
    seq![
        ("ach.section.cpu"@, seq![
            AchievementId::BeatCpuEasy,
            AchievementId::BeatCpuMedium,
            AchievementId::BeatCpuHard,
        ]),
        ("ach.section.chaos"@, seq![
            AchievementId::WinNormal,
            AchievementId::WinInsane,
            AchievementId::WinRidiculous,
            AchievementId::WinInsiculous,
        ]),
        ("ach.section.shutouts"@, seq![
            AchievementId::ShutoutNormal,
            AchievementId::ShutoutInsane,
            AchievementId::ShutoutRidiculous,
            AchievementId::ShutoutInsiculous,
        ]),
        ("ach.section.multi"@, seq![AchievementId::TwoPlayer]),
    ]
}

/// The grouped display order for the achievements page: each section's header locale
/// key, and the achievements listed under it.
pub fn display_sections() -> (sections: Vec<(&'static str, Vec<AchievementId>)>)
    ensures
        sections@.len() == display_sections_spec().len(),
        forall|i: int| 0 <= i < sections@.len() ==> {
            &&& (#[trigger] sections@[i]).0@ == display_sections_spec()[i].0
            &&& sections@[i].1@ == display_sections_spec()[i].1
        },
{
    let cpu = vec![AchievementId::BeatCpuEasy, AchievementId::BeatCpuMedium, AchievementId::BeatCpuHard];
    let chaos = vec![
        AchievementId::WinNormal,
        AchievementId::WinInsane,
        AchievementId::WinRidiculous,
        AchievementId::WinInsiculous,
    ];
    let shutouts = vec![
        AchievementId::ShutoutNormal,
        AchievementId::ShutoutInsane,
        AchievementId::ShutoutRidiculous,
        AchievementId::ShutoutInsiculous,
    ];
    let multi = vec![AchievementId::TwoPlayer];
    let sections = vec![
        ("ach.section.cpu", cpu),
        ("ach.section.chaos", chaos),
        ("ach.section.shutouts", shutouts),
        ("ach.section.multi", multi),
    ];
    sections
}

/// The page lists every achievement exactly once: flattened, its sections hold the
/// registered achievements, none twice and none missing.
pub proof fn lemma_display_sections_cover_every_achievement()
    ensures
        ({
            let shown = display_sections_spec()[0].1 + display_sections_spec()[1].1
                + display_sections_spec()[2].1 + display_sections_spec()[3].1;
            &&& shown.no_duplicates()
            &&& shown.len() == all_ids_spec().len()
            &&& forall|a: AchievementId| shown.contains(a) <==> all_ids_spec().contains(a)
        }),
{
    let shown = display_sections_spec()[0].1 + display_sections_spec()[1].1
        + display_sections_spec()[2].1 + display_sections_spec()[3].1;
    let all = all_ids_spec();
    assert(shown =~= seq![
        AchievementId::BeatCpuEasy,
        AchievementId::BeatCpuMedium,
        AchievementId::BeatCpuHard,
        AchievementId::WinNormal,
        AchievementId::WinInsane,
        AchievementId::WinRidiculous,
        AchievementId::WinInsiculous,
        AchievementId::ShutoutNormal,
        AchievementId::ShutoutInsane,
        AchievementId::ShutoutRidiculous,
        AchievementId::ShutoutInsiculous,
        AchievementId::TwoPlayer,
    ]);
    assert forall|a: AchievementId| shown.contains(a) <==> all.contains(a) by {
        match a {
            AchievementId::BeatCpuEasy => { assert(shown[0] == a && all[0] == a); },
            AchievementId::BeatCpuMedium => { assert(shown[1] == a && all[1] == a); },
            AchievementId::BeatCpuHard => { assert(shown[2] == a && all[2] == a); },
            AchievementId::WinNormal => { assert(shown[3] == a && all[3] == a); },
            AchievementId::WinInsane => { assert(shown[4] == a && all[4] == a); },
            AchievementId::WinRidiculous => { assert(shown[5] == a && all[5] == a); },
            AchievementId::WinInsiculous => { assert(shown[6] == a && all[6] == a); },
            AchievementId::TwoPlayer => { assert(shown[11] == a && all[7] == a); },
            AchievementId::ShutoutNormal => { assert(shown[7] == a && all[8] == a); },
            AchievementId::ShutoutInsane => { assert(shown[8] == a && all[9] == a); },
            AchievementId::ShutoutRidiculous => { assert(shown[9] == a && all[10] == a); },
            AchievementId::ShutoutInsiculous => { assert(shown[10] == a && all[11] == a); },
        }
    }
}

/// The chaos-win achievement for a mode.
pub open spec fn chaos_win_spec(mode: ChaosMode) -> AchievementId {
    match mode {
        ChaosMode::Normal => AchievementId::WinNormal,
        ChaosMode::Insane => AchievementId::WinInsane,
        ChaosMode::Ridiculous => AchievementId::WinRidiculous,
        ChaosMode::Insiculous => AchievementId::WinInsiculous,
    }
}

/// The shutout achievement for a mode.
pub open spec fn chaos_shutout_spec(mode: ChaosMode) -> AchievementId {
    match mode {
        ChaosMode::Normal => AchievementId::ShutoutNormal,
        ChaosMode::Insane => AchievementId::ShutoutInsane,
        ChaosMode::Ridiculous => AchievementId::ShutoutRidiculous,
        ChaosMode::Insiculous => AchievementId::ShutoutInsiculous,
    }
}

/// The achievement for beating the CPU in a mode.
pub fn chaos_win_id(mode: ChaosMode) -> (id: AchievementId)
    ensures
        id == chaos_win_spec(mode),
{
    match mode {
        ChaosMode::Normal => AchievementId::WinNormal,
        ChaosMode::Insane => AchievementId::WinInsane,
        ChaosMode::Ridiculous => AchievementId::WinRidiculous,
        ChaosMode::Insiculous => AchievementId::WinInsiculous,
    }
}

/// The achievement for beating the CPU in a mode without conceding.
pub fn chaos_shutout_id(mode: ChaosMode) -> (id: AchievementId)
    ensures
        id == chaos_shutout_spec(mode),
{
    match mode {
        ChaosMode::Normal => AchievementId::ShutoutNormal,
        ChaosMode::Insane => AchievementId::ShutoutInsane,
        ChaosMode::Ridiculous => AchievementId::ShutoutRidiculous,
        ChaosMode::Insiculous => AchievementId::ShutoutInsiculous,
    }
}

/// The CPU-win cascade: beating a difficulty also grants the easier ones.
pub open spec fn cpu_cascade(difficulty: Difficulty) -> Seq<AchievementId> {
    match difficulty {
        Difficulty::Easy => seq![AchievementId::BeatCpuEasy],
        Difficulty::Medium => seq![AchievementId::BeatCpuEasy, AchievementId::BeatCpuMedium],
        Difficulty::Hard => seq![
            AchievementId::BeatCpuEasy,
            AchievementId::BeatCpuMedium,
            AchievementId::BeatCpuHard,
        ],
    }
}

/// What a finished match unlocks, in unlock order.
pub open spec fn win_achievements_spec(settings: MatchSettings, left_wins: bool, right_score: u32) -> Seq<
    AchievementId,
> {
    match settings.mode {
        GameMode::TwoPlayer => seq![AchievementId::TwoPlayer],
        GameMode::SinglePlayer => if left_wins {
            cpu_cascade(settings.difficulty).push(chaos_win_spec(settings.chaos)) + (if right_score
                == 0 {
                seq![chaos_shutout_spec(settings.chaos)]
            } else {
                Seq::empty()
            })
        } else {
            Seq::empty()
        },
    }
}

/// The achievements a finished match unlocks, in order. The left tong is always the
/// local player (or player one), so `left_wins` says whether the player won.
///
/// A two-player match earns "two player" whoever won: it is for playing one to the end.
/// Beating the CPU earns its difficulty and every easier one, the chaos mode's win, and
/// the mode's shutout when the CPU scored nothing. A loss to the CPU earns nothing.
pub fn win_achievements(settings: &MatchSettings, left_wins: bool, right_score: u32) -> (ids: Vec<
    AchievementId,
>)
    ensures
        ids@ == win_achievements_spec(*settings, left_wins, right_score),
        settings.mode == GameMode::SinglePlayer && left_wins ==> {
            &&& ids@.contains(AchievementId::BeatCpuEasy)
            &&& ids@.contains(AchievementId::BeatCpuMedium) <==> settings.difficulty != Difficulty::Easy
            &&& ids@.contains(AchievementId::BeatCpuHard) <==> settings.difficulty == Difficulty::Hard
        },
        settings.mode == GameMode::SinglePlayer && !left_wins ==> ids@.len() == 0,
{
    proof {
        if settings.mode == GameMode::SinglePlayer && left_wins {
            lemma_a_win_grants_the_difficulties_beaten(*settings, right_score);
        }
    }
    match settings.mode {
        GameMode::TwoPlayer => vec![AchievementId::TwoPlayer],
        GameMode::SinglePlayer => {
            if !left_wins {
                return Vec::new();
            }
            let mut ids = match settings.difficulty {
                Difficulty::Easy => vec![AchievementId::BeatCpuEasy],
                Difficulty::Medium => vec![AchievementId::BeatCpuEasy, AchievementId::BeatCpuMedium],
                Difficulty::Hard => vec![
                    AchievementId::BeatCpuEasy,
                    AchievementId::BeatCpuMedium,
                    AchievementId::BeatCpuHard,
                ],
            };
            ids.push(chaos_win_id(settings.chaos));
            if right_score == 0 {
                ids.push(chaos_shutout_id(settings.chaos));
            }
            assert(ids@ =~= win_achievements_spec(*settings, left_wins, right_score));
            ids
        },
    }
}

/// Beating the CPU grants "beat the CPU" for the difficulty played and every easier
/// one, and for no harder one: Easy always, Medium exactly when the CPU was Medium or
/// Hard, Hard exactly when it was Hard.
pub proof fn lemma_a_win_grants_the_difficulties_beaten(settings: MatchSettings, right_score: u32)
    requires
        settings.mode == GameMode::SinglePlayer,
    ensures
        win_achievements_spec(settings, true, right_score).contains(AchievementId::BeatCpuEasy),
        win_achievements_spec(settings, true, right_score).contains(AchievementId::BeatCpuMedium)
            <==> settings.difficulty != Difficulty::Easy,
        win_achievements_spec(settings, true, right_score).contains(AchievementId::BeatCpuHard)
            <==> settings.difficulty == Difficulty::Hard,
{
    let ids = win_achievements_spec(settings, true, right_score);
    let cascade = cpu_cascade(settings.difficulty);
    let tail = seq![chaos_win_spec(settings.chaos)] + (if right_score == 0 {
        seq![chaos_shutout_spec(settings.chaos)]
    } else {
        Seq::empty()
    });
    assert(ids =~= cascade + tail);
    assert(ids[0] == AchievementId::BeatCpuEasy);
    // Nothing after the cascade is a "beat the CPU" achievement.
    assert forall|i: int| cascade.len() <= i < ids.len() implies ids[i] != AchievementId::BeatCpuMedium
        && ids[i] != AchievementId::BeatCpuHard by {
        assert(ids[i] == tail[i - cascade.len()]);
    }
    match settings.difficulty {
        Difficulty::Easy => {
            assert(!ids.contains(AchievementId::BeatCpuMedium)) by {
                if ids.contains(AchievementId::BeatCpuMedium) {
                    let i = choose|i: int| 0 <= i < ids.len() && ids[i] == AchievementId::BeatCpuMedium;
                }
            }
            assert(!ids.contains(AchievementId::BeatCpuHard)) by {
                if ids.contains(AchievementId::BeatCpuHard) {
                    let i = choose|i: int| 0 <= i < ids.len() && ids[i] == AchievementId::BeatCpuHard;
                }
            }
        },
        Difficulty::Medium => {
            assert(ids[1] == AchievementId::BeatCpuMedium);
            assert(!ids.contains(AchievementId::BeatCpuHard)) by {
                if ids.contains(AchievementId::BeatCpuHard) {
                    let i = choose|i: int| 0 <= i < ids.len() && ids[i] == AchievementId::BeatCpuHard;
                }
            }
        },
        Difficulty::Hard => {
            assert(ids[1] == AchievementId::BeatCpuMedium);
            assert(ids[2] == AchievementId::BeatCpuHard);
        },
    }
}

/// Winning at a harder difficulty grants everything winning at an easier one would
/// have, in the same mode and with the same score.
pub proof fn lemma_harder_wins_grant_the_easier_ones(
    settings: MatchSettings,
    right_score: u32,
    a: AchievementId,
)
    requires
        settings.mode == GameMode::SinglePlayer,
        win_achievements_spec(
            MatchSettings { difficulty: Difficulty::Easy, ..settings },
            true,
            right_score,
        ).contains(a) || win_achievements_spec(
            MatchSettings { difficulty: Difficulty::Medium, ..settings },
            true,
            right_score,
        ).contains(a),
    ensures
        win_achievements_spec(
            MatchSettings { difficulty: Difficulty::Hard, ..settings },
            true,
            right_score,
        ).contains(a),
        win_achievements_spec(
            MatchSettings { difficulty: Difficulty::Easy, ..settings },
            true,
            right_score,
        ).contains(a) ==> win_achievements_spec(
            MatchSettings { difficulty: Difficulty::Medium, ..settings },
            true,
            right_score,
        ).contains(a),
{
    let easy = win_achievements_spec(MatchSettings { difficulty: Difficulty::Easy, ..settings }, true, right_score);
    let medium = win_achievements_spec(MatchSettings { difficulty: Difficulty::Medium, ..settings }, true, right_score);
    let hard = win_achievements_spec(MatchSettings { difficulty: Difficulty::Hard, ..settings }, true, right_score);
    let tail = seq![chaos_win_spec(settings.chaos)] + (if right_score == 0 {
        seq![chaos_shutout_spec(settings.chaos)]
    } else {
        Seq::empty()
    });
    assert(easy =~= seq![AchievementId::BeatCpuEasy] + tail);
    assert(medium =~= seq![AchievementId::BeatCpuEasy, AchievementId::BeatCpuMedium] + tail);
    assert(hard =~= seq![AchievementId::BeatCpuEasy, AchievementId::BeatCpuMedium, AchievementId::BeatCpuHard] + tail);
    if easy.contains(a) {
        let i = choose|i: int| 0 <= i < easy.len() && easy[i] == a;
        if i == 0 {
            assert(medium[0] == a);
            assert(hard[0] == a);
        } else {
            assert(medium[i + 1] == a);
            assert(hard[i + 2] == a);
        }
    } else {
        let i = choose|i: int| 0 <= i < medium.len() && medium[i] == a;
        if i < 2 {
            assert(hard[i] == a);
        } else {
            assert(hard[i + 1] == a);
        }
    }
}

/// The locale key an achievement's name is read from: `ach.<id>.name`.
pub fn name_key(a: AchievementId) -> (key: String)
    ensures
        key@ == "ach."@ + id_text(a) + ".name"@,
{
    String::from_str("ach.").concat(a.id()).concat(".name")
}

/// The locale key an achievement's description is read from: `ach.<id>.desc`.
pub fn desc_key(a: AchievementId) -> (key: String)
    ensures
        key@ == "ach."@ + id_text(a) + ".desc"@,
{
    String::from_str("ach.").concat(a.id()).concat(".desc")
}

} // verus!
