//! The menus: the title menu's rows, and what a confirmed row does in each screen.
//! Which row the stick, the keys or the mouse point at is the engine's to read; the
//! rules take the row it settled on.

use vstd::prelude::*;
use crate::types::{
    GameMode, Difficulty, ChaosMode, GameState, chaos_mode_at, CHAOS_MODE_COUNT,
};
use crate::game::Match;

verus! {

/// The title menu's rows.
#[derive(Debug, Clone, Copy, PartialEq, Eq, Structural)]
pub enum TitleItem {
    SinglePlayer,
    TwoPlayer,
    Achievements,
    Language,
    Exit,
}

/// Which build the game is: the native one, or the web one, whose title menu has no
/// Achievements row (the site's game page shows the board instead).
#[derive(Debug, Clone, Copy, PartialEq, Eq, Structural)]
pub enum Build {
    Native,
    Web,
}

/// The title menu's rows in `build`, in order.
pub open spec fn title_rows(build: Build) -> Seq<TitleItem> {
    match build {
        Build::Native => seq![
            TitleItem::SinglePlayer,
            TitleItem::TwoPlayer,
            TitleItem::Achievements,
            TitleItem::Language,
            TitleItem::Exit,
        ],
        Build::Web => seq![
            TitleItem::SinglePlayer,
            TitleItem::TwoPlayer,
            TitleItem::Language,
            TitleItem::Exit,
        ],
    }
}

/// How many rows the title menu has in `build`.
pub fn title_item_count(build: Build) -> (count: u8)
    ensures
        count == title_rows(build).len(),
{
    match build {
        Build::Native => 5,
        Build::Web => 4,
    }
}

/// The title menu's rows in `build`, in order.
pub fn title_items(build: Build) -> (items: Vec<TitleItem>)
    ensures
        items@ == title_rows(build),
{
    let items = match build {
        Build::Native => vec![
            TitleItem::SinglePlayer,
            TitleItem::TwoPlayer,
            TitleItem::Achievements,
            TitleItem::Language,
            TitleItem::Exit,
        ],
        Build::Web => vec![
            TitleItem::SinglePlayer,
            TitleItem::TwoPlayer,
            TitleItem::Language,
            TitleItem::Exit,
        ],
    };
    assert(items@ =~= title_rows(build));
    items
}

/// The row of `item` in `build`'s title menu: its position where it is listed, and 0
/// where it is not (the web build's Achievements).
pub open spec fn title_row_of(build: Build, item: TitleItem) -> u8 {
    match (build, item) {
        (_, TitleItem::SinglePlayer) => 0,
        (_, TitleItem::TwoPlayer) => 1,
        (Build::Native, TitleItem::Achievements) => 2,
        (Build::Native, TitleItem::Language) => 3,
        (Build::Native, TitleItem::Exit) => 4,
        (Build::Web, TitleItem::Achievements) => 0,
        (Build::Web, TitleItem::Language) => 2,
        (Build::Web, TitleItem::Exit) => 3,
    }
}

/// Row index of `item` in `build`'s title menu (0 if absent).
pub fn title_index(build: Build, item: TitleItem) -> (index: u8)
    ensures
        index == title_row_of(build, item),
        index < title_rows(build).len(),
        title_rows(build).contains(item) ==> title_rows(build)[index as int] == item,
        !title_rows(build).contains(item) ==> index == 0,
{
    let items = title_items(build);
    let n = items.len();
    let mut i: usize = 0;
    while i < n
        invariant
            n == items@.len(),
            items@ == title_rows(build),
            i <= n,
            forall|k: int| 0 <= k < i ==> items@[k] != item,
        decreases n - i,
    {
        if items[i] == item {
            return i as u8;
        }
        i = i + 1;
    }
    assert(!title_rows(build).contains(item)) by {
        if title_rows(build).contains(item) {
            let k = choose|k: int| 0 <= k < title_rows(build).len() && title_rows(build)[k] == item;
            assert(items@[k] != item);
        }
    }
    0
}

/// The title menu's row, before the keys move it: the row the mouse hovers, else the
/// stored one, held inside `build`'s menu so a stored row from a longer menu cannot
/// index past its end.
pub fn title_selection(build: Build, stored: u8, hovered: Option<u8>) -> (selection: u8)
    ensures
        selection == (if (match hovered {
            Some(h) => h,
            None => stored,
        }) < title_rows(build).len() - 1 {
            match hovered {
                Some(h) => h,
                None => stored,
            }
        } else {
            (title_rows(build).len() - 1) as u8
        }),
        selection < title_rows(build).len(),
{
    let selection = match hovered {
        Some(h) => h,
        None => stored,
    };
    let last = title_item_count(build) - 1;
    if selection < last {
        selection
    } else {
        last
    }
}

/// The row a menu settles on this frame: a click picks its row outright, otherwise the
/// row the keys left it on.
pub open spec fn settled(navigated: u8, clicked: Option<u8>) -> u8 {
    match clicked {
        Some(row) => row,
        None => navigated,
    }
}

/// The difficulty on the difficulty menu's row `index`: Easy, Medium, and Hard for
/// any row past those.
pub open spec fn difficulty_at(index: int) -> Difficulty {
    if index == 0 {
        Difficulty::Easy
    } else if index == 1 {
        Difficulty::Medium
    } else {
        Difficulty::Hard
    }
}

/// The difficulty menu lists the CPU from weakest to strongest, one difficulty a row:
/// each row's CPU chases faster than the row above it, so the three rows are three
/// different difficulties, Easy at the top and Hard at the bottom (and any row past
/// the menu is Hard). The row the menu opens on is the difficulty a game boots with.
pub proof fn lemma_the_difficulty_rows_rise_in_strength(r1: int, r2: int)
    requires
        0 <= r1 < r2 <= 2,
    ensures
        difficulty_at(r1).ai_speed_spec() < difficulty_at(r2).ai_speed_spec(),
        difficulty_at(r1) != difficulty_at(r2),
        difficulty_at(0) == Difficulty::Easy,
        difficulty_at(2) == Difficulty::Hard,
        forall|r: int| r >= 2 ==> #[trigger] difficulty_at(r) == Difficulty::Hard,
        difficulty_at(1) == crate::types::default_settings().difficulty,
{
}

impl Match {
    /// The title menu after this frame's input: it shows the settled row, and a
    /// confirm (or a click) acts on it. Single player goes on to the difficulty menu
    /// (on Medium), two player straight to the chaos menu, and Achievements to its page;
    /// the chosen row is returned so the caller can do the rest (switch the language,
    /// or exit).
    pub fn title_input(&mut self, build: Build, navigated: u8, clicked: Option<u8>, confirm: bool) -> (chosen:
        Option<TitleItem>)
        requires
            (confirm || clicked is Some) ==> settled(navigated, clicked) < title_rows(build).len(),
        ensures
            ({
                let row = settled(navigated, clicked);
                if confirm || clicked is Some {
                    let item = title_rows(build)[row as int];
                    &&& chosen == Some(item)
                    &&& final(self).state == match item {
                        TitleItem::SinglePlayer => GameState::DifficultySelect { selection: 1 },
                        TitleItem::TwoPlayer => GameState::ChaosSelect { selection: 0 },
                        TitleItem::Achievements => GameState::Achievements,
                        _ => GameState::TitleScreen { selection: row },
                    }
                    &&& final(self).settings == (if item == TitleItem::TwoPlayer {
                        crate::types::MatchSettings { mode: GameMode::TwoPlayer, ..old(self).settings }
                    } else {
                        old(self).settings
                    })
                } else {
                    &&& chosen is None
                    &&& final(self).state == (GameState::TitleScreen { selection: row })
                    &&& final(self).settings == old(self).settings
                }
            }),
            final(self).score == old(self).score,
            final(self).balls == old(self).balls,
            final(self).playfield == old(self).playfield,
            final(self).transient_visuals == old(self).transient_visuals,
            final(self).frame_count == old(self).frame_count,
            final(self).tongs == old(self).tongs,
    {
        let selection = match clicked {
            Some(row) => row,
            None => navigated,
        };
        self.state = GameState::TitleScreen { selection };
        if !(confirm || clicked.is_some()) {
            return None;
        }
        let items = title_items(build);
        let item = items[selection as usize];
        match item {
            TitleItem::SinglePlayer => {
                self.state = GameState::DifficultySelect { selection: 1 };
            },
            TitleItem::TwoPlayer => {
                self.settings.mode = GameMode::TwoPlayer;
                self.state = GameState::ChaosSelect { selection: 0 };
            },
            TitleItem::Achievements => {
                self.state = GameState::Achievements;
            },
            TitleItem::Language | TitleItem::Exit => {},
        }
        Some(item)
    }

    /// The achievements page: dismissing it (back, confirm, or a click anywhere on it)
    /// returns to the title menu on `build`'s Achievements row (the first row in a
    /// build that lists none).
    pub fn achievements_input(&mut self, build: Build, dismiss: bool)
        ensures
            final(self).state == (if dismiss {
                GameState::TitleScreen { selection: title_row_of(build, TitleItem::Achievements) }
            } else {
                old(self).state
            }),
            final(self).settings == old(self).settings,
            final(self).score == old(self).score,
            final(self).tongs == old(self).tongs,
            final(self).balls == old(self).balls,
            final(self).playfield == old(self).playfield,
            final(self).transient_visuals == old(self).transient_visuals,
            final(self).frame_count == old(self).frame_count,
    {
        if dismiss {
            self.state = GameState::TitleScreen { selection: title_index(build, TitleItem::Achievements) };
        }
    }

    /// The difficulty menu after this frame's input: back returns to the title menu's
    /// first row; a confirm picks single player at the settled row's difficulty and
    /// goes on to the chaos menu; otherwise the menu shows the settled row.
    pub fn difficulty_input(&mut self, navigated: u8, clicked: Option<u8>, confirm: bool, back: bool)
        ensures
            ({
                let row = settled(navigated, clicked);
                if back {
                    final(self).state == (GameState::TitleScreen { selection: 0 })
                        && final(self).settings == old(self).settings
                } else if confirm || clicked is Some {
                    &&& final(self).state == (GameState::ChaosSelect { selection: 0 })
                    &&& final(self).settings == (crate::types::MatchSettings {
                        mode: GameMode::SinglePlayer,
                        difficulty: difficulty_at(row as int),
                        ..old(self).settings
                    })
                    &&& row == 0 ==> final(self).settings.difficulty == Difficulty::Easy
                    &&& row == 1 ==> final(self).settings.difficulty == Difficulty::Medium
                    &&& row >= 2 ==> final(self).settings.difficulty == Difficulty::Hard
                } else {
                    final(self).state == (GameState::DifficultySelect { selection: row })
                        && final(self).settings == old(self).settings
                }
            }),
            final(self).score == old(self).score,
            final(self).balls == old(self).balls,
            final(self).playfield == old(self).playfield,
            final(self).transient_visuals == old(self).transient_visuals,
            final(self).frame_count == old(self).frame_count,
            final(self).tongs == old(self).tongs,
    {
        let selection = match clicked {
            Some(row) => row,
            None => navigated,
        };
        self.state = GameState::DifficultySelect { selection };
        if back {
            self.state = GameState::TitleScreen { selection: 0 };
        } else if confirm || clicked.is_some() {
            self.settings.mode = GameMode::SinglePlayer;
            self.settings.difficulty = match selection {
                0 => Difficulty::Easy,
                1 => Difficulty::Medium,
                _ => Difficulty::Hard,
            };
            self.state = GameState::ChaosSelect { selection: 0 };
        }
    }

    /// The chaos menu after this frame's input: back returns to the title menu's first
    /// row; a confirm picks the settled row's chaos mode and answers `true`, which
    /// starts the match; otherwise the menu shows the settled row.
    pub fn chaos_input(&mut self, navigated: u8, clicked: Option<u8>, confirm: bool, back: bool) -> (start: bool)
        requires
            !back && (confirm || clicked is Some) ==> settled(navigated, clicked) < CHAOS_MODE_COUNT,
        ensures
            ({
                let row = settled(navigated, clicked);
                if back {
                    &&& !start
                    &&& final(self).state == (GameState::TitleScreen { selection: 0 })
                    &&& final(self).settings == old(self).settings
                } else if confirm || clicked is Some {
                    &&& start
                    &&& final(self).state == (GameState::ChaosSelect { selection: row })
                    &&& final(self).settings == (crate::types::MatchSettings {
                        chaos: chaos_mode_at(row as int),
                        ..old(self).settings
                    })
                } else {
                    &&& !start
                    &&& final(self).state == (GameState::ChaosSelect { selection: row })
                    &&& final(self).settings == old(self).settings
                }
            }),
            final(self).score == old(self).score,
            final(self).balls == old(self).balls,
            final(self).playfield == old(self).playfield,
            final(self).transient_visuals == old(self).transient_visuals,
            final(self).frame_count == old(self).frame_count,
            final(self).tongs == old(self).tongs,
    {
        let selection = match clicked {
            Some(row) => row,
            None => navigated,
        };
        self.state = GameState::ChaosSelect { selection };
        if back {
            self.state = GameState::TitleScreen { selection: 0 };
            false
        } else if confirm || clicked.is_some() {
            self.settings.chaos = ChaosMode::from_index(selection);
            true
        } else {
            false
        }
    }
}

} // verus!
