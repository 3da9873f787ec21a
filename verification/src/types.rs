//! The game's small vocabulary: sides, facings, jaws, modes, menus' states and the
//! score.

use vstd::prelude::*;

verus! {

/// The two ends of the court, each with its tong and its goal.
#[derive(Debug, Clone, Copy, PartialEq, Eq, Structural)]
pub enum Side {
    Left,
    Right,
}

impl Side {
    /// The other side: the tong that conceded when this one scores.
    pub fn opposite(self) -> (other: Side)
        ensures
            other == opposite_side(self),
    {
        match self {
            Side::Left => Side::Right,
            Side::Right => Side::Left,
        }
    }
}

/// The side across the court from `side`.
pub open spec fn opposite_side(side: Side) -> Side {
    match side {
        Side::Left => Side::Right,
        Side::Right => Side::Left,
    }
}

/// Across and back again is where you started, and no side is its own opposite.
pub proof fn lemma_opposite_is_an_involution(side: Side)
    ensures
        opposite_side(opposite_side(side)) == side,
        opposite_side(side) != side,
{
}

/// Which way a tong's gripping ends point. `Up` is the left tong's pictured
/// orientation, tips up and hinge down; `Down` is its mirror, the way the right tong
/// is drawn. Each tong carries both, as ten clips.
#[derive(Debug, Clone, Copy, PartialEq, Eq, Structural)]
pub enum Facing {
    Up,
    Down,
}

/// The suffix a facing appends to a tong clip's name.
pub open spec fn facing_suffix(facing: Facing) -> Seq<char> {
    match facing {
        Facing::Up => "up"@,
        Facing::Down => "down"@,
    }
}

impl Facing {
    /// The suffix this facing appends to a tong clip's name.
    pub fn suffix(self) -> (suffix: &'static str)
        ensures
            suffix@ == facing_suffix(self),
    {
        match self {
            Facing::Up => "up",
            Facing::Down => "down",
        }
    }
}

/// What the player's stick or the CPU's policy asks a tong's jaw for. A player's
/// answer is held until the stick asks the other way, so this is the jaw's intent
/// rather than a per-frame pulse.
#[derive(Debug, Clone, Copy, PartialEq, Eq, Structural)]
pub enum Jaw {
    Open,
    Closed,
}

/// The names of a tong's five clips; each one is also a state of its machine, once
/// per facing.
pub const TONG_OPEN: &'static str = "open";
pub const TONG_CLOSING: &'static str = "closing";
pub const TONG_CLOSED: &'static str = "closed";
pub const TONG_OPENING: &'static str = "opening";
pub const TONG_SCORED_ON: &'static str = "scored_on";

/// The meatball's clips, the grill's and the pickup's.
pub const MEATBALL_IDLE: &'static str = "idle";
pub const MEATBALL_TOASTED: &'static str = "toasted";
pub const MEATBALL_ON_FIRE: &'static str = "on_fire";
pub const GRILL_IDLE: &'static str = "idle";
pub const GRILL_SCORE: &'static str = "score";
pub const PICKUP_IDLE: &'static str = "idle";
pub const PICKUP_COLLECT: &'static str = "collect";

impl Jaw {
    /// The clip a jaw resting in this position plays.
    pub fn clip(self) -> (clip: &'static str)
        ensures
            self == Jaw::Open ==> clip@ == TONG_OPEN@,
            self == Jaw::Closed ==> clip@ == TONG_CLOSED@,
    {
        match self {
            Jaw::Open => TONG_OPEN,
            Jaw::Closed => TONG_CLOSED,
        }
    }
}


/// One tong's control state: the jaw it is asked for, and the facing its machine is
/// in. Both are read and written once per frame, by the jaw pass.
#[derive(Debug, Clone, Copy, PartialEq, Eq, Structural)]
pub struct TongControl {
    pub jaw: Jaw,
    pub facing: Facing,
}

impl TongControl {
    /// A tong's control as it is spawned: asked for an open jaw, in `facing`.
    pub fn new(facing: Facing) -> (control: TongControl)
        ensures
            control == (TongControl { jaw: Jaw::Open, facing }),
    {
        TongControl { jaw: Jaw::Open, facing }
    }
}

/// Both tongs' controls.
#[derive(Debug, Clone, Copy, PartialEq, Eq, Structural)]
pub struct Tongs {
    pub left: TongControl,
    pub right: TongControl,
}

/// The control of `side`'s tong.
pub open spec fn tong_of(tongs: Tongs, side: Side) -> TongControl {
    match side {
        Side::Left => tongs.left,
        Side::Right => tongs.right,
    }
}

/// `tongs` with `side`'s control replaced by `control`, the other left as it is.
pub open spec fn with_tong(tongs: Tongs, side: Side, control: TongControl) -> Tongs {
    match side {
        Side::Left => Tongs { left: control, right: tongs.right },
        Side::Right => Tongs { left: tongs.left, right: control },
    }
}

impl Tongs {
    pub fn get(&self, side: Side) -> (control: &TongControl)
        ensures
            *control == tong_of(*self, side),
    {
        match side {
            Side::Left => &self.left,
            Side::Right => &self.right,
        }
    }

    /// Replace `side`'s control, leaving the other tong's alone.
    pub fn set(&mut self, side: Side, control: TongControl)
        ensures
            *final(self) == with_tong(*old(self), side, control),
    {
        match side {
            Side::Left => self.left = control,
            Side::Right => self.right = control,
        }
    }
}

/// Both tongs as they are spawned.
pub open spec fn spawned_tongs() -> Tongs {
    Tongs {
        left: TongControl { jaw: Jaw::Open, facing: Facing::Up },
        right: TongControl { jaw: Jaw::Open, facing: Facing::Down },
    }
}

impl Default for Tongs {
    /// Both tongs spawned facing the way the art draws them: the left tong's tips up,
    /// the right's down, each asked for an open jaw.
    fn default() -> (tongs: Tongs)
        ensures
            tongs == spawned_tongs(),
    {
        Tongs { left: TongControl::new(Facing::Up), right: TongControl::new(Facing::Down) }
    }
}

/// Who is behind the tongs: one player against the CPU, or two players.
#[derive(Debug, Clone, Copy, PartialEq, Eq, Structural)]
pub enum GameMode {
    SinglePlayer,
    TwoPlayer,
}

/// The CPU's strength in single player.
#[derive(Debug, Clone, Copy, PartialEq, Eq, Structural)]
pub enum Difficulty {
    Easy,
    Medium,
    Hard,
}

/// How long before the ball lands the CPU tong of `difficulty` shuts its jaw, in
/// milliseconds of ball flight; none for Easy, which plays flat and never works its
/// jaw.
pub open spec fn chomp_lead_ms(difficulty: Difficulty) -> Option<u32> {
    match difficulty {
        Difficulty::Easy => None,
        Difficulty::Medium => Some(450u32),
        Difficulty::Hard => Some(600u32),
    }
}

impl Difficulty {
    /// The CPU tong's chase speed, in pixels a second.
    pub open spec fn ai_speed_spec(self) -> int {
        match self {
            Difficulty::Easy => 180,
            Difficulty::Medium => 255,
            Difficulty::Hard => 380,
        }
    }

    /// The CPU tong's chase speed, in pixels a second.
    pub fn ai_speed(self) -> (speed: u32)
        ensures
            speed == self.ai_speed_spec(),
    {
        match self {
            Difficulty::Easy => 180,
            Difficulty::Medium => 255,
            Difficulty::Hard => 380,
        }
    }

    /// How much ball flight the CPU tong wants between the ball closing on its face
    /// and the chomp being due, in milliseconds: under this it shuts its jaw, and what
    /// it reopens for is measured from it. Both leads are past the jaw's own 300 ms
    /// `closing` clip. `None` for Easy, whose jaw rests closed.
    pub fn ai_chomp_lead_ms(self) -> (lead: Option<u32>)
        ensures
            lead == chomp_lead_ms(self),
    {
        match self {
            Difficulty::Easy => None,
            Difficulty::Medium => Some(450),
            Difficulty::Hard => Some(600),
        }
    }

    /// Whether this difficulty's CPU tong ever opens its jaw: exactly when it has a
    /// chomp lead to measure against.
    pub fn opens_its_jaw(self) -> (opens: bool)
        ensures
            opens == chomp_lead_ms(self).is_some(),
            opens == (self != Difficulty::Easy),
    {
        self.ai_chomp_lead_ms().is_some()
    }

    /// Locale key for this difficulty's display name.
    pub fn label_key(self) -> (key: &'static str)
        ensures
            self == Difficulty::Easy ==> key@ == "diff.easy"@,
            self == Difficulty::Medium ==> key@ == "diff.medium"@,
            self == Difficulty::Hard ==> key@ == "diff.hard"@,
    {
        match self {
            Difficulty::Easy => "diff.easy",
            Difficulty::Medium => "diff.medium",
            Difficulty::Hard => "diff.hard",
        }
    }
}

/// The chaos modes, in the order the chaos menu lists them: classic Pong, a ball that
/// speeds up on every tong hit, a match that starts with two balls, and both at once.
#[derive(Debug, Clone, Copy, PartialEq, Eq, Structural)]
pub enum ChaosMode {
    Normal,
    Insane,
    Ridiculous,
    Insiculous,
}

/// How many rows the chaos menu has: one per mode.
pub const CHAOS_MODE_COUNT: u8 = 4;

/// The chaos mode on row `index` of the chaos menu.
pub open spec fn chaos_mode_at(index: int) -> ChaosMode {
    if index == 0 {
        ChaosMode::Normal
    } else if index == 1 {
        ChaosMode::Insane
    } else if index == 2 {
        ChaosMode::Ridiculous
    } else {
        ChaosMode::Insiculous
    }
}

/// Whether a tong hit speeds the ball up in `mode`.
pub open spec fn insane_mode(mode: ChaosMode) -> bool {
    mode == ChaosMode::Insane || mode == ChaosMode::Insiculous
}

/// Whether a serve launches a second ball in `mode`.
pub open spec fn ridiculous_mode(mode: ChaosMode) -> bool {
    mode == ChaosMode::Ridiculous || mode == ChaosMode::Insiculous
}

impl ChaosMode {
    /// The mode on row `index` of the chaos menu.
    pub fn from_index(index: u8) -> (mode: ChaosMode)
        requires
            index < CHAOS_MODE_COUNT,
        ensures
            mode == chaos_mode_at(index as int),
    {
        match index {
            0 => ChaosMode::Normal,
            1 => ChaosMode::Insane,
            2 => ChaosMode::Ridiculous,
            _ => ChaosMode::Insiculous,
        }
    }

    /// Whether a tong hit speeds the ball up: Insane, and Insiculous, which is both.
    pub fn is_insane(self) -> (insane: bool)
        ensures
            insane == insane_mode(self),
    {
        match self {
            ChaosMode::Insane | ChaosMode::Insiculous => true,
            _ => false,
        }
    }

    /// Whether a serve launches a second ball: Ridiculous, and Insiculous.
    pub fn is_ridiculous(self) -> (ridiculous: bool)
        ensures
            ridiculous == ridiculous_mode(self),
    {
        match self {
            ChaosMode::Ridiculous | ChaosMode::Insiculous => true,
            _ => false,
        }
    }
}

/// Locale key for a chaos mode's display name.
pub fn chaos_label_key(mode: ChaosMode) -> (key: &'static str)
    ensures
        mode == ChaosMode::Normal ==> key@ == "chaos.normal"@,
        mode == ChaosMode::Insane ==> key@ == "chaos.insane"@,
        mode == ChaosMode::Ridiculous ==> key@ == "chaos.ridiculous"@,
        mode == ChaosMode::Insiculous ==> key@ == "chaos.insiculous"@,
{
    match mode {
        ChaosMode::Normal => "chaos.normal",
        ChaosMode::Insane => "chaos.insane",
        ChaosMode::Ridiculous => "chaos.ridiculous",
        ChaosMode::Insiculous => "chaos.insiculous",
    }
}

/// Where the game is: one of the menus, or a match serving, playing or over.
#[derive(Debug, Clone, Copy, PartialEq, Eq, Structural)]
pub enum GameState {
    TitleScreen { selection: u8 },
    DifficultySelect { selection: u8 },
    ChaosSelect { selection: u8 },
    Achievements,
    Serving,
    Playing,
    GameOver { left_wins: bool },
}

/// The two pickups: the flame's speed boost and the knife's extra ball.
#[derive(Debug, Clone, Copy, PartialEq, Eq, Structural)]
pub enum PowerUpKind {
    SpeedBoost,
    MultiBall,
}

impl PowerUpKind {
    /// Editor-hierarchy display name for a spawned power-up entity.
    pub fn entity_name(self) -> (name: &'static str)
        ensures
            self == PowerUpKind::SpeedBoost ==> name@ == "Power-Up (Speed Boost)"@,
            self == PowerUpKind::MultiBall ==> name@ == "Power-Up (Multi-Ball)"@,
    {
        match self {
            PowerUpKind::SpeedBoost => "Power-Up (Speed Boost)",
            PowerUpKind::MultiBall => "Power-Up (Multi-Ball)",
        }
    }
}

/// The points a match is played to.
pub const WIN_SCORE: u32 = 7;

/// Match score, plus who scored last (the serve's direction) and who touched the
/// ball last.
#[derive(Debug, Clone, Copy, PartialEq, Eq, Structural)]
pub struct Scoreboard {
    pub left: u32,
    pub right: u32,
    pub last_scorer: Side,
    pub last_touch: Option<Side>,
}

/// The board a fresh match starts from.
pub open spec fn fresh_scoreboard() -> Scoreboard {
    Scoreboard { left: 0, right: 0, last_scorer: Side::Right, last_touch: None }
}

/// `board` after `side` scores: one more point to that side, which becomes the last
/// scorer, and nothing else changed.
pub open spec fn scored(board: Scoreboard, side: Side) -> Scoreboard {
    match side {
        Side::Left => Scoreboard { left: (board.left + 1) as u32, last_scorer: side, ..board },
        Side::Right => Scoreboard { right: (board.right + 1) as u32, last_scorer: side, ..board },
    }
}

/// A side's points on `board`.
pub open spec fn points_of(board: Scoreboard, side: Side) -> int {
    match side {
        Side::Left => board.left as int,
        Side::Right => board.right as int,
    }
}

impl Scoreboard {
    /// Give `side` a point.
    pub fn award_point(&mut self, side: Side)
        requires
            points_of(*old(self), side) < u32::MAX,
        ensures
            *final(self) == scored(*old(self), side),
    {
        match side {
            Side::Left => self.left = self.left + 1,
            Side::Right => self.right = self.right + 1,
        }
        self.last_scorer = side;
    }

    /// Back to a fresh match's board: no points, the right side as last scorer, and
    /// nobody's touch.
    pub fn reset(&mut self)
        ensures
            *final(self) == fresh_scoreboard(),
    {
        self.left = 0;
        self.right = 0;
        self.last_scorer = Side::Right;
        self.last_touch = None;
    }
}

impl Default for Scoreboard {
    fn default() -> (board: Scoreboard)
        ensures
            board == fresh_scoreboard(),
    {
        Scoreboard { left: 0, right: 0, last_scorer: Side::Right, last_touch: None }
    }
}

/// What the player picked in the menus before the match started.
#[derive(Debug, Clone, Copy, PartialEq, Eq, Structural)]
pub struct MatchSettings {
    pub mode: GameMode,
    pub difficulty: Difficulty,
    pub chaos: ChaosMode,
}

/// The settings a game boots with.
pub open spec fn default_settings() -> MatchSettings {
    MatchSettings {
        mode: GameMode::SinglePlayer,
        difficulty: Difficulty::Medium,
        chaos: ChaosMode::Normal,
    }
}

impl Default for MatchSettings {
    /// Single player against a Medium CPU, in Normal chaos.
    fn default() -> (settings: MatchSettings)
        ensures
            settings == default_settings(),
    {
        MatchSettings {
            mode: GameMode::SinglePlayer,
            difficulty: Difficulty::Medium,
            chaos: ChaosMode::Normal,
        }
    }
}

} // verus!
