//! What the screens say: which locale key a message is read from, and the text the
//! match's score line is built of. Drawing it is the engine's.

use vstd::prelude::*;
use vstd::string::*;
use crate::types::{GameMode, ChaosMode};
use crate::names::{decimal, decimal_spec};

verus! {

/// The game-over banner's locale key: the player's win or the CPU's in single player,
/// player one's or player two's in two player.
pub fn game_over_message_key(mode: GameMode, left_wins: bool) -> (key: &'static str)
    ensures
        key@ == match (mode, left_wins) {
            (GameMode::SinglePlayer, true) => "over.you_win"@,
            (GameMode::SinglePlayer, false) => "over.cpu_wins"@,
            (GameMode::TwoPlayer, true) => "over.p1_wins"@,
            (GameMode::TwoPlayer, false) => "over.p2_wins"@,
        },
{
    match (mode, left_wins) {
        (GameMode::SinglePlayer, true) => "over.you_win",
        (GameMode::SinglePlayer, false) => "over.cpu_wins",
        (GameMode::TwoPlayer, true) => "over.p1_wins",
        (GameMode::TwoPlayer, false) => "over.p2_wins",
    }
}

/// The chaos menu's hint: the locale key of the highlighted mode's description.
pub fn chaos_description_key(mode: ChaosMode) -> (key: &'static str)
    ensures
        key@ == match mode {
            ChaosMode::Normal => "chaos.normal.desc"@,
            ChaosMode::Insane => "chaos.insane.desc"@,
            ChaosMode::Ridiculous => "chaos.ridiculous.desc"@,
            ChaosMode::Insiculous => "chaos.insiculous.desc"@,
        },
{
    match mode {
        ChaosMode::Normal => "chaos.normal.desc",
        ChaosMode::Insane => "chaos.insane.desc",
        ChaosMode::Ridiculous => "chaos.ridiculous.desc",
        ChaosMode::Insiculous => "chaos.insiculous.desc",
    }
}

/// The locale keys the score line's two sides are labelled with: you against the CPU,
/// or player one against player two.
pub fn score_label_keys(mode: GameMode) -> (keys: (&'static str, &'static str))
    ensures
        mode == GameMode::SinglePlayer ==> keys.0@ == "hud.you"@ && keys.1@ == "hud.cpu"@,
        mode == GameMode::TwoPlayer ==> keys.0@ == "hud.p1"@ && keys.1@ == "hud.p2"@,
{
    match mode {
        GameMode::SinglePlayer => ("hud.you", "hud.cpu"),
        GameMode::TwoPlayer => ("hud.p1", "hud.p2"),
    }
}

/// The score line, `<left label> <left>  :  <right> <right label>`.
pub fn score_text(left_label: &str, left: u32, right: u32, right_label: &str) -> (text: String)
    ensures
        text@ == left_label@ + " "@ + decimal_spec(left as nat) + "  :  "@ + decimal_spec(
            right as nat,
        ) + " "@ + right_label@,
{
    let left_points = decimal(left as u64);
    let right_points = decimal(right as u64);
    String::from_str(left_label).concat(" ").concat(left_points.as_str()).concat("  :  ").concat(
        right_points.as_str(),
    ).concat(" ").concat(right_label)
}

/// The achievements page's count line, `<unlocked> / <total> <word>`.
pub fn unlocked_count_text(unlocked: u64, total: u64, word: &str) -> (text: String)
    ensures
        text@ == decimal_spec(unlocked as nat) + " / "@ + decimal_spec(total as nat) + " "@ + word@,
{
    let unlocked_text = decimal(unlocked);
    let total_text = decimal(total);
    String::from_str(unlocked_text.as_str()).concat(" / ").concat(total_text.as_str()).concat(" ").concat(word)
}

/// An achievement's name line: its marker, a space, and the name shown.
pub fn achievement_label(marker: &str, name: &str) -> (label: String)
    ensures
        label@ == marker@ + " "@ + name@,
{
    String::from_str(marker).concat(" ").concat(name)
}

/// How an achievement's row reads on the page: unlocked ones are marked and show
/// their own name and description; a locked hidden one shows the hidden placeholders.
pub fn achievement_row<'a>(
    unlocked: bool,
    hidden: bool,
    name: &'a str,
    description: &'a str,
    hidden_name: &'a str,
    hidden_description: &'a str,
) -> (row: (&'static str, &'a str, &'a str))
    ensures
        row.0@ == (if unlocked {
            "[X]"@
        } else {
            "[ ]"@
        }),
        (!unlocked && hidden) ==> row.1@ == hidden_name@ && row.2@ == hidden_description@,
        !(!unlocked && hidden) ==> row.1@ == name@ && row.2@ == description@,
{
    let marker = if unlocked {
        "[X]"
    } else {
        "[ ]"
    };
    if !unlocked && hidden {
        (marker, hidden_name, hidden_description)
    } else {
        (marker, name, description)
    }
}

} // verus!
