//! The clip state machines the art entities run, as tables: each state's name, the
//! clip it plays, and what happens when that clip finishes. The engine runs them; the
//! tables are the game's.

use vstd::prelude::*;
use vstd::string::*;
use crate::types::{
    Facing, Jaw, MEATBALL_IDLE, MEATBALL_TOASTED, MEATBALL_ON_FIRE, GRILL_IDLE, GRILL_SCORE,
    PICKUP_IDLE, PICKUP_COLLECT,
};
use crate::clips::{
    TongClip, clip_name, clip_named, resting_clip, split_clip, tong_state, tong_state_name,
    lemma_split_undoes_tong_state, lemma_clip_named_undoes_clip_name,
};

verus! {

/// What a state does when its clip finishes: hold the last frame, move to the named
/// state, or take the entity out of the world.
pub enum OnFinished {
    Stay,
    Next(String),
    Despawn,
}

/// One state's row: the clip it plays and what follows it.
pub struct ClipState {
    pub clip: String,
    pub on_finished: OnFinished,
}

/// A machine's table: the state it starts in, and every state by name.
pub struct MachineTable {
    pub initial: String,
    pub states: Vec<(String, ClipState)>,
}

/// The clip on row `i` of a tong's table: the five clips, once per facing.
pub open spec fn tong_row_clip(i: int) -> TongClip {
    let k = i % 5;
    if k == 0 {
        TongClip::Open
    } else if k == 1 {
        TongClip::Closing
    } else if k == 2 {
        TongClip::Closed
    } else if k == 3 {
        TongClip::Opening
    } else {
        TongClip::ScoredOn
    }
}

/// The facing of row `i` of a tong's table: the first five rows face up.
pub open spec fn tong_row_facing(i: int) -> Facing {
    if i < 5 {
        Facing::Up
    } else {
        Facing::Down
    }
}

/// The clip a tong's clip hands over to when it finishes, in a match resting at `rest`:
/// a close ends shut, an opening ends open, a goal against comes back to the resting
/// jaw, and the resting clips hold.
pub open spec fn tong_next_clip(clip: TongClip, rest: Jaw) -> Option<TongClip> {
    match clip {
        TongClip::Closing => Some(TongClip::Closed),
        TongClip::Opening => Some(TongClip::Open),
        TongClip::ScoredOn => Some(resting_clip(rest)),
        _ => None,
    }
}

/// A row is the state named `name` playing its own clip, finishing as `next` says:
/// holding when there is no next state.
pub open spec fn row_is(row: (String, ClipState), name: Seq<char>, next: Option<Seq<char>>) -> bool {
    &&& row.0@ == name
    &&& row.1.clip@ == name
    &&& match next {
        None => row.1.on_finished is Stay,
        Some(n) => row.1.on_finished matches OnFinished::Next(s) && s@ == n,
    }
}

/// The row of a tong's table for `clip` in `facing`.
fn tong_row(clip: TongClip, facing: Facing, rest: Jaw) -> (row: (String, ClipState))
    ensures
        row_is(
            row,
            tong_state_name(clip_name(clip), facing),
            match tong_next_clip(clip, rest) {
                Some(c) => Some(tong_state_name(clip_name(c), facing)),
                None => None,
            },
        ),
{
    let name = tong_state(clip.name(), facing);
    let on_finished = match clip {
        TongClip::Closing => OnFinished::Next(tong_state(TongClip::Closed.name(), facing)),
        TongClip::Opening => OnFinished::Next(tong_state(TongClip::Open.name(), facing)),
        TongClip::ScoredOn => {
            let back = match rest {
                Jaw::Open => TongClip::Open,
                Jaw::Closed => TongClip::Closed,
            };
            OnFinished::Next(tong_state(back.name(), facing))
        },
        _ => OnFinished::Stay,
    };
    (name.clone(), ClipState { clip: name, on_finished })
}

/// A tong's machine: five clips in each of the two facings, ten states in all, starting
/// at the jaw the match rests it at.
///
/// The jaw opens and shuts as two one-shots, `closing` running into `closed` and
/// `opening` back into `open`, and both ends of that are resting states the player
/// holds it in. A goal against plays `scored_on` and returns the tong to the jaw it
/// rests at: open for every tong but Easy's CPU, whose flat return is built in here.
pub fn tong_machine(facing: Facing, rest: Jaw) -> (table: MachineTable)
    ensures
        table.initial@ == tong_state_name(clip_name(resting_clip(rest)), facing),
        table.states@.len() == 10,
        forall|i: int| 0 <= i < 10 ==> row_is(
            #[trigger] table.states@[i],
            tong_state_name(clip_name(tong_row_clip(i)), tong_row_facing(i)),
            match tong_next_clip(tong_row_clip(i), rest) {
                Some(c) => Some(tong_state_name(clip_name(c), tong_row_facing(i))),
                None => None,
            },
        ),
{
    let mut states: Vec<(String, ClipState)> = Vec::new();
    states.push(tong_row(TongClip::Open, Facing::Up, rest));
    states.push(tong_row(TongClip::Closing, Facing::Up, rest));
    states.push(tong_row(TongClip::Closed, Facing::Up, rest));
    states.push(tong_row(TongClip::Opening, Facing::Up, rest));
    states.push(tong_row(TongClip::ScoredOn, Facing::Up, rest));
    states.push(tong_row(TongClip::Open, Facing::Down, rest));
    states.push(tong_row(TongClip::Closing, Facing::Down, rest));
    states.push(tong_row(TongClip::Closed, Facing::Down, rest));
    states.push(tong_row(TongClip::Opening, Facing::Down, rest));
    states.push(tong_row(TongClip::ScoredOn, Facing::Down, rest));
    let rest_clip = match rest {
        Jaw::Open => TongClip::Open,
        Jaw::Closed => TongClip::Closed,
    };
    let initial = tong_state(rest_clip.name(), facing);
    assert forall|i: int| 0 <= i < 10 implies row_is(
        #[trigger] states@[i],
        tong_state_name(clip_name(tong_row_clip(i)), tong_row_facing(i)),
        match tong_next_clip(tong_row_clip(i), rest) {
            Some(c) => Some(tong_state_name(clip_name(c), tong_row_facing(i))),
            None => None,
        },
    ) by {
        assert(0 <= i < 10);
    }
    MachineTable { initial, states }
}

/// No two of a tong's states share a name: a name carries its clip and its facing,
/// and splitting it gives both back.
pub proof fn lemma_tong_state_names_are_distinct(c1: TongClip, f1: Facing, c2: TongClip, f2: Facing)
    ensures
        tong_state_name(clip_name(c1), f1) == tong_state_name(clip_name(c2), f2) ==> c1 == c2 && f1
            == f2,
{
    lemma_split_undoes_tong_state(clip_name(c1), f1);
    lemma_split_undoes_tong_state(clip_name(c2), f2);
    lemma_clip_named_undoes_clip_name(c1);
    lemma_clip_named_undoes_clip_name(c2);
}

/// A single-state row: `name` playing its own clip, finishing as `on_finished` says.
fn row(name: &str, on_finished: OnFinished) -> (r: (String, ClipState))
    ensures
        r.0@ == name@,
        r.1.clip@ == name@,
        r.1.on_finished == on_finished,
{
    (String::from_str(name), ClipState { clip: String::from_str(name), on_finished })
}

/// The meatball's machine: `toasted` while a flame's speed boost runs, `idle`
/// otherwise; both hold their last frame, and the boost's timer ends the toast.
pub fn meatball_machine() -> (table: MachineTable)
    ensures
        table.initial@ == MEATBALL_IDLE@,
        table.states@.len() == 2,
        row_is(table.states@[0], MEATBALL_IDLE@, None),
        row_is(table.states@[1], MEATBALL_TOASTED@, None),
{
    MachineTable {
        initial: String::from_str(MEATBALL_IDLE),
        states: vec![row(MEATBALL_IDLE, OnFinished::Stay), row(MEATBALL_TOASTED, OnFinished::Stay)],
    }
}

/// A grill's machine: idling, and the flare a goal against plays before it idles
/// again.
pub fn grill_machine() -> (table: MachineTable)
    ensures
        table.initial@ == GRILL_IDLE@,
        table.states@.len() == 2,
        row_is(table.states@[0], GRILL_IDLE@, None),
        row_is(table.states@[1], GRILL_SCORE@, Some(GRILL_IDLE@)),
{
    MachineTable {
        initial: String::from_str(GRILL_IDLE),
        states: vec![
            row(GRILL_IDLE, OnFinished::Stay),
            row(GRILL_SCORE, OnFinished::Next(String::from_str(GRILL_IDLE))),
        ],
    }
}

/// A pickup's machine while it waits on the court. The `collect` clip belongs to the
/// puff that replaces it.
pub fn pickup_machine() -> (table: MachineTable)
    ensures
        table.initial@ == PICKUP_IDLE@,
        table.states@.len() == 1,
        row_is(table.states@[0], PICKUP_IDLE@, None),
{
    MachineTable {
        initial: String::from_str(PICKUP_IDLE),
        states: vec![row(PICKUP_IDLE, OnFinished::Stay)],
    }
}

/// The one-shot a collected pickup leaves behind: it plays `collect` and despawns.
pub fn collect_machine() -> (table: MachineTable)
    ensures
        table.initial@ == PICKUP_COLLECT@,
        table.states@.len() == 1,
        table.states@[0].0@ == PICKUP_COLLECT@,
        table.states@[0].1.clip@ == PICKUP_COLLECT@,
        table.states@[0].1.on_finished is Despawn,
{
    MachineTable {
        initial: String::from_str(PICKUP_COLLECT),
        states: vec![row(PICKUP_COLLECT, OnFinished::Despawn)],
    }
}

/// The scored meatball's fire: `on_fire` loops, and the entity's own lifetime ends it.
pub fn goal_fire_machine() -> (table: MachineTable)
    ensures
        table.initial@ == MEATBALL_ON_FIRE@,
        table.states@.len() == 1,
        row_is(table.states@[0], MEATBALL_ON_FIRE@, None),
{
    MachineTable {
        initial: String::from_str(MEATBALL_ON_FIRE),
        states: vec![row(MEATBALL_ON_FIRE, OnFinished::Stay)],
    }
}

} // verus!
