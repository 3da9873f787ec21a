//! The tongs' jaws: what each jaw is asked for, which way the tong faces, and how its
//! clip machine answers.
//!
//! A player's jaw is a press that sticks, toward the court to close and away to open;
//! the CPU's is a policy on the ball's flight. Either way a contact changes nothing:
//! physics bounces the ball and the jaw goes on doing what it was told.

use vstd::prelude::*;
use crate::types::{
    Side, Facing, Jaw, TongControl, Tongs, GameMode, Difficulty, MatchSettings, chomp_lead_ms,
};
use crate::clips::{
    TongClip, clip_name, clip_named, split_clip, str_eq, tong_state, tong_state_name,
    lemma_split_undoes_tong_state, lemma_clip_named_undoes_clip_name,
};

verus! {

/// Where a stick's axis, or the ball's offset from a tong, stands against a dead
/// zone: past it on the positive side (right, or up), past it on the negative side,
/// or inside it. The engine's axes are floats; this is what the rules read of one.
#[derive(Debug, Clone, Copy, PartialEq, Eq, Structural)]
pub enum Lean {
    Positive,
    Negative,
    Rest,
}

/// The jaw a player's horizontal lean asks for, given the jaw it last asked for.
pub open spec fn human_jaw_spec(side: Side, lean: Lean, held: Jaw) -> Jaw {
    let toward_court = match (side, lean) {
        (Side::Left, l) => l,
        (Side::Right, Lean::Positive) => Lean::Negative,
        (Side::Right, Lean::Negative) => Lean::Positive,
        (Side::Right, Lean::Rest) => Lean::Rest,
    };
    match toward_court {
        Lean::Positive => Jaw::Closed,
        Lean::Negative => Jaw::Open,
        Lean::Rest => held,
    }
}

/// The player's jaw for this frame: pushing the stick toward the court closes,
/// pulling it away opens, and a stick resting inside the dead zone leaves the held
/// intent alone, so the jaw stays where it was put until the stick asks the other
/// way. The court is to the right of the left tong and to the left of the right one,
/// so both players push at the ball to bite.
pub fn human_jaw(side: Side, lean: Lean, held: Jaw) -> (jaw: Jaw)
    ensures
        jaw == human_jaw_spec(side, lean, held),
        lean == Lean::Rest ==> jaw == held,
        (side == Side::Left && lean == Lean::Positive) || (side == Side::Right && lean == Lean::Negative)
            ==> jaw == Jaw::Closed,
        (side == Side::Left && lean == Lean::Negative) || (side == Side::Right && lean == Lean::Positive)
            ==> jaw == Jaw::Open,
{
    let toward_court = match side {
        Side::Left => lean,
        Side::Right => match lean {
            Lean::Positive => Lean::Negative,
            Lean::Negative => Lean::Positive,
            Lean::Rest => Lean::Rest,
        },
    };
    match toward_court {
        Lean::Positive => Jaw::Closed,
        Lean::Negative => Jaw::Open,
        Lean::Rest => held,
    }
}

/// The facing a lean asks for, or `None` inside the dead zone, where a tong keeps the
/// face it has rather than flapping. A player's vertical stick is read this way, and
/// so is the CPU's: its lean is the ball's height against its tong's, past the tong's
/// own end.
pub fn facing_for_axis(lean: Lean) -> (facing: Option<Facing>)
    ensures
        lean == Lean::Positive ==> facing == Some(Facing::Up),
        lean == Lean::Negative ==> facing == Some(Facing::Down),
        lean == Lean::Rest ==> facing is None,
{
    match lean {
        Lean::Positive => Some(Facing::Up),
        Lean::Negative => Some(Facing::Down),
        Lean::Rest => None,
    }
}

/// The primary ball's flight as the CPU's chomp policy reads it: going nowhere (not
/// yet served, or not placeable), arriving at this tong's face, or leaving for the far
/// one. The flags are the time comparisons on the ball's position and speed: whether
/// it lands within the lead, and whether its trip out and back leaves the lead and a
/// whole jaw cycle to spare.
#[derive(Debug, Clone, Copy, PartialEq, Eq, Structural)]
pub enum BallCourse {
    Still,
    Arriving { within_lead: bool },
    Leaving { return_allows_cycle: bool },
}

/// The CPU's jaw for a difficulty with chomp lead `lead`, given the ball's course.
pub open spec fn cpu_jaw_spec(lead: Option<u32>, course: BallCourse, held: Jaw) -> Jaw {
    if lead is None {
        Jaw::Closed
    } else {
        match course {
            BallCourse::Still => held,
            BallCourse::Arriving { within_lead } => if within_lead {
                Jaw::Closed
            } else {
                Jaw::Open
            },
            BallCourse::Leaving { return_allows_cycle } => if return_allows_cycle {
                Jaw::Open
            } else {
                Jaw::Closed
            },
        }
    }
}

/// The CPU's jaw: shut while the ball closes on its face inside the difficulty's lead,
/// open while the ball is far enough away that a whole open and close fits before it
/// comes back, and shut otherwise. A ball going nowhere is no reason to open and none
/// to shut. Without a lead (Easy) the jaw is always shut.
pub fn cpu_jaw(lead: Option<u32>, course: BallCourse, held: Jaw) -> (jaw: Jaw)
    ensures
        jaw == cpu_jaw_spec(lead, course, held),
        lead is None ==> jaw == Jaw::Closed,
        lead is Some && course == BallCourse::Still ==> jaw == held,
        lead is Some && course == (BallCourse::Arriving { within_lead: true }) ==> jaw == Jaw::Closed,
        lead is Some && course == (BallCourse::Arriving { within_lead: false }) ==> jaw == Jaw::Open,
        lead is Some && course == (BallCourse::Leaving { return_allows_cycle: true }) ==> jaw == Jaw::Open,
        lead is Some && course == (BallCourse::Leaving { return_allows_cycle: false }) ==> jaw == Jaw::Closed,
{
    if lead.is_none() {
        return Jaw::Closed;
    }
    match course {
        BallCourse::Still => held,
        BallCourse::Arriving { within_lead } => if within_lead {
            Jaw::Closed
        } else {
            Jaw::Open
        },
        BallCourse::Leaving { return_allows_cycle } => if return_allows_cycle {
            Jaw::Open
        } else {
            Jaw::Closed
        },
    }
}

/// The jaw a tong's machine rests at, read from its state's name: `Open` for an
/// `open_*` state, `Closed` for a `closed_*` one, and nothing for any other state,
/// mid-motion or unknown.
pub open spec fn resting_jaw_of(state: Seq<char>) -> Option<Jaw> {
    match split_clip(state) {
        Some((base, _)) => match clip_named(base) {
            Some(TongClip::Open) => Some(Jaw::Open),
            Some(TongClip::Closed) => Some(Jaw::Closed),
            _ => None,
        },
        None => None,
    }
}

/// The state a tong resting at `resting` moves to when asked for `jaw` in `facing`:
/// the one-shot that gets it there, or the same resting clip in the asked facing.
pub open spec fn tong_target(resting: Jaw, jaw: Jaw, facing: Facing) -> Seq<char> {
    match (resting, jaw) {
        (Jaw::Open, Jaw::Closed) => tong_state_name(clip_name(TongClip::Closing), facing),
        (Jaw::Closed, Jaw::Open) => tong_state_name(clip_name(TongClip::Opening), facing),
        (Jaw::Open, Jaw::Open) => tong_state_name(clip_name(TongClip::Open), facing),
        (Jaw::Closed, Jaw::Closed) => tong_state_name(clip_name(TongClip::Closed), facing),
    }
}

/// Work one tong's machine for the frame, from the name of the state it is in: the jaw
/// it is now asked for, in the facing it is now asked for (or the one it has).
///
/// Both move only from a resting jaw. A `closing`, `opening` or `scored_on` plays out
/// first, so a press released mid-chomp does not turn it into an `opening` halfway
/// through, and the face never turns under a clip: then nothing changes. From rest the
/// control takes the asked jaw and facing, and the state to move the machine to is
/// returned, or `None` when it is the state the machine is already in (re-entering it
/// would restart its clip).
pub fn drive_tong(
    state: &str,
    control: &mut TongControl,
    jaw: Jaw,
    asked_facing: Option<Facing>,
) -> (target: Option<String>)
    ensures
        match resting_jaw_of(state@) {
            None => *final(control) == *old(control) && target is None,
            Some(resting) => {
                let facing = match asked_facing {
                    Some(f) => f,
                    None => old(control).facing,
                };
                &&& *final(control) == (TongControl { jaw, facing })
                &&& match target {
                    Some(t) => t@ == tong_target(resting, jaw, facing) && t@ != state@,
                    None => tong_target(resting, jaw, facing) == state@,
                }
            },
        },
{
    let (clip, _) = match Facing::split(state) {
        Some(parts) => parts,
        None => return None,
    };
    let resting = match TongClip::parse(clip) {
        Some(TongClip::Open) => Jaw::Open,
        Some(TongClip::Closed) => Jaw::Closed,
        _ => return None,
    };
    let facing = match asked_facing {
        Some(f) => f,
        None => control.facing,
    };
    let target_clip = match (resting, jaw) {
        (Jaw::Open, Jaw::Closed) => TongClip::Closing,
        (Jaw::Closed, Jaw::Open) => TongClip::Opening,
        (Jaw::Open, Jaw::Open) => TongClip::Open,
        (Jaw::Closed, Jaw::Closed) => TongClip::Closed,
    };
    let target = tong_state(target_clip.name(), facing);
    control.jaw = jaw;
    control.facing = facing;
    if str_eq(target.as_str(), state) {
        None
    } else {
        Some(target)
    }
}

/// Asked the same twice, a tong moves once: after a drive from rest has put the
/// machine in its target state, driving it again with the same jaw and the same ask
/// for a facing moves nothing. A one-shot is under way and not to be interrupted, or
/// the tong already rests where it was asked to.
pub proof fn lemma_drive_tong_settles(
    state: Seq<char>,
    control: TongControl,
    jaw: Jaw,
    asked_facing: Option<Facing>,
)
    requires
        resting_jaw_of(state) is Some,
    ensures
        ({
            let resting = resting_jaw_of(state)->0;
            let facing = match asked_facing {
                Some(f) => f,
                None => control.facing,
            };
            let target = tong_target(resting, jaw, facing);
            match resting_jaw_of(target) {
                None => true,
                Some(again) => tong_target(again, jaw, facing) == target,
            }
        }),
{
    let resting = resting_jaw_of(state)->0;
    let facing = match asked_facing {
        Some(f) => f,
        None => control.facing,
    };
    let clip = match (resting, jaw) {
        (Jaw::Open, Jaw::Closed) => TongClip::Closing,
        (Jaw::Closed, Jaw::Open) => TongClip::Opening,
        (Jaw::Open, Jaw::Open) => TongClip::Open,
        (Jaw::Closed, Jaw::Closed) => TongClip::Closed,
    };
    lemma_split_undoes_tong_state(clip_name(clip), facing);
    lemma_clip_named_undoes_clip_name(clip);
}

/// A press sticks, and only the other way undoes it: a lean toward the court asks for
/// a shut jaw and a lean away from it for an open one, whatever jaw was held (the
/// court is to the left tong's right and the right tong's left), so a held push keeps
/// the jaw shut frame after frame; only a stick at rest keeps the held jaw, whichever
/// it is.
pub proof fn lemma_a_press_sticks_until_the_other_way(side: Side, held: Jaw)
    ensures
        ({
            let toward = match side {
                Side::Left => Lean::Positive,
                Side::Right => Lean::Negative,
            };
            let away = match side {
                Side::Left => Lean::Negative,
                Side::Right => Lean::Positive,
            };
            &&& human_jaw_spec(side, toward, held) == Jaw::Closed
            &&& human_jaw_spec(side, away, held) == Jaw::Open
            &&& human_jaw_spec(side, toward, human_jaw_spec(side, toward, held)) == Jaw::Closed
            &&& human_jaw_spec(side, Lean::Rest, held) == held
        }),
{
}

/// With a lead, a moving ball decides the CPU's jaw on its own, whatever jaw was held:
/// shut while it arrives within the lead, open while it arrives from further, open
/// while it leaves with time for a whole bite before it returns, shut while it leaves
/// without. Only a ball going nowhere keeps the held jaw. Asked twice on the same
/// course, the answer is the same, so the CPU never chatters on a steady flight.
pub proof fn lemma_the_cpu_jaw_follows_the_ball(lead: u32, course: BallCourse, held: Jaw)
    ensures
        cpu_jaw_spec(Some(lead), BallCourse::Arriving { within_lead: true }, held) == Jaw::Closed,
        cpu_jaw_spec(Some(lead), BallCourse::Arriving { within_lead: false }, held) == Jaw::Open,
        cpu_jaw_spec(Some(lead), BallCourse::Leaving { return_allows_cycle: true }, held) == Jaw::Open,
        cpu_jaw_spec(Some(lead), BallCourse::Leaving { return_allows_cycle: false }, held) == Jaw::Closed,
        cpu_jaw_spec(Some(lead), BallCourse::Still, held) == held,
        course != BallCourse::Still ==> cpu_jaw_spec(Some(lead), course, Jaw::Open) == cpu_jaw_spec(
            Some(lead),
            course,
            Jaw::Closed,
        ),
        cpu_jaw_spec(Some(lead), course, cpu_jaw_spec(Some(lead), course, held)) == cpu_jaw_spec(
            Some(lead),
            course,
            held,
        ),
{
}

/// Easy's CPU never works its jaw: whatever the ball does, the jaw it asks for is
/// shut.
pub proof fn lemma_easy_cpu_never_opens(course: BallCourse, held: Jaw)
    ensures
        cpu_jaw_spec(chomp_lead_ms(Difficulty::Easy), course, held) == Jaw::Closed,
{
}

impl MatchSettings {
    /// Whether the CPU plays `side`'s tong: in single player the right tong is the
    /// CPU's, and in two player both tongs have a player behind them.
    pub fn is_cpu_tong(&self, side: Side) -> (cpu: bool)
        ensures
            cpu == (self.mode == GameMode::SinglePlayer && side == Side::Right),
    {
        self.mode == GameMode::SinglePlayer && side == Side::Right
    }

    /// The jaw `side`'s tong rests at in this match, and the jaw `scored_on` returns it
    /// to: open, except for a CPU that never works its jaw.
    pub fn rest_jaw(&self, side: Side) -> (jaw: Jaw)
        ensures
            jaw == rest_jaw_spec(*self, side),
    {
        if self.is_cpu_tong(side) && !self.difficulty.opens_its_jaw() {
            Jaw::Closed
        } else {
            Jaw::Open
        }
    }
}

/// The jaw `side`'s tong rests at under `settings`.
pub open spec fn rest_jaw_spec(settings: MatchSettings, side: Side) -> Jaw {
    if settings.mode == GameMode::SinglePlayer && side == Side::Right
        && settings.difficulty == Difficulty::Easy {
        Jaw::Closed
    } else {
        Jaw::Open
    }
}

impl Tongs {
    /// Forget what each jaw was last asked for: both tongs now ask for the jaw their
    /// match rests them at, and keep the facing they have.
    pub fn reset_jaw_intents(&mut self, settings: &MatchSettings)
        ensures
            final(self).left == (TongControl {
                jaw: rest_jaw_spec(*settings, Side::Left),
                facing: old(self).left.facing,
            }),
            final(self).right == (TongControl {
                jaw: rest_jaw_spec(*settings, Side::Right),
                facing: old(self).right.facing,
            }),
    {
        self.left.jaw = settings.rest_jaw(Side::Left);
        self.right.jaw = settings.rest_jaw(Side::Right);
    }
}

} // verus!
