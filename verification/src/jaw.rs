//! The tong's jaw as the art draws it: the five poses its frames show, and which pose
//! each frame of each clip is. The geometry a pose is drawn with is measured in
//! pixels and belongs to the collider builder; here is which pose is worn when.

use vstd::prelude::*;
use crate::types::{Facing, Jaw};
use crate::clips::{TongClip, clip_named, split_clip};

verus! {

/// One of the five jaw poses the tong's frames draw.
#[derive(Debug, Clone, Copy, PartialEq, Eq, Structural)]
pub enum JawPose {
    Open,
    Wide,
    Narrow,
    Twitch,
    Closed,
}

/// The poses a tong clip draws, one per frame: a close ends shut and the held shut
/// clip stays shut, an opening starts narrow and widens, and a goal against twitches.
pub open spec fn clip_pose_table(clip: TongClip) -> Seq<JawPose> {
    match clip {
        TongClip::Open => seq![JawPose::Open, JawPose::Open],
        TongClip::Closing => seq![JawPose::Wide, JawPose::Narrow, JawPose::Closed],
        TongClip::Closed => seq![JawPose::Closed, JawPose::Closed],
        TongClip::Opening => seq![JawPose::Narrow, JawPose::Wide, JawPose::Open],
        TongClip::ScoredOn => seq![JawPose::Twitch, JawPose::Narrow, JawPose::Twitch, JawPose::Narrow],
    }
}

/// The poses the clip called `name` draws, and none for a name outside the five.
pub open spec fn poses_named(name: Seq<char>) -> Seq<JawPose> {
    match clip_named(name) {
        Some(clip) => clip_pose_table(clip),
        None => Seq::empty(),
    }
}

/// The poses a clip draws, one per frame, indexed by the animation's clip-relative
/// frame. A name outside the five yields nothing, and the collider is then left as it
/// is: holding the jaw's last outline beats inventing one.
pub fn clip_poses(clip: &str) -> (poses: Vec<JawPose>)
    ensures
        poses@ == poses_named(clip@),
{
    match TongClip::parse(clip) {
        Some(TongClip::Open) => vec![JawPose::Open, JawPose::Open],
        Some(TongClip::Closing) => vec![JawPose::Wide, JawPose::Narrow, JawPose::Closed],
        Some(TongClip::Closed) => vec![JawPose::Closed, JawPose::Closed],
        Some(TongClip::Opening) => vec![JawPose::Narrow, JawPose::Wide, JawPose::Open],
        Some(TongClip::ScoredOn) => vec![
            JawPose::Twitch,
            JawPose::Narrow,
            JawPose::Twitch,
            JawPose::Narrow,
        ],
        None => Vec::new(),
    }
}

/// The pose, and the facing, that a tong drawing frame `frame` of the clip `clip`
/// shows: nothing for a clip without a facing, one outside the five, or a frame past
/// the clip's end.
pub open spec fn drawn_pose_spec(clip: Seq<char>, frame: int) -> Option<(JawPose, Facing)> {
    match split_clip(clip) {
        Some((base, facing)) => {
            let poses = poses_named(base);
            if 0 <= frame < poses.len() {
                Some((poses[frame], facing))
            } else {
                None
            }
        },
        None => None,
    }
}

/// The pose a tong's collider wears while it draws frame `frame` (clip-relative) of
/// the clip `clip`, with the facing that clip names; `None` leaves the collider as it
/// is.
pub fn drawn_pose(clip: &str, frame: usize) -> (pose: Option<(JawPose, Facing)>)
    ensures
        pose == drawn_pose_spec(clip@, frame as int),
{
    let (base, facing) = match Facing::split(clip) {
        Some(parts) => parts,
        None => return None,
    };
    let poses = clip_poses(base);
    if frame < poses.len() {
        Some((poses[frame], facing))
    } else {
        None
    }
}

/// The pose a jaw resting in this position wears: what a tong is born with, and what
/// a match start lays it back to.
pub fn jaw_pose(jaw: Jaw) -> (pose: JawPose)
    ensures
        jaw == Jaw::Open ==> pose == JawPose::Open,
        jaw == Jaw::Closed ==> pose == JawPose::Closed,
{
    match jaw {
        Jaw::Open => JawPose::Open,
        Jaw::Closed => JawPose::Closed,
    }
}

} // verus!
