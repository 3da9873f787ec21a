use insiculous_pong::jaw::{clip_poses, drawn_pose, jaw_pose, JawPose};
use insiculous_pong::types::{
    Facing, Jaw, TONG_CLOSED, TONG_CLOSING, TONG_OPEN, TONG_OPENING, TONG_SCORED_ON,
};

#[test]
fn test_the_closing_jaw_shuts_and_the_opening_one_opens_the_same_way() {
    assert_eq!(clip_poses(TONG_OPEN), vec![JawPose::Open, JawPose::Open]);
    assert_eq!(clip_poses(TONG_CLOSING), vec![JawPose::Wide, JawPose::Narrow, JawPose::Closed]);
    assert_eq!(clip_poses(TONG_CLOSED), vec![JawPose::Closed, JawPose::Closed]);
    assert_eq!(clip_poses(TONG_OPENING), vec![JawPose::Narrow, JawPose::Wide, JawPose::Open]);
    assert_eq!(
        clip_poses(TONG_SCORED_ON),
        vec![JawPose::Twitch, JawPose::Narrow, JawPose::Twitch, JawPose::Narrow]
    );
    assert!(clip_poses("no_such_clip").is_empty(), "an unknown clip draws no pose");
}

#[test]
fn the_drawn_frame_names_the_pose_and_the_facing() {
    assert_eq!(drawn_pose("closing_down", 2), Some((JawPose::Closed, Facing::Down)));
    assert_eq!(drawn_pose("opening_up", 0), Some((JawPose::Narrow, Facing::Up)));
    assert_eq!(drawn_pose("scored_on_up", 3), Some((JawPose::Narrow, Facing::Up)));
    assert_eq!(drawn_pose("closing_down", 3), None, "past the clip's end");
    assert_eq!(drawn_pose("closing", 0), None, "no facing");
    assert_eq!(drawn_pose("idle_up", 0), None, "not a tong clip");
}

#[test]
fn a_resting_jaw_wears_its_own_pose() {
    assert_eq!(jaw_pose(Jaw::Open), JawPose::Open);
    assert_eq!(jaw_pose(Jaw::Closed), JawPose::Closed);
}
