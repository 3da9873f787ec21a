use insiculous_pong::clips::tong_state;
use insiculous_pong::machines::{
    collect_machine, goal_fire_machine, grill_machine, meatball_machine, pickup_machine,
    tong_machine, ClipState, MachineTable, OnFinished,
};
use insiculous_pong::types::{
    Facing, Jaw, TONG_CLOSED, TONG_CLOSING, TONG_OPEN, TONG_OPENING, TONG_SCORED_ON,
};

fn row<'a>(machine: &'a MachineTable, state: &str) -> &'a ClipState {
    machine
        .states
        .iter()
        .find(|(name, _)| name == state)
        .map(|(_, row)| row)
        .unwrap_or_else(|| panic!("'{state}' is a state of this machine"))
}

fn next_of(row: &ClipState) -> Option<&str> {
    match &row.on_finished {
        OnFinished::Next(state) => Some(state.as_str()),
        _ => None,
    }
}

#[test]
fn test_a_tong_machine_names_ten_clips_and_returns_to_the_jaw_it_rests_at() {
    let clips = [TONG_OPEN, TONG_CLOSING, TONG_CLOSED, TONG_OPENING, TONG_SCORED_ON];
    for facing in [Facing::Up, Facing::Down] {
        for rest in [Jaw::Open, Jaw::Closed] {
            let machine = tong_machine(facing, rest);
            assert_eq!(machine.states.len(), 10, "five clips in each of two facings");
            assert_eq!(
                machine.initial,
                tong_state(rest.clip(), facing),
                "a tong is born at the jaw its match rests it at"
            );
            for clip in clips {
                // The state's name is the clip's name: the sidecar is the contract.
                assert_eq!(row(&machine, &tong_state(clip, facing)).clip, tong_state(clip, facing));
            }
            assert!(matches!(row(&machine, &tong_state(TONG_OPEN, facing)).on_finished, OnFinished::Stay));
            assert!(matches!(row(&machine, &tong_state(TONG_CLOSED, facing)).on_finished, OnFinished::Stay));
            assert_eq!(
                next_of(row(&machine, &tong_state(TONG_CLOSING, facing))),
                Some(tong_state(TONG_CLOSED, facing).as_str()),
                "a close ends shut"
            );
            assert_eq!(
                next_of(row(&machine, &tong_state(TONG_OPENING, facing))),
                Some(tong_state(TONG_OPEN, facing).as_str()),
                "an opening ends open"
            );
            assert_eq!(
                next_of(row(&machine, &tong_state(TONG_SCORED_ON, facing))),
                Some(tong_state(rest.clip(), facing).as_str()),
                "and a goal played out comes back to the jaw the match rests at"
            );
        }
    }
}

#[test]
fn the_tong_states_are_ten_different_names() {
    let machine = tong_machine(Facing::Up, Jaw::Open);
    let mut names: Vec<&str> = machine.states.iter().map(|(name, _)| name.as_str()).collect();
    names.sort();
    names.dedup();
    assert_eq!(names.len(), 10);
}

#[test]
fn the_other_machines() {
    let meatball = meatball_machine();
    assert_eq!(meatball.initial, "idle");
    assert!(matches!(row(&meatball, "toasted").on_finished, OnFinished::Stay));

    let grill = grill_machine();
    assert_eq!(grill.initial, "idle");
    assert_eq!(next_of(row(&grill, "score")), Some("idle"), "a flare ends idling");

    assert_eq!(pickup_machine().initial, "idle");

    let puff = collect_machine();
    assert_eq!(puff.initial, "collect");
    assert!(matches!(row(&puff, "collect").on_finished, OnFinished::Despawn));

    let fire = goal_fire_machine();
    assert_eq!(fire.initial, "on_fire");
    assert!(matches!(row(&fire, "on_fire").on_finished, OnFinished::Stay));
}
