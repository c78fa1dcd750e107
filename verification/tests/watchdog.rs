use rover_control::codec::Command;
use rover_control::watchdog::{apply, commit, control_tick, LastCommandState};

const THRESHOLD_MS: u64 = 200;

fn active(forward_backward: u32, left_right: u32, last_update: u64) -> LastCommandState {
    LastCommandState {
        active_command: Command { forward_backward, left_right },
        last_update,
    }
}

#[test]
fn apply_keeps_fresh_command() {
    // 199 ms old: strictly inside the threshold
    let state = active(0x3F80_0000, 0xBF80_0000, 801);
    let out = apply(state, 1000, THRESHOLD_MS);
    assert_eq!(out, state);
}

#[test]
fn apply_zeroes_stale_command() {
    // 201 ms old: the command is zeroed, the timestamp stays
    let state = active(0x3F80_0000, 0xBF80_0000, 799);
    let out = apply(state, 1000, THRESHOLD_MS);
    assert_eq!(out.active_command, Command { forward_backward: 0, left_right: 0 });
    assert_eq!(out.last_update, 799);
}

#[test]
fn apply_boundary_is_fresh() {
    // exactly 200 ms old: staleness is a strictly-older test, so unchanged
    let state = active(0x3F80_0000, 0x3F00_0000, 800);
    let out = apply(state, 1000, THRESHOLD_MS);
    assert_eq!(out, state);
}

#[test]
fn apply_tolerates_clock_behind() {
    // a timestamp ahead of now counts as fresh
    let state = active(0x3F80_0000, 0, 2000);
    let out = apply(state, 1000, THRESHOLD_MS);
    assert_eq!(out, state);
}

#[test]
fn commit_overwrites_only_on_new_command() {
    let state = active(0x3F80_0000, 0, 500);
    let cmd = Command { forward_backward: 0x3F00_0000, left_right: 0xBF00_0000 };
    let committed = commit(state, Some(cmd), 900);
    assert_eq!(committed.active_command, cmd);
    assert_eq!(committed.last_update, 900);

    let unchanged = commit(state, None, 900);
    assert_eq!(unchanged, state);
}

#[test]
fn control_tick_keeps_new_command_and_advances_clock() {
    let state = LastCommandState::initial(0);
    let cmd = Command { forward_backward: 0x3F00_0000, left_right: 0xBF00_0000 };
    let out = control_tick(state, Some(cmd), 5000, THRESHOLD_MS);
    assert_eq!(out.active_command, cmd);
    assert_eq!(out.last_update, 5000);
}

#[test]
fn control_tick_without_input_goes_neutral_after_threshold() {
    let state = active(0x3F00_0000, 0xBF00_0000, 1000);
    // invalid-but-received datagrams do not reset the staleness clock:
    // a drain that produced nothing leaves last_update at 1000
    let out = control_tick(state, None, 1301, THRESHOLD_MS);
    assert_eq!(out.active_command, Command { forward_backward: 0, left_right: 0 });
    assert_eq!(out.last_update, 1000);
}
