//! End-to-end run of the verified pipeline: frame bytes in, duty-cycle
//! ticks out, with the fail-safe watchdog taking over once input stops.

use byteorder::{LittleEndian, WriteBytesExt};
use rover_control::actuator::{axis_tick, AxisCal, AxisPolicy};
use rover_control::codec::FRAME_MAGIC;
use rover_control::intake::drain;
use rover_control::watchdog::{control_tick, LastCommandState};

const THRESHOLD_MS: u64 = 200;

fn frame(forward_backward: f32, left_right: f32) -> Vec<u8> {
    let mut buf: Vec<u8> = Vec::new();
    buf.write_u32::<LittleEndian>(FRAME_MAGIC).unwrap();
    buf.write_f32::<LittleEndian>(forward_backward).unwrap();
    buf.write_f32::<LittleEndian>(left_right).unwrap();
    buf
}

#[test]
fn one_frame_then_silence_returns_to_neutral() {
    let steer = AxisCal { center: 614, scale: 205, policy: AxisPolicy::FullRange };
    let throttle = AxisCal { center: 614, scale: 205, policy: AxisPolicy::FullRange };
    let mut ticks: Vec<(u16, u16)> = Vec::new();

    // tick at t=1000: one valid frame is queued
    let queued = vec![frame(0.5, -0.5)];
    let (latest, count) = drain(&queued);
    assert_eq!(count, 1);
    let mut state = LastCommandState::initial(0);
    state = control_tick(state, latest, 1_000, THRESHOLD_MS);
    ticks.push((
        axis_tick(&steer, state.active_command.left_right),
        axis_tick(&throttle, state.active_command.forward_backward),
    ));

    // ticks at t=1100 and t=1301: silence on the socket
    for now in [1_100u64, 1_301u64] {
        let (latest, count) = drain(&Vec::new());
        assert_eq!(count, 0);
        state = control_tick(state, latest, now, THRESHOLD_MS);
        ticks.push((
            axis_tick(&steer, state.active_command.left_right),
            axis_tick(&throttle, state.active_command.forward_backward),
        ));
    }

    // the mapped non-neutral writes come first, the neutral-center writes
    // appear once the 200 ms threshold has passed
    assert_eq!(ticks, vec![(511, 716), (511, 716), (614, 614)]);
}
