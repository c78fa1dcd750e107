use byteorder::{LittleEndian, WriteBytesExt};
use rover_control::codec::FRAME_MAGIC;
use rover_control::intake::{drain, DrainState};

fn frame(forward_backward: f32, left_right: f32) -> Vec<u8> {
    let mut buf: Vec<u8> = Vec::new();
    buf.write_u32::<LittleEndian>(FRAME_MAGIC).unwrap();
    buf.write_f32::<LittleEndian>(forward_backward).unwrap();
    buf.write_f32::<LittleEndian>(left_right).unwrap();
    buf
}

#[test]
fn drain_keeps_newest_valid_and_counts_all() {
    // every queued datagram is valid: the last one wins, all are counted
    let frames = vec![frame(0.1, 0.0), frame(0.2, 0.0), frame(0.3, -0.7)];
    let (latest, count) = drain(&frames);
    let cmd = latest.expect("a valid frame was queued");
    assert_eq!(cmd.forward_backward, 0.3f32.to_bits());
    assert_eq!(cmd.left_right, (-0.7f32).to_bits());
    assert_eq!(count, 3);
}

#[test]
fn drain_skips_invalid_tail() {
    // the newest datagram is garbage: the one before it wins
    let frames = vec![frame(0.1, 0.0), frame(0.2, 0.5), vec![0u8; 12]];
    let (latest, count) = drain(&frames);
    let cmd = latest.unwrap();
    assert_eq!(cmd.forward_backward, 0.2f32.to_bits());
    assert_eq!(cmd.left_right, 0.5f32.to_bits());
    assert_eq!(count, 2);
}

#[test]
fn drain_continues_past_invalid_frames() {
    let frames = vec![vec![0u8; 12], vec![], frame(0.9, 0.9)];
    let (latest, count) = drain(&frames);
    assert_eq!(latest.unwrap().forward_backward, 0.9f32.to_bits());
    assert_eq!(count, 1);
}

#[test]
fn drain_of_nothing_or_garbage_yields_nothing() {
    let (latest, count) = drain(&Vec::new());
    assert!(latest.is_none());
    assert_eq!(count, 0);

    let frames = vec![vec![0u8; 12], vec![1, 2, 3]];
    let (latest, count) = drain(&frames);
    assert!(latest.is_none());
    assert_eq!(count, 0);
}

#[test]
fn observe_steps_match_drain() {
    let mut state = DrainState::new();
    assert!(state.latest.is_none());
    assert_eq!(state.valid_count, 0);

    state.observe(&frame(0.25, 0.0));
    assert_eq!(state.latest.unwrap().forward_backward, 0.25f32.to_bits());
    assert_eq!(state.valid_count, 1);

    // a rejected datagram changes nothing
    state.observe(&[0u8; 12]);
    assert_eq!(state.latest.unwrap().forward_backward, 0.25f32.to_bits());
    assert_eq!(state.valid_count, 1);

    state.observe(&frame(0.75, 0.0));
    assert_eq!(state.latest.unwrap().forward_backward, 0.75f32.to_bits());
    assert_eq!(state.valid_count, 2);
}
