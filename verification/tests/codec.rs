use byteorder::{LittleEndian, WriteBytesExt};
use rover_control::codec::{decode, Command, DecodeError, FRAME_MAGIC};

fn frame(forward_backward: f32, left_right: f32) -> Vec<u8> {
    let mut buf: Vec<u8> = Vec::new();
    buf.write_u32::<LittleEndian>(FRAME_MAGIC).unwrap();
    buf.write_f32::<LittleEndian>(forward_backward).unwrap();
    buf.write_f32::<LittleEndian>(left_right).unwrap();
    buf
}

#[test]
fn decode_valid_frame_matches_encoder() {
    let values: [f32; 4] = [1.0, -1.0, 0.0, f32::NAN];
    for &fb in values.iter() {
        for &lr in values.iter() {
            let bytes = frame(fb, lr);
            let cmd = decode(&bytes).expect("a well-formed frame must decode");
            assert_eq!(cmd.forward_backward, fb.to_bits());
            assert_eq!(cmd.left_right, lr.to_bits());
        }
    }
}

#[test]
fn decode_half_magnitude_frame() {
    let bytes = frame(0.5, -0.5);
    let cmd = decode(&bytes).unwrap();
    assert_eq!(cmd.forward_backward, 0x3F00_0000);
    assert_eq!(cmd.left_right, 0xBF00_0000);
}

#[test]
fn decode_ignores_trailing_bytes() {
    let mut bytes = frame(1.0, -1.0);
    bytes.extend_from_slice(&[0xDE, 0xAD, 0xBE, 0xEF]);
    let cmd = decode(&bytes).unwrap();
    assert_eq!(cmd.forward_backward, 1.0f32.to_bits());
    assert_eq!(cmd.left_right, (-1.0f32).to_bits());
}

#[test]
fn decode_rejects_wrong_magic_any_length() {
    // a zero magic with a full payload
    let mut bytes = vec![0u8; 12];
    assert_eq!(decode(&bytes), Err(DecodeError::InvalidMagic));
    // a zero magic with a long payload
    bytes = vec![0u8; 64];
    assert_eq!(decode(&bytes), Err(DecodeError::InvalidMagic));
    // a wrong magic with exactly four bytes
    assert_eq!(decode(&[0x01, 0x02, 0x03, 0x04]), Err(DecodeError::InvalidMagic));
}

#[test]
fn decode_rejects_short_input_without_reading_past_end() {
    assert_eq!(decode(&[]), Err(DecodeError::Truncated));
    let good = frame(1.0, 1.0);
    for len in 1..4 {
        assert_eq!(decode(&good[..len]), Err(DecodeError::Truncated));
    }
    // a matching magic prefix that ends before the payload is complete
    for len in 4..12 {
        assert_eq!(decode(&good[..len]), Err(DecodeError::Truncated));
    }
}

#[test]
fn neutral_command_is_zero_bits() {
    let n = Command::neutral();
    assert_eq!(n.forward_backward, 0);
    assert_eq!(n.left_right, 0);
    assert_eq!(n.forward_backward, 0.0f32.to_bits());
}
