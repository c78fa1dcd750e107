use rover_control::actuator::{
    all_channel_writes, axis_tick, channel_writes, frequency_writes, prescale_for_freq, AxisCal,
    AxisPolicy, RegWrite, TICK_MAX,
};

fn hardware_cal() -> AxisCal {
    AxisCal { center: 614, scale: 205, policy: AxisPolicy::FullRange }
}

#[test]
fn axis_zero_maps_to_center() {
    let cal = hardware_cal();
    assert_eq!(axis_tick(&cal, 0.0f32.to_bits()), 614);
    // the negative zero pattern is the same neutral value
    assert_eq!(axis_tick(&cal, (-0.0f32).to_bits()), 614);
}

#[test]
fn axis_one_maps_to_center_plus_scale() {
    let cal = hardware_cal();
    assert_eq!(axis_tick(&cal, 1.0f32.to_bits()), 819);
    assert_eq!(axis_tick(&cal, (-1.0f32).to_bits()), 409);
}

#[test]
fn axis_half_magnitude_truncates_the_affine_sum() {
    let cal = hardware_cal();
    // 614 + 102.5 = 716.5 truncates to 716; 614 - 102.5 = 511.5 to 511
    assert_eq!(axis_tick(&cal, 0.5f32.to_bits()), 716);
    assert_eq!(axis_tick(&cal, (-0.5f32).to_bits()), 511);
}

#[test]
fn axis_ticks_clamp_to_the_chip_range() {
    let high = AxisCal { center: 4000, scale: 205, policy: AxisPolicy::FullRange };
    assert_eq!(axis_tick(&high, 1.0f32.to_bits()), TICK_MAX);
    let low = AxisCal { center: 100, scale: 205, policy: AxisPolicy::FullRange };
    assert_eq!(axis_tick(&low, (-1.0f32).to_bits()), 0);
    // out-of-range axis values saturate into the clamp as well
    let cal = hardware_cal();
    assert_eq!(axis_tick(&cal, 100.0f32.to_bits()), TICK_MAX);
    assert_eq!(axis_tick(&cal, (-100.0f32).to_bits()), 0);
}

#[test]
fn axis_infinities_saturate_and_nan_commands_zero() {
    let cal = hardware_cal();
    assert_eq!(axis_tick(&cal, f32::INFINITY.to_bits()), TICK_MAX);
    assert_eq!(axis_tick(&cal, f32::NEG_INFINITY.to_bits()), 0);
    // a NaN sum converts to tick 0, sign bit or not
    assert_eq!(axis_tick(&cal, f32::NAN.to_bits()), 0);
    assert_eq!(axis_tick(&cal, (-f32::NAN).to_bits()), 0);
    // subnormals are under one fixed-point unit and read as neutral
    assert_eq!(axis_tick(&cal, 1), 614);
}

#[test]
fn half_positive_policy_halves_and_floors() {
    let cal = AxisCal { center: 614, scale: 205, policy: AxisPolicy::HalfPositiveOnly };
    // positive magnitudes are halved: 205 * 0.5 = 102.5 truncates to 102
    assert_eq!(axis_tick(&cal, 1.0f32.to_bits()), 716);
    // negative values are floored at the neutral center
    assert_eq!(axis_tick(&cal, (-1.0f32).to_bits()), 614);
    assert_eq!(axis_tick(&cal, 0.0f32.to_bits()), 614);
}

#[test]
fn prescale_matches_chip_formula() {
    // round(25_000_000 / 4096 / 100) - 1 == 60
    assert_eq!(prescale_for_freq(100), 60);
    // round(25_000_000 / 4096 / 50) - 1 == 121
    assert_eq!(prescale_for_freq(50), 121);
    // the extremes of the accepted range stay inside one byte
    assert_eq!(prescale_for_freq(24), 253);
    assert_eq!(prescale_for_freq(1526), 3);
}

#[test]
fn channel_write_plan_hits_the_channel_block() {
    let w = channel_writes(3, 0, 0x1234);
    assert_eq!(
        w,
        vec![
            RegWrite { register: 0x12, value: 0x00 },
            RegWrite { register: 0x13, value: 0x00 },
            RegWrite { register: 0x14, value: 0x34 },
            RegWrite { register: 0x15, value: 0x12 },
        ]
    );
}

#[test]
fn broadcast_write_plan_hits_the_all_channel_block() {
    let w = all_channel_writes(0x0102, 0x0FFF);
    assert_eq!(
        w,
        vec![
            RegWrite { register: 0xFA, value: 0x02 },
            RegWrite { register: 0xFB, value: 0x01 },
            RegWrite { register: 0xFC, value: 0xFF },
            RegWrite { register: 0xFD, value: 0x0F },
        ]
    );
}

#[test]
fn frequency_write_plan_sleeps_loads_and_restores() {
    let w = frequency_writes(0xA1, 60);
    assert_eq!(
        w,
        vec![
            // sleep bit on, restart bit cleared
            RegWrite { register: 0x00, value: 0x31 },
            RegWrite { register: 0xFE, value: 60 },
            RegWrite { register: 0x00, value: 0xA1 },
        ]
    );
}
