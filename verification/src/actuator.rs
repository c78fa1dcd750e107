//! Actuator mapping and the PWM driver chip's register protocol.
//!
//! Each command axis is mapped through an affine transform
//! `tick = center + scale * axis` and clamped to the chip's 12-bit tick
//! range. The axis value is read as a fixed-point number (see
//! [`crate::axis`]); the affine sum is truncated toward zero, and a NaN
//! axis commands tick 0, as a saturating float-to-integer conversion of
//! the sum would — the whole map is deterministic integer arithmetic. A
//! named calibration policy decides whether an axis runs at full range in
//! both directions or halves positive values and floors negative values
//! at zero.
//!
//! The chip itself is a register-addressed PWM controller: every channel
//! has an on-tick and an off-tick, each split over a low and a high byte
//! register. The functions here compute complete register write plans in
//! verified code and push them through the trusted one-byte write of
//! [`crate::device`]. A write can fail on the bus; failures are reported to
//! the caller and never stop the remaining independent writes of another
//! channel.

use vstd::prelude::*;
use vstd::arithmetic::div_mod::{
    lemma_basic_div, lemma_div_by_self, lemma_div_is_ordered, lemma_div_multiples_vanish,
    lemma_div_of0, lemma_fundamental_div_mod_converse, lemma_multiply_divide_lt,
};
use vstd::arithmetic::power2::lemma2_to64;
use crate::axis::{
    axis_fixed, axis_fixed_parts, axis_is_nan, axis_mag, is_nan_bits, lemma_f32_fields, AXIS_ONE,
};
use crate::codec::Command;
use crate::device::{read_register, write_register};
use i2cdev::linux::LinuxI2CDevice;

verus! {

/// Mode register 1 of the PWM chip.
pub const MODE1_REG: u8 = 0x00;

/// Mode register 2 of the PWM chip.
pub const MODE2_REG: u8 = 0x01;

/// Prescaler register that sets the PWM update rate.
pub const PRESCALE_REG: u8 = 0xFE;

/// Low byte of channel 0's on-tick; channel n starts 4 registers later.
pub const LED0_ON_L: u8 = 0x06;

/// Low byte of the broadcast on-tick that addresses every channel at once.
pub const ALL_LED_ON_L: u8 = 0xFA;

/// Mode 1 bit that puts the oscillator to sleep.
pub const SLEEP_BIT: u8 = 0x10;

/// Mode 1 bit that makes the chip answer the all-call address.
pub const ALLCALL_BIT: u8 = 0x01;

/// Mode 2 bit that selects totem-pole output drivers.
pub const OUTDRV_BIT: u8 = 0x04;

/// Mode 1 bit that restarts PWM output after a sleep.
pub const RESTART_BIT: u8 = 0x80;

/// Top of the chip's 12-bit duty-cycle tick range.
pub const TICK_MAX: u16 = 4095;

/// Number of PWM channels the chip drives.
pub const CHANNEL_COUNT: u8 = 16;

/// An actuator-side failure: one SMBus transfer did not go through.
#[derive(Clone, Copy, Debug, PartialEq, Eq, Structural)]
pub enum ActuatorError {
    /// A register write was not acknowledged.
    WriteFailed,
    /// A register read was not acknowledged.
    ReadFailed,
}

/// One byte write to one device register.
#[derive(Clone, Copy, Debug, PartialEq, Eq, Structural)]
pub struct RegWrite {
    pub register: u8,
    pub value: u8,
}

/// How an axis value is shaped before the affine map.
#[derive(Clone, Copy, Debug, PartialEq, Eq, Structural)]
pub enum AxisPolicy {
    /// Use the axis as sent: full magnitude in both directions.
    FullRange,
    /// Halve positive values and floor negative values at zero, the
    /// calibration one hardware revision wants on the throttle axis.
    HalfPositiveOnly,
}

/// Calibration of one axis: the neutral tick, the tick swing that one full
/// axis unit adds, and the shaping policy.
#[derive(Clone, Copy, Debug, PartialEq, Eq, Structural)]
pub struct AxisCal {
    pub center: u16,
    pub scale: u16,
    pub policy: AxisPolicy,
}

impl AxisCal {
    /// The neutral tick must itself lie in the chip's tick range.
    pub open spec fn wf(self) -> bool {
        self.center <= TICK_MAX
    }
}

/// The fixed-point axis value after the calibration policy is applied.
pub open spec fn policy_fixed(policy: AxisPolicy, f: int) -> int {
    match policy {
        AxisPolicy::FullRange => f,
        AxisPolicy::HalfPositiveOnly => if f < 0 {
            0
        } else {
            f / 2
        },
    }
}

/// The duty-cycle tick an axis bit pattern maps to under a calibration.
///
/// The affine sum `center + scale * axis` is truncated toward zero and
/// clamped to `0 ..= TICK_MAX`: a positive scaled offset is floored, a
/// negative one has its magnitude rounded up before the subtraction, so
/// the whole sum truncates as one value. A NaN axis maps to tick 0, the
/// value a saturating float-to-integer conversion of the NaN sum gives.
pub open spec fn tick_of(cal: AxisCal, bits: u32) -> int {
    if is_nan_bits(bits) {
        0
    } else {
        let f = policy_fixed(cal.policy, axis_fixed(bits));
        if f >= 0 {
            let t = cal.center + (cal.scale * f) / (AXIS_ONE as int);
            if t > TICK_MAX {
                TICK_MAX as int
            } else {
                t
            }
        } else {
            let off = (cal.scale * (-f) + (AXIS_ONE - 1)) / (AXIS_ONE as int);
            if off >= cal.center {
                0
            } else {
                cal.center - off
            }
        }
    }
}

/// Maps one axis bit pattern to its duty-cycle tick.
pub fn axis_tick(cal: &AxisCal, bits: u32) -> (t: u16)
    requires
        cal.wf(),
    ensures
        t == tick_of(*cal, bits),
        t <= TICK_MAX,
{
    if axis_is_nan(bits) {
        return 0;
    }
    let (mag, neg) = axis_fixed_parts(bits);
    let (mag2, neg2): (u64, bool) = match cal.policy {
        AxisPolicy::FullRange => (mag, neg),
        AxisPolicy::HalfPositiveOnly => if neg {
            (0u64, false)
        } else {
            (mag / 2, false)
        },
    };
    proof {
        assert((cal.scale as u64) * mag2 <= 0xffff * 0x8_0000_0000u64) by (nonlinear_arith)
            requires
                mag2 <= 0x8_0000_0000u64,
                cal.scale <= 0xffff,
        ;
        lemma_div_of0(AXIS_ONE as int);
    }
    let ghost f = policy_fixed(cal.policy, axis_fixed(bits));
    let off64: u64 = if neg2 {
        ((cal.scale as u64) * mag2 + (AXIS_ONE - 1)) / AXIS_ONE
    } else {
        (cal.scale as u64) * mag2 / AXIS_ONE
    };
    proof {
        if neg2 {
            assert(f == -(mag2 as int));
            assert(off64 == (cal.scale * (-f) + (AXIS_ONE - 1)) / (AXIS_ONE as int));
            if f == 0 {
                assert(cal.scale * (-f) == 0 && cal.scale * f == 0) by (nonlinear_arith)
                    requires
                        f == 0,
                ;
                lemma_basic_div(AXIS_ONE as int - 1, AXIS_ONE as int);
            }
        } else {
            assert(f == mag2 as int);
            assert(off64 == (cal.scale * f) / (AXIS_ONE as int));
        }
    }
    if neg2 {
        if off64 >= cal.center as u64 {
            0
        } else {
            cal.center - (off64 as u16)
        }
    } else {
        let t64: u64 = cal.center as u64 + off64;
        if t64 > TICK_MAX as u64 {
            TICK_MAX
        } else {
            t64 as u16
        }
    }
}

/// The calibration endpoints of the affine map, for every calibration with
/// the full-range policy: axis 0.0 maps to the center tick, axis 1.0 to
/// `center + scale` clamped to the top of the tick range, and axis -1.0 to
/// `center - scale` floored at zero.
pub proof fn lemma_axis_tick_endpoints(cal: AxisCal)
    requires
        cal.wf(),
        cal.policy == AxisPolicy::FullRange,
    ensures
        tick_of(cal, 0x0000_0000u32) == cal.center,
        tick_of(cal, 0x3f80_0000u32) == if cal.center + cal.scale > TICK_MAX {
            TICK_MAX as int
        } else {
            cal.center + cal.scale
        },
        tick_of(cal, 0xbf80_0000u32) == if cal.scale >= cal.center {
            0int
        } else {
            cal.center - cal.scale
        },
{
    lemma2_to64();
    lemma_f32_fields(0x0000_0000u32, 0, 0, 0);
    lemma_f32_fields(0x3f80_0000u32, 0, 127, 0);
    lemma_f32_fields(0xbf80_0000u32, 1, 127, 0);
    lemma_fundamental_div_mod_converse(0x80_0000, 8, 0x10_0000, 0);
    assert(axis_fixed(0x0000_0000u32) == 0);
    assert(axis_mag(0x3f80_0000u32) == 0x10_0000);
    assert(axis_fixed(0x3f80_0000u32) == 0x10_0000);
    assert(axis_mag(0xbf80_0000u32) == 0x10_0000);
    assert(axis_fixed(0xbf80_0000u32) == -0x10_0000);
    lemma_div_of0(AXIS_ONE as int);
    lemma_div_multiples_vanish(cal.scale as int, 0x10_0000);
    assert(cal.scale * 0x10_0000 == 0x10_0000 * cal.scale);
    assert((cal.scale * 0x10_0000) / (AXIS_ONE as int) == cal.scale);
}

/// Low byte of a 16-bit tick value.
pub open spec fn low_byte(x: u16) -> u8 {
    ((x as int) % 0x100) as u8
}

/// High byte of a 16-bit tick value.
pub open spec fn high_byte(x: u16) -> u8 {
    ((x as int) / 0x100) as u8
}

/// The four register writes that set one channel's on/off ticks: low and
/// high byte of the on-tick, then low and high byte of the off-tick, at the
/// channel's register block.
pub fn channel_writes(channel: u8, on: u16, off: u16) -> (w: Vec<RegWrite>)
    requires
        channel < CHANNEL_COUNT,
    ensures
        w@.len() == 4,
        w@[0] == (RegWrite { register: (LED0_ON_L + 4 * channel) as u8, value: low_byte(on) }),
        w@[1] == (RegWrite { register: (LED0_ON_L + 4 * channel + 1) as u8, value: high_byte(on) }),
        w@[2] == (RegWrite { register: (LED0_ON_L + 4 * channel + 2) as u8, value: low_byte(off) }),
        w@[3] == (RegWrite { register: (LED0_ON_L + 4 * channel + 3) as u8, value: high_byte(off) }),
{
    let base: u8 = LED0_ON_L + 4 * channel;
    let mut w: Vec<RegWrite> = Vec::new();
    w.push(RegWrite { register: base, value: (on % 0x100) as u8 });
    w.push(RegWrite { register: base + 1, value: (on / 0x100) as u8 });
    w.push(RegWrite { register: base + 2, value: (off % 0x100) as u8 });
    w.push(RegWrite { register: base + 3, value: (off / 0x100) as u8 });
    w
}

/// The four register writes that set every channel's on/off ticks at once,
/// through the broadcast register block.
pub fn all_channel_writes(on: u16, off: u16) -> (w: Vec<RegWrite>)
    ensures
        w@.len() == 4,
        w@[0] == (RegWrite { register: ALL_LED_ON_L, value: low_byte(on) }),
        w@[1] == (RegWrite { register: (ALL_LED_ON_L + 1) as u8, value: high_byte(on) }),
        w@[2] == (RegWrite { register: (ALL_LED_ON_L + 2) as u8, value: low_byte(off) }),
        w@[3] == (RegWrite { register: (ALL_LED_ON_L + 3) as u8, value: high_byte(off) }),
{
    let mut w: Vec<RegWrite> = Vec::new();
    w.push(RegWrite { register: ALL_LED_ON_L, value: (on % 0x100) as u8 });
    w.push(RegWrite { register: ALL_LED_ON_L + 1, value: (on / 0x100) as u8 });
    w.push(RegWrite { register: ALL_LED_ON_L + 2, value: (off % 0x100) as u8 });
    w.push(RegWrite { register: ALL_LED_ON_L + 3, value: (off / 0x100) as u8 });
    w
}

/// Pushes a write plan to the device in order; stops at the first write the
/// bus refuses and reports it.
fn apply_writes(dev: &mut LinuxI2CDevice, writes: &Vec<RegWrite>) -> (r: Result<(), ActuatorError>)
    ensures
        r is Err ==> r == Err::<(), ActuatorError>(ActuatorError::WriteFailed),
{
    let mut i: usize = 0;
    while i < writes.len()
        invariant
            i <= writes@.len(),
        decreases writes@.len() - i,
    {
        let w = writes[i];
        match write_register(dev, w.register, w.value) {
            Ok(_) => {},
            Err(_) => {
                return Err(ActuatorError::WriteFailed);
            },
        }
        i = i + 1;
    }
    Ok(())
}

/// Sets one channel's on/off ticks on the device.
pub fn set_pwm(dev: &mut LinuxI2CDevice, channel: u8, on: u16, off: u16) -> (r: Result<
    (),
    ActuatorError,
>)
    requires
        channel < CHANNEL_COUNT,
    ensures
        r is Err ==> r == Err::<(), ActuatorError>(ActuatorError::WriteFailed),
{
    let writes = channel_writes(channel, on, off);
    apply_writes(dev, &writes)
}

/// Sets every channel's on/off ticks at once through the broadcast block.
pub fn set_all_pwm(dev: &mut LinuxI2CDevice, on: u16, off: u16) -> (r: Result<(), ActuatorError>)
    ensures
        r is Err ==> r == Err::<(), ActuatorError>(ActuatorError::WriteFailed),
{
    let writes = all_channel_writes(on, off);
    apply_writes(dev, &writes)
}

/// Prescaler for a target PWM update rate: `round(25 MHz / 4096 / freq) - 1`,
/// the chip's documented formula, as the integer
/// `floor((50_000_000 + 4096 * freq) / (8192 * freq)) - 1`.
pub open spec fn prescale_spec(freq_hz: u16) -> int {
    (50_000_000 + 4096 * freq_hz) / (8192 * freq_hz) - 1
}

/// Computes the prescaler byte for a target update rate. The rate bounds
/// keep the chip's formula inside the one-byte prescaler register.
pub fn prescale_for_freq(freq_hz: u16) -> (p: u8)
    requires
        24 <= freq_hz <= 1526,
    ensures
        p == prescale_spec(freq_hz),
{
    let num: u64 = 50_000_000 + 4096 * (freq_hz as u64);
    let den: u64 = 8192 * (freq_hz as u64);
    let q: u64 = num / den;
    proof {
        lemma_div_by_self(den as int);
        lemma_div_is_ordered(den as int, num as int, den as int);
        lemma_multiply_divide_lt(num as int, den as int, 257);
    }
    (q - 1) as u8
}

/// The three register writes that load a new prescaler: sleep with the
/// restart bit cleared, write the prescaler, restore the previous mode.
/// The oscillator must settle before output restarts; see
/// [`begin_set_pwm_freq`] and [`finish_set_pwm_freq`].
pub fn frequency_writes(oldmode: u8, prescale: u8) -> (w: Vec<RegWrite>)
    ensures
        w@.len() == 3,
        w@[0] == (RegWrite { register: MODE1_REG, value: (oldmode & 0x7f) | SLEEP_BIT }),
        w@[1] == (RegWrite { register: PRESCALE_REG, value: prescale }),
        w@[2] == (RegWrite { register: MODE1_REG, value: oldmode }),
{
    let mut w: Vec<RegWrite> = Vec::new();
    w.push(RegWrite { register: MODE1_REG, value: (oldmode & 0x7f) | SLEEP_BIT });
    w.push(RegWrite { register: PRESCALE_REG, value: prescale });
    w.push(RegWrite { register: MODE1_REG, value: oldmode });
    w
}

/// First half of a frequency change: reads the current mode, loads the
/// prescaler for the target rate, and restores the mode. Returns the mode
/// byte that was read. The caller must wait for the oscillator to settle
/// (a few milliseconds) and then call [`finish_set_pwm_freq`] with that
/// byte to turn output back on.
pub fn begin_set_pwm_freq(dev: &mut LinuxI2CDevice, freq_hz: u16) -> (r: Result<u8, ActuatorError>)
    requires
        24 <= freq_hz <= 1526,
{
    let oldmode = match read_register(dev, MODE1_REG) {
        Ok(v) => v,
        Err(_) => {
            return Err(ActuatorError::ReadFailed);
        },
    };
    let prescale = prescale_for_freq(freq_hz);
    let writes = frequency_writes(oldmode, prescale);
    match apply_writes(dev, &writes) {
        Ok(_) => Ok(oldmode),
        Err(e) => Err(e),
    }
}

/// Second half of a frequency change: turns PWM output back on by setting
/// the restart bit on the mode byte that [`begin_set_pwm_freq`] returned.
pub fn finish_set_pwm_freq(dev: &mut LinuxI2CDevice, oldmode: u8) -> (r: Result<(), ActuatorError>)
    ensures
        r is Err ==> r == Err::<(), ActuatorError>(ActuatorError::WriteFailed),
{
    match write_register(dev, MODE1_REG, oldmode | RESTART_BIT) {
        Ok(_) => Ok(()),
        Err(_) => Err(ActuatorError::WriteFailed),
    }
}

/// Start-up configuration: every channel off, totem-pole outputs, all-call
/// addressing enabled. The chip is still asleep afterwards; wait a few
/// milliseconds, then call [`wake`].
pub fn init_outputs(dev: &mut LinuxI2CDevice) -> (r: Result<(), ActuatorError>)
    ensures
        r is Err ==> r == Err::<(), ActuatorError>(ActuatorError::WriteFailed),
{
    match set_all_pwm(dev, 0, 0) {
        Ok(_) => {},
        Err(e) => {
            return Err(e);
        },
    }
    match write_register(dev, MODE2_REG, OUTDRV_BIT) {
        Ok(_) => {},
        Err(_) => {
            return Err(ActuatorError::WriteFailed);
        },
    }
    match write_register(dev, MODE1_REG, ALLCALL_BIT) {
        Ok(_) => Ok(()),
        Err(_) => Err(ActuatorError::WriteFailed),
    }
}

/// Clears the sleep bit so the oscillator starts. Wait a few milliseconds
/// afterwards before configuring the frequency.
pub fn wake(dev: &mut LinuxI2CDevice) -> (r: Result<(), ActuatorError>) {
    let mode = match read_register(dev, MODE1_REG) {
        Ok(v) => v,
        Err(_) => {
            return Err(ActuatorError::ReadFailed);
        },
    };
    match write_register(dev, MODE1_REG, mode & !SLEEP_BIT) {
        Ok(_) => Ok(()),
        Err(_) => Err(ActuatorError::WriteFailed),
    }
}

/// Which channel each axis drives and how it is calibrated.
#[derive(Clone, Copy, Debug, PartialEq, Eq, Structural)]
pub struct DriveConfig {
    pub steer_channel: u8,
    pub throttle_channel: u8,
    pub steer: AxisCal,
    pub throttle: AxisCal,
}

impl DriveConfig {
    pub open spec fn wf(self) -> bool {
        &&& self.steer_channel < CHANNEL_COUNT
        &&& self.throttle_channel < CHANNEL_COUNT
        &&& self.steer.wf()
        &&& self.throttle.wf()
    }
}

/// Maps one axis to its tick and commands it on one channel, with an
/// on-tick of zero. On success the commanded off-tick is returned and is
/// exactly the calibrated mapping of the axis.
pub fn drive_axis(dev: &mut LinuxI2CDevice, channel: u8, cal: &AxisCal, bits: u32) -> (r: Result<
    u16,
    ActuatorError,
>)
    requires
        channel < CHANNEL_COUNT,
        cal.wf(),
    ensures
        r is Ok ==> r.unwrap() == tick_of(*cal, bits),
        r is Err ==> r == Err::<u16, ActuatorError>(ActuatorError::WriteFailed),
{
    let tick = axis_tick(cal, bits);
    match set_pwm(dev, channel, 0, tick) {
        Ok(_) => Ok(tick),
        Err(e) => Err(e),
    }
}

/// Issues one command to both axes: steering first, throttle second. Each
/// axis write is independently fallible, and a failure on one never stops
/// the attempt on the other; both outcomes are returned, steering first.
/// Each Ok value is the commanded tick for that axis.
pub fn drive(dev: &mut LinuxI2CDevice, cfg: &DriveConfig, command: Command) -> (r: (
    Result<u16, ActuatorError>,
    Result<u16, ActuatorError>,
))
    requires
        cfg.wf(),
    ensures
        r.0 is Ok ==> r.0.unwrap() == tick_of(cfg.steer, command.left_right),
        r.1 is Ok ==> r.1.unwrap() == tick_of(cfg.throttle, command.forward_backward),
        r.0 is Err ==> r.0 == Err::<u16, ActuatorError>(ActuatorError::WriteFailed),
        r.1 is Err ==> r.1 == Err::<u16, ActuatorError>(ActuatorError::WriteFailed),
{
    let steer = drive_axis(dev, cfg.steer_channel, &cfg.steer, command.left_right);
    let throttle = drive_axis(dev, cfg.throttle_channel, &cfg.throttle, command.forward_backward);
    (steer, throttle)
}

} // verus!
