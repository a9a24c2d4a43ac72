//! The servo board that drives the vehicle: speed to servo angle, and the
//! register writes that set angles, pulses and power.

use vstd::prelude::*;

verus! {

/// Bus address of the servo board.
pub const HAT_8SERVOS_ADDR: u8 = 0x36;
pub const SERVO_ANGLE_REG: u8 = 0x00;
pub const SERVO_PULSE_REG: u8 = 0x10;
pub const SERVO_POWER_REG: u8 = 0x30;

/// Servo channel of the left wheel.
pub const LEFT_CHANNEL: u8 = 1;
/// Servo channel of the right wheel.
pub const RIGHT_CHANNEL: u8 = 5;

/// Largest servo angle in degrees.
pub const MAX_ANGLE: u8 = 180;

/// `speed * 90 / 100`, the quotient rounded toward zero.
pub open spec fn scaled_speed(speed: i8) -> int {
    if speed >= 0 {
        (speed as int * 90) / 100
    } else {
        -((-(speed as int) * 90) / 100)
    }
}

/// Servo angle for a wheel speed: -100 gives 0, 0 gives 90, 100 gives 180.
/// Speeds below -100 wrap around as the byte cast does.
pub fn speed_to_angle(speed: i8) -> (r: u8)
    ensures
        r == (90 + scaled_speed(speed)) as u8,
        -100 <= speed <= 100 ==> r == 90 + scaled_speed(speed) && r <= MAX_ANGLE,
{
    let s = speed as i16;
    let q: i16 = if s >= 0 {
        (s * 90) / 100
    } else {
        -(((-s) * 90) / 100)
    };
    (90 + q) as u8
}

/// The register write that sets servo `channel` to `angle`, capped at 180.
pub fn servo_angle_frame(channel: u8, angle: u8) -> (r: [u8; 2])
    ensures
        r@ == seq![
            (SERVO_ANGLE_REG + channel) as u8,
            if angle < MAX_ANGLE { angle } else { MAX_ANGLE },
        ],
{
    let angle = if angle < MAX_ANGLE {
        angle
    } else {
        MAX_ANGLE
    };
    let r = [SERVO_ANGLE_REG + channel, angle];
    assert(r@ =~= seq![(SERVO_ANGLE_REG + channel) as u8, angle]);
    r
}

/// The register write that sets the pulse width of servo `channel`, high
/// byte first.
pub fn servo_pulse_frame(channel: u8, pulse: u16) -> (r: [u8; 3])
    requires
        SERVO_PULSE_REG + 2 * channel <= u8::MAX,
    ensures
        r@ == seq![(SERVO_PULSE_REG + 2 * channel) as u8, (pulse / 256) as u8, (pulse % 256) as u8],
{
    let reg = SERVO_PULSE_REG + channel * 2;
    let high = (pulse >> 8u16) as u8;
    let low = (pulse & 0xffu16) as u8;
    assert(pulse >> 8u16 == pulse / 256 && pulse & 0xffu16 == pulse % 256) by (bit_vector);
    let r = [reg, high, low];
    assert(r@ =~= seq![reg, high, low]);
    r
}

/// The register write that switches servo power on or off.
pub fn servo_power_frame(enable: bool) -> (r: [u8; 2])
    ensures
        r@ == seq![SERVO_POWER_REG, if enable { 1u8 } else { 0u8 }],
{
    let state: u8 = if enable {
        1
    } else {
        0
    };
    let r = [SERVO_POWER_REG, state];
    assert(r@ =~= seq![SERVO_POWER_REG, state]);
    r
}

} // verus!
