//! Plain sensor and actuator samples exchanged with the physics stepper.
//!
//! Every sample is already quantised to the integer encoding that the guest
//! receives; the stepper is responsible for scaling physical quantities.

use vstd::prelude::*;

verus! {

/// Largest accepted PWM duty cycle.
pub const PWM_MAX: i16 = 1000;

/// Smallest accepted PWM duty cycle.
pub const PWM_MIN: i16 = -1000;

/// Motor drivers duty cycles.
#[derive(Clone, Copy, Debug, PartialEq, Eq, Structural)]
pub struct MotorDriversDutyCycles {
    pub left: i16,
    pub right: i16,
}

/// A side of the robot.
#[derive(Clone, Copy, Debug, PartialEq, Eq, Structural)]
pub enum Side {
    Left,
    Right,
}

impl MotorDriversDutyCycles {
    /// The duty cycle of the motor on `side`.
    pub fn get_by_side(&self, side: Side) -> (r: i16)
        ensures
            r == match side {
                Side::Left => self.left,
                Side::Right => self.right,
            },
    {
        match side {
            Side::Left => self.left,
            Side::Right => self.right,
        }
    }
}

impl Default for MotorDriversDutyCycles {
    fn default() -> (r: Self)
        ensures
            r.left == 0,
            r.right == 0,
    {
        MotorDriversDutyCycles { left: 0, right: 0 }
    }
}

/// The duty cycle that the drivers apply for a commanded `pwm`: the command
/// itself, held within the accepted range.
pub open spec fn saturated(pwm: i16) -> i16 {
    if pwm < PWM_MIN {
        PWM_MIN
    } else if pwm > PWM_MAX {
        PWM_MAX
    } else {
        pwm
    }
}

/// Saturates a commanded duty cycle to the accepted range.
pub fn saturate_pwm(pwm: i16) -> (r: i16)
    ensures
        r == saturated(pwm),
        PWM_MIN <= r <= PWM_MAX,
{
    if pwm < PWM_MIN {
        PWM_MIN
    } else if pwm > PWM_MAX {
        PWM_MAX
    } else {
        pwm
    }
}

/// Number of `true` among the first `n` of `flags`.
pub open spec fn count_set(flags: Seq<bool>, n: nat) -> nat
    decreases n,
{
    if n == 0 {
        0
    } else {
        count_set(flags, (n - 1) as nat) + if flags[n - 1] {
            1nat
        } else {
            0nat
        }
    }
}

/// Whether the robot is out of the track: more than half of its line
/// sensors see no track under them. `off_track` tells this of each sensor.
pub fn majority_off_track(off_track: &[bool; 16]) -> (r: bool)
    ensures
        r == (count_set(off_track@, 16) > 8),
{
    let mut missed: usize = 0;
    let mut i: usize = 0;
    while i < 16
        invariant
            i <= 16,
            missed == count_set(off_track@, i as nat),
            missed <= i,
        decreases 16 - i,
    {
        if off_track[i] {
            missed += 1;
        }
        i += 1;
    }
    missed > 8
}

/// Wheel angles, each scaled so that a full turn spans the `u16` range.
#[derive(Clone, Copy, Debug, PartialEq, Eq, Structural)]
pub struct MotorAngles {
    pub left: u16,
    pub right: u16,
}

/// Accelerometer sample.
#[derive(Clone, Copy, Debug, PartialEq, Eq, Structural)]
pub struct AccelData {
    pub front: u16,
    pub side: u16,
    pub vertical: u16,
}

/// Gyroscope sample: angular speed about each body axis.
#[derive(Clone, Copy, Debug, PartialEq, Eq, Structural)]
pub struct GyroData {
    pub roll_angular_speed: i16,
    pub pitch_angular_speed: i16,
    pub yaw_angular_speed: i16,
}

/// Fused IMU sample: absolute orientation angles.
#[derive(Clone, Copy, Debug, PartialEq, Eq, Structural)]
pub struct ImuFusedData {
    pub roll: i16,
    pub pitch: i16,
    pub yaw: i16,
}

/// Bot logical positions.
#[derive(Clone, Copy, Debug, PartialEq, Eq, Structural)]
pub enum BotPosition {
    OnTrack,
    Out,
    End,
}

/// Wrapper for all sensors data: the snapshot taken at one tick.
#[derive(Clone, Copy, Debug)]
pub struct SensorsData {
    pub motor_angles: MotorAngles,
    pub gyro: GyroData,
    pub imu_fused: ImuFusedData,
    /// Reflectance under each of the sixteen line sensors, left bank first.
    pub line_sensors: [u8; 16],
    pub bot_position: BotPosition,
    pub is_out_of_track: bool,
    pub is_over_track_end: bool,
}

impl Default for SensorsData {
    fn default() -> (r: Self)
        ensures
            r.motor_angles == (MotorAngles { left: 0, right: 0 }),
            r.gyro == (GyroData {
                roll_angular_speed: 0,
                pitch_angular_speed: 0,
                yaw_angular_speed: 0,
            }),
            r.imu_fused == (ImuFusedData { roll: 0, pitch: 0, yaw: 0 }),
            forall|i: int| 0 <= i < 16 ==> r.line_sensors@[i] == 0,
            r.bot_position == BotPosition::OnTrack,
            !r.is_out_of_track,
            !r.is_over_track_end,
    {
        SensorsData {
            motor_angles: MotorAngles { left: 0, right: 0 },
            gyro: GyroData { roll_angular_speed: 0, pitch_angular_speed: 0, yaw_angular_speed: 0 },
            imu_fused: ImuFusedData { roll: 0, pitch: 0, yaw: 0 },
            line_sensors: [0;16],
            bot_position: BotPosition::OnTrack,
            is_out_of_track: false,
            is_over_track_end: false,
        }
    }
}

} // verus!
