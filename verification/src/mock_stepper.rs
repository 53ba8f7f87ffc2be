//! A stepper without physics: time advances, the robot stands still on the
//! line, and the wheels turn once per second.

use vstd::prelude::*;
use crate::sensors::{GyroData, ImuFusedData, MotorAngles, MotorDriversDutyCycles};
use crate::stepper::SimulationStepper;

verus! {

/// A stepper that only counts ticks.
pub struct MockStepper {
    step_period_us: u32,
    current_step: usize,
    current_time_us: u32,
    duty_cycles: MotorDriversDutyCycles,
}

/// The angle of a wheel that turns once per second, after `time_us`
/// microseconds, in units of 1/65535 of a turn; it stays at the top of the
/// range once a full turn is reached.
pub open spec fn mock_angle(time_us: int) -> int {
    if time_us >= 1_000_000 {
        65535
    } else {
        time_us * 65535 / 1_000_000
    }
}

impl MockStepper {
    /// A stepper at time zero that advances by `step_period_us` at each step.
    pub fn new(step_period_us: u32) -> (r: Self)
        requires
            step_period_us > 0,
        ensures
            r.inv(),
            r.period_us() == step_period_us,
            r.time_us() == 0,
            r.ticks() == 0,
            r.active(),
            r.duty_cycles() == (MotorDriversDutyCycles { left: 0, right: 0 }),
    {
        MockStepper {
            step_period_us,
            current_step: 0,
            current_time_us: 0,
            duty_cycles: MotorDriversDutyCycles { left: 0, right: 0 },
        }
    }

    /// The duty cycles last handed to the motor drivers.
    pub fn motor_drivers_duty_cycles(&self) -> (r: MotorDriversDutyCycles)
        ensures
            r == self.duty_cycles(),
    {
        self.duty_cycles
    }

    fn wheel_angle(&self) -> (r: u16)
        ensures
            r == mock_angle(self.current_time_us as int),
    {
        if self.current_time_us >= 1_000_000 {
            65535
        } else {
            let scaled: u64 = self.current_time_us as u64 * 65535 / 1_000_000;
            scaled as u16
        }
    }
}

impl SimulationStepper for MockStepper {
    open spec fn inv(&self) -> bool {
        &&& self.period_us() > 0
        &&& self.time_us() == self.ticks() * self.period_us()
    }

    closed spec fn period_us(&self) -> int {
        self.step_period_us as int
    }

    closed spec fn time_us(&self) -> int {
        self.current_time_us as int
    }

    closed spec fn ticks(&self) -> int {
        self.current_step as int
    }

    open spec fn line_left(&self) -> Seq<u8> {
        seq![0u8, 0u8, 0u8, 0u8, 0u8, 0u8, 0u8, 0u8]
    }

    open spec fn line_right(&self) -> Seq<u8> {
        seq![0u8, 0u8, 0u8, 0u8, 0u8, 0u8, 0u8, 0u8]
    }

    open spec fn angles(&self) -> MotorAngles {
        MotorAngles {
            left: mock_angle(self.time_us()) as u16,
            right: mock_angle(self.time_us()) as u16,
        }
    }

    open spec fn gyro(&self) -> GyroData {
        GyroData { roll_angular_speed: 0, pitch_angular_speed: 0, yaw_angular_speed: 0 }
    }

    open spec fn imu(&self) -> ImuFusedData {
        ImuFusedData { roll: 0, pitch: 0, yaw: 0 }
    }

    open spec fn active(&self) -> bool {
        true
    }

    closed spec fn duty_cycles(&self) -> MotorDriversDutyCycles {
        self.duty_cycles
    }

    proof fn lemma_inv(&self) {
        assert(self.ticks() <= self.ticks() * self.period_us()) by (nonlinear_arith)
            requires
                0 <= self.ticks(),
                0 < self.period_us(),
        ;
        assert(self.line_left().len() == 8);
        assert(self.line_right().len() == 8);
    }

    fn step_us(&self) -> (r: u32) {
        self.step_period_us
    }

    fn step(&mut self) {
        proof {
            self.lemma_inv();
            assert((self.ticks() + 1) * self.period_us() == self.ticks() * self.period_us()
                + self.period_us()) by (nonlinear_arith);
        }
        self.current_step += 1;
        self.current_time_us += self.step_period_us;
    }

    fn get_time_us(&self) -> (r: u32) {
        self.current_time_us
    }

    fn get_step_count(&self) -> (r: usize) {
        self.current_step
    }

    fn get_line_sensors_left(&self) -> (r: [u8; 8]) {
        let r: [u8; 8] = [0; 8];
        r
    }

    fn get_line_sensors_right(&self) -> (r: [u8; 8]) {
        let r: [u8; 8] = [0; 8];
        r
    }

    fn get_motor_angles(&self) -> (r: MotorAngles) {
        let angle: u16 = self.wheel_angle();
        MotorAngles { left: angle, right: angle }
    }

    fn get_gyro(&self) -> (r: GyroData) {
        GyroData { roll_angular_speed: 0, pitch_angular_speed: 0, yaw_angular_speed: 0 }
    }

    fn get_imu_fused_data(&self) -> (r: ImuFusedData) {
        ImuFusedData { roll: 0, pitch: 0, yaw: 0 }
    }

    fn set_motor_drivers_duty_cycles(&mut self, duty_cycles: MotorDriversDutyCycles) {
        self.duty_cycles = duty_cycles;
    }

    fn is_active(&self) -> (r: bool) {
        true
    }
}

} // verus!
