//! The stepper of a real run: a physics world advanced tick by tick, with
//! the time, the snapshot of the sensors, the activity of the robot and the
//! record of the run kept beside it.

use vstd::prelude::*;
use crate::activity::{after_tick, ActivityData};
use crate::recorder::{ExecutionData, WheelDataSide};
use crate::sensors::{GyroData, ImuFusedData, MotorAngles, MotorDriversDutyCycles, SensorsData};
use crate::stepper::SimulationStepper;

verus! {

/// A rigid-body world that holds one robot on one track.
///
/// Nothing is asked of a world but to be advanced and read: what its sensors
/// show after a tick is for the world alone to say.
pub trait PhysicsWorld {
    /// The pose of the robot's body, as the record of the run keeps it.
    type Pose: Copy;

    /// The angle of a wheel, as the record of the run keeps it.
    type Angle: Copy;

    /// Integrates the world over one tick.
    fn advance(&mut self);

    /// The snapshot of the sensors after the last tick.
    fn sensors(&self) -> SensorsData;

    /// The pose of the robot's body after the last tick.
    fn pose(&self) -> Self::Pose;

    /// The angles of the left and of the right wheel after the last tick.
    fn wheel_angles(&self) -> (Self::Angle, Self::Angle);

    /// Hands the duty cycles to the motor drivers.
    fn set_motors(&mut self, duty_cycles: MotorDriversDutyCycles);
}

/// A physics world with its clock of ticks, its last snapshot and its record.
pub struct RunnerStepper<W: PhysicsWorld> {
    step_period_us: u32,
    start_time_us: u32,
    world: W,
    sensors_data: SensorsData,
    duty_cycles: MotorDriversDutyCycles,
    data: ExecutionData<W::Pose, W::Angle>,
    current_step: usize,
    current_time_us: u32,
}

impl<W: PhysicsWorld> RunnerStepper<W> {
    /// The snapshot of the sensors taken at the last tick.
    pub closed spec fn snapshot(&self) -> SensorsData {
        self.sensors_data
    }

    /// The timestamps of the run so far.
    pub closed spec fn activity(&self) -> ActivityData {
        self.data.activity_data
    }

    /// The time at which the race starts.
    pub closed spec fn race_start_us(&self) -> int {
        self.start_time_us as int
    }

    /// Number of ticks on record.
    pub open spec fn recorded(&self) -> int {
        self.body_record().len() as int
    }

    /// The body poses on record, one per tick.
    pub closed spec fn body_record(&self) -> Seq<W::Pose> {
        self.data.body_data.steps@
    }

    /// The angles of the left wheel on record, one per tick.
    pub closed spec fn left_wheel_record(&self) -> Seq<W::Angle> {
        self.data.left_wheel_data.steps@
    }

    /// The angles of the right wheel on record, one per tick.
    pub closed spec fn right_wheel_record(&self) -> Seq<W::Angle> {
        self.data.right_wheel_data.steps@
    }

    /// The world.
    pub closed spec fn the_world(&self) -> W {
        self.world
    }

    /// The record holds one sample of each kind per tick recorded.
    pub closed spec fn record_wf(&self) -> bool {
        &&& self.data.left_wheel_data.steps@.len() == self.data.body_data.steps@.len()
        &&& self.data.right_wheel_data.steps@.len() == self.data.body_data.steps@.len()
        &&& self.data.left_wheel_data.side == WheelDataSide::Left
        &&& self.data.right_wheel_data.side == WheelDataSide::Right
        &&& self.data.body_data.period == self.step_period_us
        &&& self.data.left_wheel_data.period == self.step_period_us
        &&& self.data.right_wheel_data.period == self.step_period_us
    }

    /// A stepper at time zero over `world`, with ticks of `step_period_us`
    /// and a race that starts at `start_time_us`.
    pub fn new(world: W, step_period_us: u32, start_time_us: u32) -> (r: Self)
        requires
            step_period_us > 0,
        ensures
            r.inv(),
            r.period_us() == step_period_us,
            r.race_start_us() == start_time_us,
            r.time_us() == 0,
            r.ticks() == 0,
            r.recorded() == 0,
            r.activity() == (ActivityData {
                start_time_us: None,
                out_time_us: None,
                end_time_us: None,
            }),
            r.active(),
            r.duty_cycles() == (MotorDriversDutyCycles { left: 0, right: 0 }),
    {
        RunnerStepper {
            step_period_us,
            start_time_us,
            world,
            sensors_data: SensorsData::default(),
            duty_cycles: MotorDriversDutyCycles { left: 0, right: 0 },
            data: ExecutionData::empty(step_period_us),
            current_step: 0,
            current_time_us: 0,
        }
    }

    /// The snapshot of the sensors taken at the last tick.
    pub fn sensors_data(&self) -> (r: &SensorsData)
        ensures
            *r == self.snapshot(),
    {
        &self.sensors_data
    }

    /// The timestamps of the run so far.
    pub fn activity_data(&self) -> (r: ActivityData)
        ensures
            r == self.activity(),
    {
        self.data.activity_data
    }

    /// The world.
    pub fn world(&self) -> (r: &W)
        ensures
            *r == self.the_world(),
    {
        &self.world
    }

    /// One tick: the world is advanced, its sensors are read, the activity
    /// of the robot is brought up to the time reached, and the pose and the
    /// wheel angles are added to the record.
    pub fn tick(&mut self)
        requires
            old(self).inv(),
            old(self).time_us() + old(self).period_us() <= u32::MAX,
        ensures
            final(self).inv(),
            final(self).period_us() == old(self).period_us(),
            final(self).race_start_us() == old(self).race_start_us(),
            final(self).time_us() == old(self).time_us() + old(self).period_us(),
            final(self).ticks() == old(self).ticks() + 1,
            final(self).duty_cycles() == old(self).duty_cycles(),
            final(self).body_record().len() == old(self).body_record().len() + 1,
            final(self).body_record().drop_last() == old(self).body_record(),
            final(self).left_wheel_record().len() == old(self).body_record().len() + 1,
            final(self).left_wheel_record().drop_last() == old(self).left_wheel_record(),
            final(self).right_wheel_record().len() == old(self).body_record().len() + 1,
            final(self).right_wheel_record().drop_last() == old(self).right_wheel_record(),
            final(self).activity() == after_tick(
                old(self).activity(),
                final(self).time_us() as u32,
                old(self).race_start_us() as u32,
                final(self).snapshot().is_out_of_track,
                final(self).snapshot().is_over_track_end,
            ),
    {
        proof {
            self.lemma_inv();
            assert((self.ticks() + 1) * self.period_us() == self.ticks() * self.period_us()
                + self.period_us()) by (nonlinear_arith);
        }
        self.world.advance();
        self.sensors_data = self.world.sensors();
        let next_time_us: u32 = self.current_time_us + self.step_period_us;
        self.data.activity_data.update(
            next_time_us,
            self.start_time_us,
            self.sensors_data.is_out_of_track,
            self.sensors_data.is_over_track_end,
        );
        let pose = self.world.pose();
        let (left, right) = self.world.wheel_angles();
        self.data.record_tick(pose, left, right);
        self.current_step += 1;
        self.current_time_us = next_time_us;
    }

    /// Get the collected execution data: the samples recorded since the
    /// last call, and the timestamps of the run so far. The record starts
    /// anew.
    pub fn get_data(&mut self) -> (r: ExecutionData<W::Pose, W::Angle>)
        requires
            old(self).inv(),
        ensures
            final(self).inv(),
            final(self).period_us() == old(self).period_us(),
            final(self).race_start_us() == old(self).race_start_us(),
            final(self).time_us() == old(self).time_us(),
            final(self).ticks() == old(self).ticks(),
            final(self).duty_cycles() == old(self).duty_cycles(),
            final(self).snapshot() == old(self).snapshot(),
            final(self).activity() == old(self).activity(),
            final(self).the_world() == old(self).the_world(),
            final(self).body_record().len() == 0,
            final(self).left_wheel_record().len() == 0,
            final(self).right_wheel_record().len() == 0,
            r.activity_data == old(self).activity(),
            r.body_data.steps@ == old(self).body_record(),
            r.left_wheel_data.steps@ == old(self).left_wheel_record(),
            r.right_wheel_data.steps@ == old(self).right_wheel_record(),
            r.body_data.period == old(self).period_us(),
            r.left_wheel_data.period == old(self).period_us(),
            r.right_wheel_data.period == old(self).period_us(),
            r.left_wheel_data.side == WheelDataSide::Left,
            r.right_wheel_data.side == WheelDataSide::Right,
    {
        let mut data: ExecutionData<W::Pose, W::Angle> = ExecutionData::empty(self.step_period_us);
        data.activity_data = self.data.activity_data;
        std::mem::swap(&mut self.data, &mut data);
        data
    }
}

impl<W: PhysicsWorld> SimulationStepper for RunnerStepper<W> {
    closed spec fn inv(&self) -> bool {
        &&& self.period_us() > 0
        &&& self.time_us() == self.ticks() * self.period_us()
        &&& self.record_wf()
    }

    closed spec fn period_us(&self) -> int {
        self.step_period_us as int
    }

    closed spec fn time_us(&self) -> int {
        self.current_time_us as int
    }

    closed spec fn ticks(&self) -> int {
        self.current_step as int
    }

    closed spec fn line_left(&self) -> Seq<u8> {
        self.sensors_data.line_sensors@.subrange(0, 8)
    }

    closed spec fn line_right(&self) -> Seq<u8> {
        self.sensors_data.line_sensors@.subrange(8, 16)
    }

    closed spec fn angles(&self) -> MotorAngles {
        self.sensors_data.motor_angles
    }

    closed spec fn gyro(&self) -> GyroData {
        self.sensors_data.gyro
    }

    closed spec fn imu(&self) -> ImuFusedData {
        self.sensors_data.imu_fused
    }

    /// The `enabled` signal is on while the robot waits for the start.
    closed spec fn active(&self) -> bool {
        self.data.activity_data.start_time_us is None && self.data.activity_data.out_time_us
            is None && self.data.activity_data.end_time_us is None
    }

    closed spec fn duty_cycles(&self) -> MotorDriversDutyCycles {
        self.duty_cycles
    }

    proof fn lemma_inv(&self) {
        assert(self.ticks() <= self.ticks() * self.period_us()) by (nonlinear_arith)
            requires
                0 <= self.ticks(),
                0 < self.period_us(),
        ;
        assert(self.line_left().len() == 8);
        assert(self.line_right().len() == 8);
    }

    fn step_us(&self) -> (r: u32) {
        self.step_period_us
    }

    fn step(&mut self) {
        self.tick();
    }

    fn get_time_us(&self) -> (r: u32) {
        self.current_time_us
    }

    fn get_step_count(&self) -> (r: usize) {
        self.current_step
    }

    fn get_line_sensors_left(&self) -> (r: [u8; 8]) {
        let s = &self.sensors_data.line_sensors;
        let r: [u8; 8] = [s[0], s[1], s[2], s[3], s[4], s[5], s[6], s[7]];
        r
    }

    fn get_line_sensors_right(&self) -> (r: [u8; 8]) {
        let s = &self.sensors_data.line_sensors;
        let r: [u8; 8] = [s[8], s[9], s[10], s[11], s[12], s[13], s[14], s[15]];
        r
    }

    fn get_motor_angles(&self) -> (r: MotorAngles) {
        self.sensors_data.motor_angles
    }

    fn get_gyro(&self) -> (r: GyroData) {
        self.sensors_data.gyro
    }

    fn get_imu_fused_data(&self) -> (r: ImuFusedData) {
        self.sensors_data.imu_fused
    }

    fn set_motor_drivers_duty_cycles(&mut self, duty_cycles: MotorDriversDutyCycles) {
        self.world.set_motors(duty_cycles);
        self.duty_cycles = duty_cycles;
    }

    fn is_active(&self) -> (r: bool) {
        self.data.activity_data.is_active_now()
    }
}

} // verus!
