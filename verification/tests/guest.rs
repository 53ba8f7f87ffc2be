use line_follower_sim::async_framework::{
    ChannelFuture, FilteredValue, FutureHandleExt, MappedValue, ValueWatcher,
};
use line_follower_sim::blocking_api::{
    get_imu_fused_data, get_line_sensors, get_motor_angles, get_time_us, read_gyro,
    remote_enabled, sleep_for, sleep_until, wait_remote_disabled, wait_remote_enabled,
};
use line_follower_sim::device_value::{DeviceValue, DeviceValueRaw};
use line_follower_sim::devices::{DeviceOperation, FutureHandle, PollError, PollOperationStatus};
use line_follower_sim::mock_stepper::MockStepper;
use line_follower_sim::recorder::{
    frame_index, BodyExecutionData, ExecutionData, WheelDataSide, WheelExecutionData,
};
use line_follower_sim::robot::{Color, TrackId};
use line_follower_sim::runner::{PhysicsWorld, RunnerStepper};
use line_follower_sim::sensors::{
    majority_off_track, saturate_pwm, BotPosition, GyroData, ImuFusedData, MotorAngles,
    MotorDriversDutyCycles, SensorsData, Side, PWM_MAX, PWM_MIN,
};
use line_follower_sim::stepper::SimulationStepper;

fn value(bytes: [u8; 8]) -> DeviceValue {
    DeviceValueRaw::from_sensor_values(bytes).into_value()
}

#[test]
fn line_sensors_join_both_banks() {
    let l = value([1, 2, 3, 4, 5, 6, 7, 8]);
    let r = value([11, 12, 13, 14, 15, 16, 17, 18]);
    assert_eq!(
        get_line_sensors(l, r),
        [1, 2, 3, 4, 5, 6, 7, 8, 11, 12, 13, 14, 15, 16, 17, 18]
    );
}

#[test]
fn decoders_read_their_lanes() {
    let v = value([0x34, 0x12, 0xFF, 0xFF, 0x00, 0x80, 9, 9]);
    assert_eq!(get_motor_angles(v), (0x1234, 0xFFFF));
    assert_eq!(read_gyro(v), (0x1234, -1, i16::MIN));
    assert_eq!(get_imu_fused_data(v), (0x1234, -1, i16::MIN));
    assert_eq!(get_time_us(v), 0xFFFF_1234);
    assert!(remote_enabled(v));
    assert!(!remote_enabled(value([0, 1, 1, 1, 1, 1, 1, 1])));
}

#[test]
fn requests() {
    assert_eq!(sleep_for(5), DeviceOperation::SleepFor(5));
    assert_eq!(sleep_until(5), DeviceOperation::SleepUntil(5));
    assert_eq!(wait_remote_enabled(), DeviceOperation::WaitEnabled);
    assert_eq!(wait_remote_disabled(), DeviceOperation::WaitDisabled);
}

#[test]
fn future_value_resolves_by_the_poll_answer() {
    let handle = FutureHandle { id: 4, ready_at: 90 };
    let future = handle.into_future();
    assert_eq!(future.get_handle(), handle);
    let v = value([1, 0, 0, 0, 0, 0, 0, 0]);
    assert_eq!(future.resolve(Ok(PollOperationStatus::Pending)), None);
    assert_eq!(future.resolve(Ok(PollOperationStatus::Ready(v))), Some(Ok(v)));
    assert_eq!(
        future.resolve(Err(PollError::ConsumedHandle)),
        Some(Err(PollError::ConsumedHandle))
    );
}

#[test]
fn watcher_keeps_the_latest_value() {
    let mut watcher = ValueWatcher::new(0u32);
    assert_eq!(watcher.get(), 0);
    assert_eq!(watcher.update_count(), 0);
    let next = watcher.next();
    assert_eq!(next.poll(&watcher), None);
    watcher.update(5);
    watcher.update(6);
    assert_eq!(watcher.get(), 6);
    assert_eq!(watcher.update_count(), 2);
    assert_eq!(next.poll(&watcher), Some(6));
}

#[test]
fn stream_hands_out_each_update_once() {
    let mut watcher = ValueWatcher::new(0u32);
    let mut stream = watcher.stream();
    let first = stream.next(&watcher);
    assert_eq!(first.poll(&watcher), Some(0));
    let second = stream.next(&watcher);
    assert_eq!(second.poll(&watcher), None);
    watcher.update(7);
    assert_eq!(second.poll(&watcher), Some(7));
    watcher.update(8);
    watcher.update(9);
    let third = stream.next(&watcher);
    assert_eq!(third.poll(&watcher), Some(9));
    let fourth = stream.next(&watcher);
    assert_eq!(fourth.poll(&watcher), None);
}

#[test]
fn mapped_and_filtered_futures() {
    let mut watcher = ValueWatcher::new(1u32);
    let double = |x: u32| x * 2;
    let even = |x: &u32| *x % 2 == 0;
    let big = |x: &u32| *x > 100;
    let mapped = watcher.next().map(&double);
    let filtered = watcher.next().filter(&even);
    let chained = watcher.next().filter(&even).map(&double);
    let rechained = watcher.next().map(&double).filter(&big);
    assert_eq!(mapped.poll(&watcher), None);
    assert_eq!(filtered.poll(&watcher), None);
    watcher.update(7);
    assert_eq!(mapped.poll(&watcher), Some(14));
    assert_eq!(filtered.poll(&watcher), None);
    assert_eq!(chained.poll(&watcher), None);
    assert_eq!(rechained.poll(&watcher), None);
    watcher.update(60);
    assert_eq!(mapped.poll(&watcher), Some(120));
    assert_eq!(filtered.poll(&watcher), Some(60));
    assert_eq!(chained.poll(&watcher), Some(120));
    assert_eq!(rechained.poll(&watcher), Some(120));
    let made = MappedValue::new(FilteredValue::new(watcher.next(), &even), &double);
    assert_eq!(made.poll(&watcher), None);
    watcher.update(8);
    assert_eq!(made.poll(&watcher), Some(16));
}

#[test]
fn frames_are_found_by_time() {
    assert_eq!(frame_index(500, 10, 0), 0);
    assert_eq!(frame_index(500, 10, 499), 0);
    assert_eq!(frame_index(500, 10, 500), 1);
    assert_eq!(frame_index(500, 10, 4_999), 9);
    assert_eq!(frame_index(500, 10, 5_000), 9);
    assert_eq!(frame_index(500, 10, u64::MAX), 9);
    assert_eq!(frame_index(1, 1, 77), 0);
}

#[test]
fn records_return_the_sample_of_the_frame() {
    let mut body: BodyExecutionData<char> = BodyExecutionData::empty(500);
    assert_eq!(body.at_time_us(0), None);
    for c in ['a', 'b', 'c'] {
        body.record(c);
    }
    assert_eq!(body.at_time_us(0), Some('a'));
    assert_eq!(body.at_time_us(999), Some('b'));
    assert_eq!(body.at_time_us(1_000), Some('c'));
    assert_eq!(body.at_time_us(1_000_000), Some('c'));
    let mut wheel: WheelExecutionData<i32> = WheelExecutionData::empty(250, WheelDataSide::Right);
    assert_eq!(wheel.at_time_us(5), None);
    wheel.record(10);
    wheel.record(20);
    assert_eq!(wheel.at_time_us(249), Some(10));
    assert_eq!(wheel.at_time_us(250), Some(20));
    assert_eq!(wheel.side, WheelDataSide::Right);
    assert_eq!(WheelDataSide::Left.label(), "L");
    assert_eq!(WheelDataSide::Right.label(), "R");
}

#[test]
fn execution_data_records_ticks() {
    let mut data: ExecutionData<u8, u16> = ExecutionData::empty(500);
    assert_eq!(data.body_data.period, 500);
    assert_eq!(data.left_wheel_data.side, WheelDataSide::Left);
    assert_eq!(data.right_wheel_data.side, WheelDataSide::Right);
    assert!(data.activity_data.is_active_now());
    data.record_tick(1, 10, 100);
    data.record_tick(2, 20, 200);
    assert_eq!(data.body_data.steps, vec![1, 2]);
    assert_eq!(data.left_wheel_data.steps, vec![10, 20]);
    assert_eq!(data.right_wheel_data.steps, vec![100, 200]);
}

#[test]
fn mock_stepper_turns_its_wheels_once_per_second() {
    let mut stepper = MockStepper::new(250_000);
    assert_eq!(stepper.step_us(), 250_000);
    assert_eq!(stepper.get_time_us(), 0);
    assert_eq!(stepper.get_time_us_at_next_step(), 250_000);
    assert_eq!(stepper.get_time_us_at_next_step_after(1), 250_000);
    assert_eq!(stepper.get_time_us_at_next_step_after(250_000), 250_000);
    assert_eq!(stepper.get_time_after_steps_us(3), 750_000);
    assert_eq!(stepper.get_motor_angles(), MotorAngles { left: 0, right: 0 });
    stepper.step();
    assert_eq!(stepper.get_step_count(), 1);
    assert_eq!(stepper.get_time_us(), 250_000);
    assert_eq!(stepper.get_motor_angles(), MotorAngles { left: 16_383, right: 16_383 });
    stepper.step();
    stepper.step();
    stepper.step();
    stepper.step();
    assert_eq!(stepper.get_motor_angles(), MotorAngles { left: 65_535, right: 65_535 });
    assert_eq!(stepper.get_line_sensors_left(), [0; 8]);
    assert_eq!(stepper.get_line_sensors_right(), [0; 8]);
    assert_eq!(
        stepper.get_gyro(),
        GyroData { roll_angular_speed: 0, pitch_angular_speed: 0, yaw_angular_speed: 0 }
    );
    assert_eq!(stepper.get_imu_fused_data(), ImuFusedData { roll: 0, pitch: 0, yaw: 0 });
    assert!(stepper.is_active());
    stepper.set_motor_drivers_duty_cycles(MotorDriversDutyCycles { left: PWM_MAX, right: PWM_MIN });
    assert_eq!(
        stepper.motor_drivers_duty_cycles(),
        MotorDriversDutyCycles { left: 1000, right: -1000 }
    );
    assert_eq!(MotorDriversDutyCycles::default(), MotorDriversDutyCycles { left: 0, right: 0 });
}

/// A world that goes off the track at one tick and over the end at another.
struct TrackWorld {
    ticks: u32,
    out_at_tick: u32,
    end_at_tick: u32,
    motors: Vec<MotorDriversDutyCycles>,
}

impl PhysicsWorld for TrackWorld {
    type Pose = u32;
    type Angle = i64;

    fn advance(&mut self) {
        self.ticks += 1;
    }

    fn sensors(&self) -> SensorsData {
        let out = self.ticks >= self.out_at_tick;
        let mut data = SensorsData::default();
        data.line_sensors = [if out { 81 } else { 20 }; 16];
        data.is_out_of_track = out;
        data.is_over_track_end = self.ticks >= self.end_at_tick;
        data.bot_position = if out { BotPosition::Out } else { BotPosition::OnTrack };
        data.motor_angles = MotorAngles { left: self.ticks as u16, right: 0 };
        data
    }

    fn pose(&self) -> u32 {
        self.ticks * 10
    }

    fn wheel_angles(&self) -> (i64, i64) {
        (self.ticks as i64, -(self.ticks as i64))
    }

    fn set_motors(&mut self, duty_cycles: MotorDriversDutyCycles) {
        self.motors.push(duty_cycles);
    }
}

fn track_stepper(out_at_tick: u32, end_at_tick: u32) -> RunnerStepper<TrackWorld> {
    let world = TrackWorld { ticks: 0, out_at_tick, end_at_tick, motors: Vec::new() };
    RunnerStepper::new(world, 500, 1_000)
}

#[test]
fn runner_starts_the_race_and_records_every_tick() {
    let mut stepper = track_stepper(u32::MAX, u32::MAX);
    assert!(stepper.is_active());
    assert_eq!(stepper.get_line_sensors_left(), [0; 8]);
    stepper.step();
    assert!(stepper.is_active());
    assert_eq!(stepper.activity_data().start_time_us, None);
    assert_eq!(stepper.get_line_sensors_left(), [20; 8]);
    assert_eq!(stepper.get_line_sensors_right(), [20; 8]);
    stepper.step();
    assert!(!stepper.is_active());
    assert_eq!(stepper.activity_data().start_time_us, Some(1_000));
    assert_eq!(stepper.get_time_us(), 1_000);
    assert_eq!(stepper.get_step_count(), 2);
    assert_eq!(stepper.get_motor_angles().left, 2);
    assert_eq!(stepper.sensors_data().motor_angles.left, 2);
    assert_eq!(stepper.world().ticks, 2);
    let data = stepper.get_data();
    assert_eq!(data.body_data.steps, vec![10, 20]);
    assert_eq!(data.left_wheel_data.steps, vec![1, 2]);
    assert_eq!(data.right_wheel_data.steps, vec![-1, -2]);
    assert_eq!(data.activity_data.start_time_us, Some(1_000));
    stepper.step();
    let data = stepper.get_data();
    assert_eq!(data.body_data.steps, vec![30]);
    assert_eq!(data.body_data.period, 500);
    assert_eq!(stepper.get_time_us(), 1_500);
}

#[test]
fn runner_goes_out_of_track_and_stays_out() {
    let mut stepper = track_stepper(6, 8);
    for _ in 0..20 {
        stepper.step();
    }
    let activity = stepper.activity_data();
    assert_eq!(activity.start_time_us, Some(1_000));
    assert_eq!(activity.out_time_us, Some(3_000));
    assert_eq!(activity.end_time_us, None);
    assert!(stepper.sensors_data().line_sensors.iter().all(|s| *s > 80));
}

#[test]
fn runner_reaches_the_end() {
    let mut stepper = track_stepper(u32::MAX, 9);
    for _ in 0..20 {
        stepper.step();
    }
    let activity = stepper.activity_data();
    assert_eq!(activity.end_time_us, Some(4_500));
    assert_eq!(activity.out_time_us, None);
}

#[test]
fn runner_hands_the_duty_cycles_to_the_world() {
    let mut stepper = track_stepper(u32::MAX, u32::MAX);
    stepper.step();
    stepper.set_motor_drivers_duty_cycles(MotorDriversDutyCycles { left: 3, right: -4 });
    assert_eq!(stepper.world().motors, vec![MotorDriversDutyCycles { left: 3, right: -4 }]);
    assert_eq!(stepper.get_time_us(), 500);
    assert_eq!(stepper.get_line_sensors_left(), [20; 8]);
}

#[test]
fn colors_and_tracks() {
    assert_eq!(Color { r: 255, g: 255, b: 255 }.brightness(), 255);
    assert_eq!(Color { r: 255, g: 0, b: 0 }.brightness(), 85);
    assert!(Color { r: 255, g: 0, b: 0 }.is_dark());
    assert!(!Color { r: 128, g: 128, b: 128 }.is_dark());
    assert!(Color { r: 127, g: 128, b: 128 }.is_dark());
    assert_eq!(TrackId::default(), TrackId::Simple);
    assert_eq!(TrackId::Line.name(), "line");
    assert_eq!(TrackId::Angle.name(), "angle");
    assert_eq!(TrackId::Turn.name(), "turn");
    assert_eq!(TrackId::Simple.name(), "simple");
    assert_eq!(TrackId::Race.name(), "race");
}

#[test]
fn duty_cycles_saturate() {
    assert_eq!(saturate_pwm(0), 0);
    assert_eq!(saturate_pwm(1000), 1000);
    assert_eq!(saturate_pwm(1001), 1000);
    assert_eq!(saturate_pwm(i16::MAX), 1000);
    assert_eq!(saturate_pwm(-1000), -1000);
    assert_eq!(saturate_pwm(-1001), -1000);
    assert_eq!(saturate_pwm(i16::MIN), -1000);
    let duty = MotorDriversDutyCycles { left: 5, right: -6 };
    assert_eq!(duty.get_by_side(Side::Left), 5);
    assert_eq!(duty.get_by_side(Side::Right), -6);
}

#[test]
fn out_of_track_needs_a_majority() {
    let mut off = [false; 16];
    assert!(!majority_off_track(&off));
    for i in 0..8 {
        off[2 * i] = true;
    }
    assert!(!majority_off_track(&off));
    off[1] = true;
    assert!(majority_off_track(&off));
    assert!(majority_off_track(&[true; 16]));
}
