//! What the host keeps of a device operation: its kind, when it becomes
//! ready, and the value it yields.

use vstd::prelude::*;
use crate::clock::TimeUs;
use crate::device_value::{put_u16, put_u32, put_u8, zero_bytes, DeviceValueRaw};
use crate::devices::DeviceOperation;
use crate::stepper::{next_tick_at_or_after, SimulationStepper};

verus! {

/// The kind of an operation, without its arguments.
#[derive(Clone, Copy, Debug, PartialEq, Eq, Structural)]
pub enum FutureOperation {
    ReadLineLeft,
    ReadLineRight,
    ReadMotorAngles,
    ReadGyro,
    ReadImuFusedData,
    GetTime,
    GetPeriod,
    Sleep,
    GetEnabled,
    WaitEnabled,
    WaitDisabled,
}

/// The kind of `operation`; both sleeps are of one kind.
pub open spec fn kind_of(operation: DeviceOperation) -> FutureOperation {
    match operation {
        DeviceOperation::ReadLineLeft => FutureOperation::ReadLineLeft,
        DeviceOperation::ReadLineRight => FutureOperation::ReadLineRight,
        DeviceOperation::ReadMotorAngles => FutureOperation::ReadMotorAngles,
        DeviceOperation::ReadGyro => FutureOperation::ReadGyro,
        DeviceOperation::ReadImuFusedData => FutureOperation::ReadImuFusedData,
        DeviceOperation::GetTime => FutureOperation::GetTime,
        DeviceOperation::GetPeriod => FutureOperation::GetPeriod,
        DeviceOperation::SleepFor(_) => FutureOperation::Sleep,
        DeviceOperation::SleepUntil(_) => FutureOperation::Sleep,
        DeviceOperation::GetEnabled => FutureOperation::GetEnabled,
        DeviceOperation::WaitEnabled => FutureOperation::WaitEnabled,
        DeviceOperation::WaitDisabled => FutureOperation::WaitDisabled,
    }
}

impl From<DeviceOperation> for FutureOperation {
    fn from(value: DeviceOperation) -> (r: FutureOperation) {
        match value {
            DeviceOperation::ReadLineLeft => FutureOperation::ReadLineLeft,
            DeviceOperation::ReadLineRight => FutureOperation::ReadLineRight,
            DeviceOperation::ReadMotorAngles => FutureOperation::ReadMotorAngles,
            DeviceOperation::ReadGyro => FutureOperation::ReadGyro,
            DeviceOperation::ReadImuFusedData => FutureOperation::ReadImuFusedData,
            DeviceOperation::GetTime => FutureOperation::GetTime,
            DeviceOperation::GetPeriod => FutureOperation::GetPeriod,
            DeviceOperation::SleepFor(_) => FutureOperation::Sleep,
            DeviceOperation::SleepUntil(_) => FutureOperation::Sleep,
            DeviceOperation::GetEnabled => FutureOperation::GetEnabled,
            DeviceOperation::WaitEnabled => FutureOperation::WaitEnabled,
            DeviceOperation::WaitDisabled => FutureOperation::WaitDisabled,
        }
    }
}

impl vstd::std_specs::convert::FromSpecImpl<DeviceOperation> for FutureOperation {
    open spec fn obeys_from_spec() -> bool {
        true
    }

    open spec fn from_spec(value: DeviceOperation) -> FutureOperation {
        kind_of(value)
    }
}

/// The payload that an operation of kind `operation` yields when it is
/// served at `time` from the snapshot that `stepper` holds.
pub open spec fn value_bytes<S: SimulationStepper>(
    operation: FutureOperation,
    stepper: &S,
    time: TimeUs,
) -> Seq<u8> {
    match operation {
        FutureOperation::ReadLineLeft => stepper.line_left(),
        FutureOperation::ReadLineRight => stepper.line_right(),
        FutureOperation::ReadMotorAngles => put_u16(
            put_u16(zero_bytes(), 0, stepper.angles().left as int),
            1,
            stepper.angles().right as int,
        ),
        FutureOperation::ReadGyro => put_u16(
            put_u16(
                put_u16(zero_bytes(), 0, stepper.gyro().roll_angular_speed as int),
                1,
                stepper.gyro().pitch_angular_speed as int,
            ),
            2,
            stepper.gyro().yaw_angular_speed as int,
        ),
        FutureOperation::ReadImuFusedData => put_u16(
            put_u16(put_u16(zero_bytes(), 0, stepper.imu().roll as int), 1, stepper.imu().pitch as int),
            2,
            stepper.imu().yaw as int,
        ),
        FutureOperation::GetTime => put_u32(zero_bytes(), 0, time as int),
        FutureOperation::GetPeriod => put_u32(
            put_u32(zero_bytes(), 0, stepper.period_us()),
            1,
            stepper.ticks(),
        ),
        FutureOperation::Sleep => zero_bytes(),
        FutureOperation::GetEnabled => put_u8(
            zero_bytes(),
            0,
            if stepper.active() {
                1u8
            } else {
                0u8
            },
        ),
        FutureOperation::WaitEnabled => zero_bytes(),
        FutureOperation::WaitDisabled => zero_bytes(),
    }
}

impl FutureOperation {
    /// Builds the payload of this kind of operation from the stepper's
    /// snapshot; `current_time` is what a time read reports.
    pub fn compute_value<S: SimulationStepper>(&self, stepper: &S, current_time: TimeUs) -> (r:
        DeviceValueRaw)
        requires
            stepper.inv(),
        ensures
            r@ == value_bytes(*self, stepper, current_time),
            r == DeviceValueRaw::of_bytes(value_bytes(*self, stepper, current_time)),
    {
        proof {
            stepper.lemma_inv();
        }
        let r = match self {
            FutureOperation::ReadLineLeft => {
                DeviceValueRaw::from_sensor_values(stepper.get_line_sensors_left())
            },
            FutureOperation::ReadLineRight => {
                DeviceValueRaw::from_sensor_values(stepper.get_line_sensors_right())
            },
            FutureOperation::ReadMotorAngles => {
                DeviceValueRaw::from_motor_angles(stepper.get_motor_angles())
            },
            FutureOperation::ReadGyro => DeviceValueRaw::from_gyro_data(stepper.get_gyro()),
            FutureOperation::ReadImuFusedData => {
                DeviceValueRaw::from_imu_fused_data(stepper.get_imu_fused_data())
            },
            FutureOperation::GetTime => DeviceValueRaw::zero().with_u32(0, current_time),
            FutureOperation::GetPeriod => {
                let ticks: usize = stepper.get_step_count();
                DeviceValueRaw::zero().with_u32(0, stepper.step_us()).with_u32(1, ticks as u32)
            },
            FutureOperation::Sleep => DeviceValueRaw::zero(),
            FutureOperation::GetEnabled => {
                DeviceValueRaw::zero().with_u8(
                    0,
                    if stepper.is_active() {
                        1
                    } else {
                        0
                    },
                )
            },
            FutureOperation::WaitEnabled => DeviceValueRaw::zero(),
            FutureOperation::WaitDisabled => DeviceValueRaw::zero(),
        };
        proof {
            r.lemma_of_bytes();
        }
        r
    }
}

/// The condition under which the value of an operation becomes available.
#[derive(Clone, Copy, Debug, PartialEq, Eq, Structural)]
pub enum FutureReadyCondition {
    /// Ready once the given time is reached.
    ReadyAt(TimeUs),
    /// Ready once the `enabled` signal is on.
    IsActive,
    /// Ready once the `enabled` signal is off.
    IsInactive,
}

impl FutureReadyCondition {
    pub fn is_time_based(&self) -> (r: bool)
        ensures
            r == (*self is ReadyAt),
    {
        match self {
            FutureReadyCondition::ReadyAt(_) => true,
            FutureReadyCondition::IsActive => false,
            FutureReadyCondition::IsInactive => false,
        }
    }

    pub fn is_activity(&self) -> (r: bool)
        ensures
            r == (*self is IsActive || *self is IsInactive),
    {
        match self {
            FutureReadyCondition::ReadyAt(_) => false,
            FutureReadyCondition::IsActive => true,
            FutureReadyCondition::IsInactive => true,
        }
    }
}

/// The state of a requested value.
#[derive(Clone, Copy, Debug, PartialEq, Eq, Structural)]
pub enum FutureValueStatus {
    /// Not ready yet.
    Pending,
    /// Ready, and not handed to the guest yet.
    Ready(DeviceValueRaw),
    /// Handed to the guest.
    Consumed,
}

/// The time at which `operation`, requested at `now`, becomes ready; for the
/// two waits, which depend on no time, the time of the request.
///
/// Line sensors and motor angles are sampled at every tick, so they are ready
/// at the first tick boundary that is not before `now`. The gyroscope and the
/// fused IMU deliver two and ten ticks after the tick the simulation has
/// reached.
pub open spec fn ready_time(
    operation: DeviceOperation,
    now: int,
    stepper_time: int,
    period: int,
) -> int {
    match operation {
        DeviceOperation::ReadLineLeft
        | DeviceOperation::ReadLineRight
        | DeviceOperation::ReadMotorAngles => next_tick_at_or_after(now, period),
        DeviceOperation::ReadGyro => stepper_time + 2 * period,
        DeviceOperation::ReadImuFusedData => stepper_time + 10 * period,
        DeviceOperation::SleepFor(duration) => now + duration,
        DeviceOperation::SleepUntil(deadline) => if deadline > now {
            deadline as int
        } else {
            now
        },
        DeviceOperation::GetTime
        | DeviceOperation::GetPeriod
        | DeviceOperation::GetEnabled
        | DeviceOperation::WaitEnabled
        | DeviceOperation::WaitDisabled => now,
    }
}

/// The readiness condition of `operation` when it is requested at `now`.
pub open spec fn readiness(
    operation: DeviceOperation,
    now: int,
    stepper_time: int,
    period: int,
) -> FutureReadyCondition {
    match operation {
        DeviceOperation::WaitEnabled => FutureReadyCondition::IsActive,
        DeviceOperation::WaitDisabled => FutureReadyCondition::IsInactive,
        _ => FutureReadyCondition::ReadyAt(ready_time(operation, now, stepper_time, period) as u32),
    }
}

/// How long `operation`, requested at `now`, asks the guest to sleep.
pub open spec fn sleep_duration(operation: DeviceOperation, now: int) -> int {
    match operation {
        DeviceOperation::SleepFor(duration) => duration as int,
        DeviceOperation::SleepUntil(deadline) => if deadline > now {
            deadline - now
        } else {
            0
        },
        _ => 0,
    }
}

/// Scheduling of a device operation.
pub trait DeviceOperationExt: Sized {
    /// The operation itself, for contracts.
    spec fn operation(&self) -> DeviceOperation;

    /// Whether the time at which the operation becomes ready can be
    /// represented; a time that cannot lies past the end of every run.
    fn ready_time_fits<S: SimulationStepper>(&self, current_time: TimeUs, stepper: &S) -> (r: bool)
        requires
            stepper.inv(),
        ensures
            r == (ready_time(
                self.operation(),
                current_time as int,
                stepper.time_us(),
                stepper.period_us(),
            ) <= u32::MAX),
    ;

    fn ready_condition<S: SimulationStepper>(&self, current_time: TimeUs, stepper: &S) -> (r:
        FutureReadyCondition)
        requires
            stepper.inv(),
            ready_time(self.operation(), current_time as int, stepper.time_us(), stepper.period_us())
                <= u32::MAX,
        ensures
            r == readiness(
                self.operation(),
                current_time as int,
                stepper.time_us(),
                stepper.period_us(),
            ),
    ;

    fn duration(&self, current_time: TimeUs) -> (r: TimeUs)
        ensures
            r == sleep_duration(self.operation(), current_time as int),
    ;
}

impl DeviceOperationExt for DeviceOperation {
    open spec fn operation(&self) -> DeviceOperation {
        *self
    }

    fn ready_time_fits<S: SimulationStepper>(&self, current_time: TimeUs, stepper: &S) -> (r:
        bool) {
        proof {
            stepper.lemma_inv();
        }
        let limit: u64 = u32::MAX as u64;
        let period: u64 = stepper.step_us() as u64;
        match *self {
            DeviceOperation::ReadLineLeft
            | DeviceOperation::ReadLineRight
            | DeviceOperation::ReadMotorAngles => {
                let now: u64 = current_time as u64;
                let stray_time: u64 = now % period;
                assert(stray_time <= now) by (nonlinear_arith)
                    requires
                        stray_time == now % period,
                        0 < period,
                ;
                stray_time == 0 || now - stray_time + period <= limit
            },
            DeviceOperation::ReadGyro => stepper.get_time_us() as u64 + 2 * period <= limit,
            DeviceOperation::ReadImuFusedData => stepper.get_time_us() as u64 + 10 * period
                <= limit,
            DeviceOperation::SleepFor(duration) => current_time as u64 + duration as u64
                <= limit,
            DeviceOperation::SleepUntil(_)
            | DeviceOperation::GetTime
            | DeviceOperation::GetPeriod
            | DeviceOperation::GetEnabled
            | DeviceOperation::WaitEnabled
            | DeviceOperation::WaitDisabled => true,
        }
    }

    fn ready_condition<S: SimulationStepper>(&self, current_time: TimeUs, stepper: &S) -> (r:
        FutureReadyCondition) {
        match *self {
            DeviceOperation::ReadLineLeft
            | DeviceOperation::ReadLineRight
            | DeviceOperation::ReadMotorAngles => {
                FutureReadyCondition::ReadyAt(stepper.get_time_us_at_next_step_after(current_time))
            },
            DeviceOperation::ReadGyro => {
                FutureReadyCondition::ReadyAt(stepper.get_time_after_steps_us(2))
            },
            DeviceOperation::ReadImuFusedData => {
                FutureReadyCondition::ReadyAt(stepper.get_time_after_steps_us(10))
            },
            DeviceOperation::SleepFor(duration) => {
                FutureReadyCondition::ReadyAt(current_time + duration)
            },
            DeviceOperation::SleepUntil(deadline) => {
                FutureReadyCondition::ReadyAt(
                    if deadline > current_time {
                        deadline
                    } else {
                        current_time
                    },
                )
            },
            DeviceOperation::GetTime | DeviceOperation::GetPeriod | DeviceOperation::GetEnabled => {
                FutureReadyCondition::ReadyAt(current_time)
            },
            DeviceOperation::WaitEnabled => FutureReadyCondition::IsActive,
            DeviceOperation::WaitDisabled => FutureReadyCondition::IsInactive,
        }
    }

    fn duration(&self, current_time: TimeUs) -> (r: TimeUs) {
        match *self {
            DeviceOperation::ReadLineLeft
            | DeviceOperation::ReadLineRight
            | DeviceOperation::ReadMotorAngles
            | DeviceOperation::ReadGyro
            | DeviceOperation::ReadImuFusedData
            | DeviceOperation::GetTime
            | DeviceOperation::GetPeriod
            | DeviceOperation::GetEnabled
            | DeviceOperation::WaitEnabled
            | DeviceOperation::WaitDisabled => 0,
            DeviceOperation::SleepFor(duration) => duration,
            DeviceOperation::SleepUntil(deadline) => {
                if deadline > current_time {
                    deadline - current_time
                } else {
                    0
                }
            },
        }
    }
}

} // verus!
