//! The request side of the device interface that the guest imports.

use vstd::prelude::*;
use crate::clock::TimeUs;
use crate::device_value::DeviceValue;

verus! {

/// The PWM duty cycle associated with the power of one motor driver.
pub type MotorPower = i16;

/// A handle to a future value.
#[derive(Clone, Copy, Debug, PartialEq, Eq, Structural)]
pub struct FutureHandle {
    /// Unique handle identifier.
    pub id: u32,
    /// The time when the future will be ready.
    pub ready_at: TimeUs,
}

/// The set of all possible device operations.
#[derive(Clone, Copy, Debug, PartialEq, Eq, Structural)]
pub enum DeviceOperation {
    /// Read left bank of line sensors (8 u8 values), ready every period.
    ReadLineLeft,
    /// Read right bank of line sensors (8 u8 values), ready every period.
    ReadLineRight,
    /// Read angle position of motors (2 u16 values), ready every period.
    ReadMotorAngles,
    /// Read gyroscope (3 i16 values: roll, pitch and yaw angular velocity),
    /// ready every 2 periods.
    ReadGyro,
    /// Read IMU fused data (3 i16 values: roll, pitch and yaw angles),
    /// ready every 10 periods.
    ReadImuFusedData,
    /// Get time elapsed since initialization in microseconds (1 u32 value).
    GetTime,
    /// Get the simulation period in microseconds (1 u32 value) and the number
    /// of periods computed so far (another u32 value).
    GetPeriod,
    /// Sleep for the provided duration (in microseconds, no output).
    SleepFor(TimeUs),
    /// Sleep until the provided time instant (in microseconds, no output).
    SleepUntil(TimeUs),
    /// Get the status of the `enabled` signal (1 u8 value, 0 or 1).
    GetEnabled,
    /// Wait until the status of the `enabled` signal is 1.
    WaitEnabled,
    /// Wait until the status of the `enabled` signal is 0.
    WaitDisabled,
}

/// The resulting status of a poll operation.
#[derive(Clone, Copy, Debug, PartialEq, Eq, Structural)]
pub enum PollOperationStatus {
    /// The operation is pending (the value is not ready).
    Pending,
    /// The operation has completed and produced the provided value.
    Ready(DeviceValue),
}

/// Errors that can happen when polling devices asynchronously.
#[derive(Clone, Copy, Debug, PartialEq, Eq, Structural)]
pub enum PollError {
    /// The provided handle is not valid (this handle has never been created).
    InvalidHandle,
    /// The provided handle has already been consumed.
    ConsumedHandle,
    /// The provided handle is too old and its value has been lost.
    ExpiredHandle,
}

impl PollError {
    pub fn name(&self) -> (r: &'static str)
        ensures
            r@ == match *self {
                PollError::InvalidHandle => "invalid-handle"@,
                PollError::ConsumedHandle => "consumed-handle"@,
                PollError::ExpiredHandle => "expired-handle"@,
            },
    {
        match self {
            PollError::InvalidHandle => "invalid-handle",
            PollError::ConsumedHandle => "consumed-handle",
            PollError::ExpiredHandle => "expired-handle",
        }
    }
}

} // verus!
