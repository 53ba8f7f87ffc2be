//! The guest's view of the devices: the request that each call sends, and
//! what it makes of the value that comes back.

use vstd::prelude::*;
use crate::bytes::{signed16};
use crate::csv::{CsvColumn, NamedValue, ValueKind};
use crate::device_value::{lane_u16, lane_u32, lane_u8, DeviceValue, DeviceValueExt};
use crate::devices::DeviceOperation;

verus! {

/// The values of all line sensors: the eight of the left bank, read from
/// `l`, then the eight of the right bank, read from `r`.
pub fn get_line_sensors(l: DeviceValue, r: DeviceValue) -> (result: [u8; 16])
    ensures
        forall|i: int| 0 <= i < 8 ==> result@[i] == l@[i],
        forall|i: int| 8 <= i < 16 ==> result@[i] == r@[i - 8],
{
    let mut result: [u8; 16] = [0;16];
    let mut i: usize = 0;
    while i < 8
        invariant
            i <= 8,
            forall|j: int| 0 <= j < i ==> result@[j] == l@[j],
            forall|j: int| 8 <= j < 8 + i ==> result@[j] == r@[j - 8],
        decreases 8 - i,
    {
        result[i] = l.get_u8(i);
        result[i + 8] = r.get_u8(i);
        i += 1;
    }
    result
}

/// The motor angles held by `values`: left in the first 16-bit lane, right
/// in the second.
pub fn get_motor_angles(values: DeviceValue) -> (r: (u16, u16))
    ensures
        r.0 == lane_u16(values@, 0),
        r.1 == lane_u16(values@, 1),
{
    let left: u16 = values.get_u16(0);
    let right: u16 = values.get_u16(1);
    (left, right)
}

/// The gyroscope sample held by `values`: the first three signed 16-bit lanes.
pub fn read_gyro(values: DeviceValue) -> (r: (i16, i16, i16))
    ensures
        r.0 == signed16(lane_u16(values@, 0)),
        r.1 == signed16(lane_u16(values@, 1)),
        r.2 == signed16(lane_u16(values@, 2)),
{
    let pitch: i16 = values.get_i16(0);
    let roll: i16 = values.get_i16(1);
    let yaw: i16 = values.get_i16(2);
    (pitch, roll, yaw)
}

/// The fused IMU sample held by `values`: the first three signed 16-bit lanes.
pub fn get_imu_fused_data(values: DeviceValue) -> (r: (i16, i16, i16))
    ensures
        r.0 == signed16(lane_u16(values@, 0)),
        r.1 == signed16(lane_u16(values@, 1)),
        r.2 == signed16(lane_u16(values@, 2)),
{
    let pitch: i16 = values.get_i16(0);
    let roll: i16 = values.get_i16(1);
    let yaw: i16 = values.get_i16(2);
    (pitch, roll, yaw)
}

/// The time in microseconds held by `value`: its first 32-bit lane.
pub fn get_time_us(value: DeviceValue) -> (r: u32)
    ensures
        r == lane_u32(value@, 0),
{
    value.get_u32(0)
}

/// The request that sleeps for `time_us` microseconds.
pub fn sleep_for(time_us: u32) -> (r: DeviceOperation)
    ensures
        r == DeviceOperation::SleepFor(time_us),
{
    DeviceOperation::SleepFor(time_us)
}

/// The request that sleeps until the time `time_us`.
pub fn sleep_until(time_us: u32) -> (r: DeviceOperation)
    ensures
        r == DeviceOperation::SleepUntil(time_us),
{
    DeviceOperation::SleepUntil(time_us)
}

/// Whether `value`, the answer to a read of the `enabled` signal, says that
/// the remote is enabled: its first byte is not zero.
pub fn remote_enabled(value: DeviceValue) -> (r: bool)
    ensures
        r == (lane_u8(value@, 0) != 0),
{
    value.get_u8(0) != 0
}

/// The request that waits for the remote to be enabled.
pub fn wait_remote_enabled() -> (r: DeviceOperation)
    ensures
        r == DeviceOperation::WaitEnabled,
{
    DeviceOperation::WaitEnabled
}

/// The request that waits for the remote to be disabled.
pub fn wait_remote_disabled() -> (r: DeviceOperation)
    ensures
        r == DeviceOperation::WaitDisabled,
{
    DeviceOperation::WaitDisabled
}

/// Column kind: one byte, signed.
pub const C_I8: ValueKind = ValueKind::Int8;

/// Column kind: two bytes, signed.
pub const C_I16: ValueKind = ValueKind::Int16;

/// Column kind: four bytes, signed.
pub const C_I32: ValueKind = ValueKind::Int32;

/// Column kind: one byte, unsigned.
pub const C_U8: ValueKind = ValueKind::Uint8;

/// Column kind: two bytes, unsigned.
pub const C_U16: ValueKind = ValueKind::Uint16;

/// Column kind: four bytes, unsigned.
pub const C_U32: ValueKind = ValueKind::Uint32;

/// Column kind: one byte of padding.
pub const PAD_8: ValueKind = ValueKind::Pad8;

/// Column kind: two bytes of padding.
pub const PAD_16: ValueKind = ValueKind::Pad16;

/// A name for the value `value` of a named column.
pub fn nv(name: &str, value: i32) -> (r: NamedValue)
    ensures
        r.name@ == name@,
        r.value == value,
{
    NamedValue { name: name.to_owned(), value }
}

/// A column kind that shows each of `values` by its name.
pub fn named(values: Vec<NamedValue>) -> (r: ValueKind)
    ensures
        r == ValueKind::Named(values),
{
    ValueKind::Named(values)
}

/// The column called `name` of kind `kind`.
pub fn col(name: &str, kind: ValueKind) -> (r: CsvColumn)
    ensures
        r.name@ == name@,
        r.kind == kind,
{
    CsvColumn { name: name.to_owned(), kind }
}

} // verus!
