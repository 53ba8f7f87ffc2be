//! The eight-byte payload carried by every device read, and its lane views.
//!
//! A payload can be read as eight `u8` lanes, four 16-bit lanes or two 32-bit
//! lanes; wider lanes combine adjacent bytes in little-endian order.

use vstd::prelude::*;
use crate::sensors::{AccelData, GyroData, ImuFusedData, MotorAngles};
use crate::bytes::{
    build_i16_from_u8s, build_u16_from_u8s, build_u32_from_u8s, decompose_i16_to_u8s,
    decompose_u16_to_u8s, decompose_u32_to_u8s, le_u16, le_u32, signed16, signed32, signed8,
};

verus! {

/// The `u8` lane `index` of a payload; lanes past the end read as zero.
pub open spec fn lane_u8(bytes: Seq<u8>, index: int) -> int {
    if 0 <= index < 8 {
        bytes[index] as int
    } else {
        0
    }
}

/// The unsigned 16-bit lane `index` of a payload; lanes past the end read as zero.
pub open spec fn lane_u16(bytes: Seq<u8>, index: int) -> int {
    if 0 <= index < 4 {
        le_u16(bytes[2 * index], bytes[2 * index + 1])
    } else {
        0
    }
}

/// The unsigned 32-bit lane `index` of a payload; lanes past the end read as zero.
pub open spec fn lane_u32(bytes: Seq<u8>, index: int) -> int {
    if 0 <= index < 2 {
        le_u32(bytes[4 * index], bytes[4 * index + 1], bytes[4 * index + 2], bytes[4 * index + 3])
    } else {
        0
    }
}

/// The payload with `value` written to `u8` lane `index`; a lane past the end
/// leaves the payload as it is.
pub open spec fn put_u8(bytes: Seq<u8>, index: int, value: u8) -> Seq<u8> {
    if 0 <= index < 8 {
        bytes.update(index, value)
    } else {
        bytes
    }
}

/// The payload with the 16-bit pattern `value` written to 16-bit lane `index`.
pub open spec fn put_u16(bytes: Seq<u8>, index: int, value: int) -> Seq<u8> {
    if 0 <= index < 4 {
        bytes.update(2 * index, (value % 256) as u8).update(
            2 * index + 1,
            ((value / 256) % 256) as u8,
        )
    } else {
        bytes
    }
}

/// The payload with the 32-bit pattern `value` written to 32-bit lane `index`.
pub open spec fn put_u32(bytes: Seq<u8>, index: int, value: int) -> Seq<u8> {
    if 0 <= index < 2 {
        bytes.update(4 * index, (value % 256) as u8).update(
            4 * index + 1,
            ((value / 256) % 256) as u8,
        ).update(4 * index + 2, ((value / 65536) % 256) as u8).update(
            4 * index + 3,
            ((value / 16777216) % 256) as u8,
        )
    } else {
        bytes
    }
}

/// The all-zero payload.
pub open spec fn zero_bytes() -> Seq<u8> {
    seq![0u8, 0u8, 0u8, 0u8, 0u8, 0u8, 0u8, 0u8]
}

/// The result of a device read, as it crosses the guest boundary.
#[derive(Clone, Copy, Debug, PartialEq, Eq, Structural)]
pub struct DeviceValue {
    pub v0: u8,
    pub v1: u8,
    pub v2: u8,
    pub v3: u8,
    pub v4: u8,
    pub v5: u8,
    pub v6: u8,
    pub v7: u8,
}

impl View for DeviceValue {
    type V = Seq<u8>;

    open spec fn view(&self) -> Seq<u8> {
        seq![self.v0, self.v1, self.v2, self.v3, self.v4, self.v5, self.v6, self.v7]
    }
}

/// Lane-wise readers and writers for an eight-byte payload.
pub trait DeviceValueExt: View<V = Seq<u8>> + Sized {
    fn get_bool(&self, index: usize) -> (r: bool)
        ensures
            r == (lane_u8(self@, index as int) != 0),
    ;

    fn get_u8(&self, index: usize) -> (r: u8)
        ensures
            r == lane_u8(self@, index as int),
    ;

    fn get_u16(&self, index: usize) -> (r: u16)
        ensures
            r == lane_u16(self@, index as int),
    ;

    fn get_u32(&self, index: usize) -> (r: u32)
        ensures
            r == lane_u32(self@, index as int),
    ;

    fn get_i8(&self, index: usize) -> (r: i8)
        ensures
            r == signed8(lane_u8(self@, index as int)),
    ;

    fn get_i16(&self, index: usize) -> (r: i16)
        ensures
            r == signed16(lane_u16(self@, index as int)),
    ;

    fn get_i32(&self, index: usize) -> (r: i32)
        ensures
            r == signed32(lane_u32(self@, index as int)),
    ;

    fn set_u8(self, value: u8, index: usize) -> (r: Self)
        ensures
            r@ == put_u8(self@, index as int, value),
    ;

    fn set_u16(self, value: u16, index: usize) -> (r: Self)
        ensures
            r@ == put_u16(self@, index as int, value as int),
    ;

    fn set_i16(self, value: i16, index: usize) -> (r: Self)
        ensures
            r@ == put_u16(self@, index as int, value as int),
    ;

    fn set_u32(self, value: u32, index: usize) -> (r: Self)
        ensures
            r@ == put_u32(self@, index as int, value as int),
    ;

    fn set_bool(self, value: bool, index: usize) -> (r: Self)
        ensures
            r@ == put_u8(self@, index as int, if value { 1u8 } else { 0u8 }),
    ;
}

impl DeviceValue {
    /// The payload with every byte zero.
    pub fn zero() -> (r: Self)
        ensures
            r@ == zero_bytes(),
    {
        DeviceValue { v0: 0, v1: 0, v2: 0, v3: 0, v4: 0, v5: 0, v6: 0, v7: 0 }
    }
}

impl DeviceValueExt for DeviceValue {
    fn get_bool(&self, index: usize) -> (r: bool) {
        self.get_u8(index) != 0
    }

    fn get_u8(&self, index: usize) -> (r: u8) {
        match index {
            0 => self.v0,
            1 => self.v1,
            2 => self.v2,
            3 => self.v3,
            4 => self.v4,
            5 => self.v5,
            6 => self.v6,
            7 => self.v7,
            _ => 0,
        }
    }

    fn get_u16(&self, index: usize) -> (r: u16) {
        match index {
            0 => build_u16_from_u8s(self.v0, self.v1),
            1 => build_u16_from_u8s(self.v2, self.v3),
            2 => build_u16_from_u8s(self.v4, self.v5),
            3 => build_u16_from_u8s(self.v6, self.v7),
            _ => 0,
        }
    }

    fn get_u32(&self, index: usize) -> (r: u32) {
        match index {
            0 => build_u32_from_u8s(self.v0, self.v1, self.v2, self.v3),
            1 => build_u32_from_u8s(self.v4, self.v5, self.v6, self.v7),
            _ => 0,
        }
    }

    fn get_i8(&self, index: usize) -> (r: i8) {
        let u: u8 = self.get_u8(index);
        assert((u as i8) == (if u >= 128 { u - 256 } else { u as int })) by (bit_vector);
        #[verifier::truncate]
        (u as i8)
    }

    fn get_i16(&self, index: usize) -> (r: i16) {
        match index {
            0 => build_i16_from_u8s(self.v0, self.v1),
            1 => build_i16_from_u8s(self.v2, self.v3),
            2 => build_i16_from_u8s(self.v4, self.v5),
            3 => build_i16_from_u8s(self.v6, self.v7),
            _ => 0,
        }
    }

    fn get_i32(&self, index: usize) -> (r: i32) {
        let u: u32 = self.get_u32(index);
        assert((u as i32) == (if u >= 2147483648 { u - 4294967296 } else { u as int }))
            by (bit_vector);
        #[verifier::truncate]
        (u as i32)
    }

    fn set_u8(self, value: u8, index: usize) -> (r: Self) {
        let mut out = self;
        match index {
            0 => out.v0 = value,
            1 => out.v1 = value,
            2 => out.v2 = value,
            3 => out.v3 = value,
            4 => out.v4 = value,
            5 => out.v5 = value,
            6 => out.v6 = value,
            7 => out.v7 = value,
            _ => (),
        };
        out
    }

    fn set_u16(self, value: u16, index: usize) -> (r: Self) {
        let mut out = self;
        let (b0, b1) = decompose_u16_to_u8s(value);
        match index {
            0 => {
                out.v0 = b0;
                out.v1 = b1;
            },
            1 => {
                out.v2 = b0;
                out.v3 = b1;
            },
            2 => {
                out.v4 = b0;
                out.v5 = b1;
            },
            3 => {
                out.v6 = b0;
                out.v7 = b1;
            },
            _ => (),
        };
        out
    }

    fn set_i16(self, value: i16, index: usize) -> (r: Self) {
        let mut out = self;
        let (b0, b1) = decompose_i16_to_u8s(value);
        match index {
            0 => {
                out.v0 = b0;
                out.v1 = b1;
            },
            1 => {
                out.v2 = b0;
                out.v3 = b1;
            },
            2 => {
                out.v4 = b0;
                out.v5 = b1;
            },
            3 => {
                out.v6 = b0;
                out.v7 = b1;
            },
            _ => (),
        };
        out
    }

    fn set_u32(self, value: u32, index: usize) -> (r: Self) {
        let mut out = self;
        let (b0, b1, b2, b3) = decompose_u32_to_u8s(value);
        match index {
            0 => {
                out.v0 = b0;
                out.v1 = b1;
                out.v2 = b2;
                out.v3 = b3;
            },
            1 => {
                out.v4 = b0;
                out.v5 = b1;
                out.v6 = b2;
                out.v7 = b3;
            },
            _ => (),
        };
        out
    }

    fn set_bool(self, value: bool, index: usize) -> (r: Self) {
        self.set_u8(if value { 1 } else { 0 }, index)
    }
}

/// The payload as the host builds it, before it is handed to the guest.
#[derive(Clone, Copy, Debug, PartialEq, Eq, Structural)]
pub struct DeviceValueRaw {
    pub v0: u8,
    pub v1: u8,
    pub v2: u8,
    pub v3: u8,
    pub v4: u8,
    pub v5: u8,
    pub v6: u8,
    pub v7: u8,
}

impl View for DeviceValueRaw {
    type V = Seq<u8>;

    open spec fn view(&self) -> Seq<u8> {
        seq![self.v0, self.v1, self.v2, self.v3, self.v4, self.v5, self.v6, self.v7]
    }
}

impl From<DeviceValueRaw> for DeviceValue {
    fn from(value: DeviceValueRaw) -> (r: DeviceValue) {
        DeviceValue {
            v0: value.v0,
            v1: value.v1,
            v2: value.v2,
            v3: value.v3,
            v4: value.v4,
            v5: value.v5,
            v6: value.v6,
            v7: value.v7,
        }
    }
}

impl vstd::std_specs::convert::FromSpecImpl<DeviceValueRaw> for DeviceValue {
    open spec fn obeys_from_spec() -> bool {
        true
    }

    open spec fn from_spec(value: DeviceValueRaw) -> DeviceValue {
        DeviceValue {
            v0: value.v0,
            v1: value.v1,
            v2: value.v2,
            v3: value.v3,
            v4: value.v4,
            v5: value.v5,
            v6: value.v6,
            v7: value.v7,
        }
    }
}

impl DeviceValueRaw {
    /// The guest-facing payload holding the same bytes.
    pub open spec fn to_value(self) -> DeviceValue {
        DeviceValue {
            v0: self.v0,
            v1: self.v1,
            v2: self.v2,
            v3: self.v3,
            v4: self.v4,
            v5: self.v5,
            v6: self.v6,
            v7: self.v7,
        }
    }

    /// The payload whose bytes are the first eight of `bytes`.
    pub open spec fn of_bytes(bytes: Seq<u8>) -> DeviceValueRaw {
        DeviceValueRaw {
            v0: bytes[0],
            v1: bytes[1],
            v2: bytes[2],
            v3: bytes[3],
            v4: bytes[4],
            v5: bytes[5],
            v6: bytes[6],
            v7: bytes[7],
        }
    }

    /// A payload is determined by its bytes.
    pub proof fn lemma_of_bytes(self)
        ensures
            DeviceValueRaw::of_bytes(self@) == self,
            self@.len() == 8,
    {
    }

    /// The payload with every byte zero.
    pub fn zero() -> (r: Self)
        ensures
            r@ == zero_bytes(),
    {
        DeviceValueRaw { v0: 0, v1: 0, v2: 0, v3: 0, v4: 0, v5: 0, v6: 0, v7: 0 }
    }

    /// Writes `value` to `u8` lane `index`; other lanes keep their content.
    pub fn with_u8(self, index: usize, value: u8) -> (r: Self)
        ensures
            r@ == put_u8(self@, index as int, value),
    {
        let r = match index {
            0 => DeviceValueRaw { v0: value, ..self },
            1 => DeviceValueRaw { v1: value, ..self },
            2 => DeviceValueRaw { v2: value, ..self },
            3 => DeviceValueRaw { v3: value, ..self },
            4 => DeviceValueRaw { v4: value, ..self },
            5 => DeviceValueRaw { v5: value, ..self },
            6 => DeviceValueRaw { v6: value, ..self },
            7 => DeviceValueRaw { v7: value, ..self },
            _ => self,
        };
        r
    }

    /// Writes `value` to 16-bit lane `index`, low byte first; other lanes keep
    /// their content.
    pub fn with_u16(self, index: usize, value: u16) -> (r: Self)
        ensures
            r@ == put_u16(self@, index as int, value as int),
    {
        let (b0, b1) = decompose_u16_to_u8s(value);
        let r = match index {
            0 => DeviceValueRaw { v0: b0, v1: b1, ..self },
            1 => DeviceValueRaw { v2: b0, v3: b1, ..self },
            2 => DeviceValueRaw { v4: b0, v5: b1, ..self },
            3 => DeviceValueRaw { v6: b0, v7: b1, ..self },
            _ => self,
        };
        r
    }

    /// Writes the two's-complement pattern of `value` to 16-bit lane `index`.
    pub fn with_i16(self, index: usize, value: i16) -> (r: Self)
        ensures
            r@ == put_u16(self@, index as int, value as int),
    {
        let (b0, b1) = decompose_i16_to_u8s(value);
        let r = match index {
            0 => DeviceValueRaw { v0: b0, v1: b1, ..self },
            1 => DeviceValueRaw { v2: b0, v3: b1, ..self },
            2 => DeviceValueRaw { v4: b0, v5: b1, ..self },
            3 => DeviceValueRaw { v6: b0, v7: b1, ..self },
            _ => self,
        };
        r
    }

    /// Writes `value` to 32-bit lane `index`, low byte first; other lanes keep
    /// their content.
    pub fn with_u32(self, index: usize, value: u32) -> (r: Self)
        ensures
            r@ == put_u32(self@, index as int, value as int),
    {
        let (b0, b1, b2, b3) = decompose_u32_to_u8s(value);
        let r = match index {
            0 => DeviceValueRaw { v0: b0, v1: b1, v2: b2, v3: b3, ..self },
            1 => DeviceValueRaw { v4: b0, v5: b1, v6: b2, v7: b3, ..self },
            _ => self,
        };
        r
    }

    /// Packs one bank of eight line-sensor reflectances, one per `u8` lane.
    pub fn from_sensor_values(sensor_values: [u8; 8]) -> (r: Self)
        ensures
            r@ == sensor_values@,
    {
        let r = DeviceValueRaw {
            v0: sensor_values[0],
            v1: sensor_values[1],
            v2: sensor_values[2],
            v3: sensor_values[3],
            v4: sensor_values[4],
            v5: sensor_values[5],
            v6: sensor_values[6],
            v7: sensor_values[7],
        };
        r
    }

    /// Packs the wheel angles: left in 16-bit lane 0, right in lane 1.
    pub fn from_motor_angles(angles: MotorAngles) -> (r: Self)
        ensures
            r@ == put_u16(
                put_u16(zero_bytes(), 0, angles.left as int),
                1,
                angles.right as int,
            ),
    {
        DeviceValueRaw::zero().with_u16(0, angles.left).with_u16(1, angles.right)
    }

    /// Packs an accelerometer sample: front, side, vertical in 16-bit lanes 0 to 2.
    pub fn from_accel_data(accel_data: AccelData) -> (r: Self)
        ensures
            r@ == put_u16(
                put_u16(put_u16(zero_bytes(), 0, accel_data.front as int), 1, accel_data.side as int),
                2,
                accel_data.vertical as int,
            ),
    {
        DeviceValueRaw::zero().with_u16(0, accel_data.front).with_u16(1, accel_data.side).with_u16(
            2,
            accel_data.vertical,
        )
    }

    /// Packs a gyroscope sample: roll, pitch, yaw speed in 16-bit lanes 0 to 2.
    pub fn from_gyro_data(gyro_data: GyroData) -> (r: Self)
        ensures
            r@ == put_u16(
                put_u16(
                    put_u16(zero_bytes(), 0, gyro_data.roll_angular_speed as int),
                    1,
                    gyro_data.pitch_angular_speed as int,
                ),
                2,
                gyro_data.yaw_angular_speed as int,
            ),
    {
        DeviceValueRaw::zero().with_i16(0, gyro_data.roll_angular_speed).with_i16(
            1,
            gyro_data.pitch_angular_speed,
        ).with_i16(2, gyro_data.yaw_angular_speed)
    }

    /// Packs a fused IMU sample: roll, pitch, yaw in 16-bit lanes 0 to 2.
    pub fn from_imu_fused_data(imu_data: ImuFusedData) -> (r: Self)
        ensures
            r@ == put_u16(
                put_u16(put_u16(zero_bytes(), 0, imu_data.roll as int), 1, imu_data.pitch as int),
                2,
                imu_data.yaw as int,
            ),
    {
        DeviceValueRaw::zero().with_i16(0, imu_data.roll).with_i16(1, imu_data.pitch).with_i16(
            2,
            imu_data.yaw,
        )
    }

    /// Hands the payload to the guest side unchanged.
    pub fn into_value(self) -> (r: DeviceValue)
        ensures
            r == self.to_value(),
            r@ == self@,
    {
        let r: DeviceValue = DeviceValue::from(self);
        r
    }
}

/// Reading back a `u8` lane gives what was written to it, and a write to one
/// lane leaves every other `u8` lane as it was.
pub proof fn lemma_u8_round_trip(bytes: Seq<u8>, index: int, other: int, value: u8)
    requires
        bytes.len() == 8,
        0 <= index < 8,
    ensures
        put_u8(bytes, index, value).len() == 8,
        lane_u8(put_u8(bytes, index, value), index) == value,
        other != index ==> lane_u8(put_u8(bytes, index, value), other) == lane_u8(bytes, other),
{
}

/// Reading back a 16-bit lane gives what was written to it, unsigned or
/// signed, and a write to one lane leaves every byte outside it as it was.
pub proof fn lemma_u16_round_trip(bytes: Seq<u8>, index: int, other: int, value: int)
    requires
        bytes.len() == 8,
        0 <= index < 4,
        -32768 <= value < 65536,
    ensures
        put_u16(bytes, index, value).len() == 8,
        0 <= value ==> lane_u16(put_u16(bytes, index, value), index) == value,
        value < 32768 ==> signed16(lane_u16(put_u16(bytes, index, value), index)) == value,
        other != index ==> lane_u16(put_u16(bytes, index, value), other) == lane_u16(bytes, other),
        other != 2 * index && other != 2 * index + 1 ==> lane_u8(
            put_u16(bytes, index, value),
            other,
        ) == lane_u8(bytes, other),
{
}

/// Reading back a 32-bit lane gives what was written to it, unsigned or
/// signed, and a write to one lane leaves every byte outside it as it was.
pub proof fn lemma_u32_round_trip(bytes: Seq<u8>, index: int, other: int, value: int)
    requires
        bytes.len() == 8,
        0 <= index < 2,
        -2147483648 <= value < 4294967296,
    ensures
        put_u32(bytes, index, value).len() == 8,
        0 <= value ==> lane_u32(put_u32(bytes, index, value), index) == value,
        value < 2147483648 ==> signed32(lane_u32(put_u32(bytes, index, value), index)) == value,
        other != index ==> lane_u32(put_u32(bytes, index, value), other) == lane_u32(bytes, other),
        !(4 * index <= other < 4 * index + 4) ==> lane_u8(put_u32(bytes, index, value), other)
            == lane_u8(bytes, other),
{
}

/// The views agree with each other: a 16-bit lane is its two `u8` lanes, low
/// byte first, and a 32-bit lane is its two 16-bit lanes, low half first.
pub proof fn lemma_lane_views_agree(bytes: Seq<u8>, index: int)
    requires
        bytes.len() == 8,
    ensures
        0 <= index < 4 ==> lane_u16(bytes, index) == lane_u8(bytes, 2 * index) + 256 * lane_u8(
            bytes,
            2 * index + 1,
        ),
        0 <= index < 2 ==> lane_u32(bytes, index) == lane_u16(bytes, 2 * index) + 65536 * lane_u16(
            bytes,
            2 * index + 1,
        ),
{
}

} // verus!
