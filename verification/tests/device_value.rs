use line_follower_sim::bytes::{
    build_i16_from_u8s, build_u16_from_u8s, build_u32_from_u8s, decompose_i16_to_u8s,
    decompose_u16_to_u8s, decompose_u32_to_u8s,
};
use line_follower_sim::device_value::{DeviceValue, DeviceValueExt, DeviceValueRaw};
use line_follower_sim::sensors::{AccelData, GyroData, ImuFusedData, MotorAngles};

fn sample() -> DeviceValueRaw {
    DeviceValueRaw { v0: 1, v1: 2, v2: 3, v3: 4, v4: 5, v5: 6, v6: 7, v7: 8 }
}

#[test]
fn zero_is_all_zero() {
    let v: DeviceValue = DeviceValueRaw::zero().into_value();
    for i in 0..8 {
        assert_eq!(v.get_u8(i), 0);
    }
    assert_eq!(DeviceValue::zero(), v);
}

#[test]
fn bytes_pack_little_endian() {
    assert_eq!(build_u16_from_u8s(0x34, 0x12), 0x1234);
    assert_eq!(build_i16_from_u8s(0xFF, 0xFF), -1);
    assert_eq!(build_i16_from_u8s(0x00, 0x80), i16::MIN);
    assert_eq!(build_u32_from_u8s(0x78, 0x56, 0x34, 0x12), 0x12345678);
    assert_eq!(decompose_u16_to_u8s(0x1234), (0x34, 0x12));
    assert_eq!(decompose_i16_to_u8s(-2), (0xFE, 0xFF));
    assert_eq!(decompose_u32_to_u8s(0x12345678), (0x78, 0x56, 0x34, 0x12));
}

#[test]
fn u8_round_trip_keeps_other_lanes() {
    for lane in 0..8 {
        let v = sample().with_u8(lane, 0xEE).into_value();
        for other in 0..8 {
            let expected = if other == lane { 0xEE } else { (other as u8) + 1 };
            assert_eq!(v.get_u8(other), expected);
        }
    }
}

#[test]
fn u16_round_trip_keeps_other_lanes() {
    let before = sample().into_value();
    for lane in 0..4 {
        for value in [0u16, 1, 0x00FF, 0x0100, 0xABCD, u16::MAX] {
            let v = sample().with_u16(lane, value).into_value();
            assert_eq!(v.get_u16(lane), value);
            for other in 0..4 {
                if other != lane {
                    assert_eq!(v.get_u16(other), before.get_u16(other));
                }
            }
        }
    }
}

#[test]
fn u16_lane_is_little_endian() {
    let raw = DeviceValueRaw::zero().with_u16(1, 0xABCD);
    assert_eq!(raw.v2, 0xCD);
    assert_eq!(raw.v3, 0xAB);
    let v = raw.into_value();
    assert_eq!(v.get_u16(1), 0xABCD);
    assert_eq!(v.get_u16(0), 0);
}

#[test]
fn i16_round_trip() {
    for lane in 0..4 {
        for value in [0i16, 1, -1, 127, -128, 255, -256, i16::MAX, i16::MIN] {
            let v = sample().with_i16(lane, value).into_value();
            assert_eq!(v.get_i16(lane), value);
            assert_eq!(v.get_u16(lane), value as u16);
        }
    }
}

#[test]
fn u32_round_trip_keeps_other_lane() {
    let before = sample().into_value();
    for lane in 0..2 {
        for value in [0u32, 1, 0xFFFF, 0x1_0000, 0xDEADBEEF, u32::MAX] {
            let v = sample().with_u32(lane, value).into_value();
            assert_eq!(v.get_u32(lane), value);
            assert_eq!(v.get_i32(lane), value as i32);
            assert_eq!(v.get_u32(1 - lane), before.get_u32(1 - lane));
        }
    }
}

#[test]
fn u32_lane_is_little_endian() {
    let raw = DeviceValueRaw::zero().with_u32(1, 0x12345678);
    assert_eq!((raw.v4, raw.v5, raw.v6, raw.v7), (0x78, 0x56, 0x34, 0x12));
    assert_eq!((raw.v0, raw.v1, raw.v2, raw.v3), (0, 0, 0, 0));
}

#[test]
fn views_overlap_as_documented() {
    let v = sample().into_value();
    assert_eq!(v.get_u16(0), 0x0201);
    assert_eq!(v.get_u16(3), 0x0807);
    assert_eq!(v.get_u32(0), 0x04030201);
    assert_eq!(v.get_u32(1), 0x08070605);
    assert_eq!(v.get_i8(0), 1);
    assert!(v.get_bool(0));
}

#[test]
fn lanes_past_the_end_read_zero_and_ignore_writes() {
    let v = sample().into_value();
    assert_eq!(v.get_u8(8), 0);
    assert_eq!(v.get_u16(4), 0);
    assert_eq!(v.get_i16(4), 0);
    assert_eq!(v.get_u32(2), 0);
    assert_eq!(v.get_i32(2), 0);
    assert!(!v.get_bool(8));
    assert_eq!(sample().with_u8(8, 9), sample());
    assert_eq!(sample().with_u16(4, 9), sample());
    assert_eq!(sample().with_i16(4, -9), sample());
    assert_eq!(sample().with_u32(2, 9), sample());
    assert_eq!(v.set_u8(9, 8), v);
    assert_eq!(v.set_u16(9, 4), v);
    assert_eq!(v.set_i16(-9, 4), v);
    assert_eq!(v.set_u32(9, 2), v);
    assert_eq!(v.set_bool(true, 8), v);
}

#[test]
fn setters_on_device_value_match_raw_writers() {
    let v = sample().into_value();
    assert_eq!(v.set_u8(0xEE, 3), sample().with_u8(3, 0xEE).into_value());
    assert_eq!(v.set_u16(0xBEEF, 2), sample().with_u16(2, 0xBEEF).into_value());
    assert_eq!(v.set_i16(-1234, 1), sample().with_i16(1, -1234).into_value());
    assert_eq!(v.set_u32(0xCAFEBABE, 1), sample().with_u32(1, 0xCAFEBABE).into_value());
    assert_eq!(v.set_bool(true, 7).get_u8(7), 1);
    assert_eq!(v.set_bool(false, 7).get_u8(7), 0);
    assert!(v.set_bool(true, 7).get_bool(7));
}

#[test]
fn signed_bytes() {
    let v = DeviceValueRaw::zero().with_u8(0, 0xFF).with_u8(1, 0x80).with_u8(2, 0x7F).into_value();
    assert_eq!(v.get_i8(0), -1);
    assert_eq!(v.get_i8(1), -128);
    assert_eq!(v.get_i8(2), 127);
}

#[test]
fn sensor_values_fill_the_eight_bytes() {
    let raw = DeviceValueRaw::from_sensor_values([10, 20, 30, 40, 50, 60, 70, 80]);
    let v = raw.into_value();
    for i in 0..8 {
        assert_eq!(v.get_u8(i), 10 * (i as u8 + 1));
    }
}

#[test]
fn motor_angles_take_two_lanes() {
    let v = DeviceValueRaw::from_motor_angles(MotorAngles { left: 0x1234, right: 0xFEDC })
        .into_value();
    assert_eq!(v.get_u16(0), 0x1234);
    assert_eq!(v.get_u16(1), 0xFEDC);
    assert_eq!(v.get_u32(1), 0);
}

#[test]
fn accel_gyro_and_imu_take_three_lanes() {
    let a = DeviceValueRaw::from_accel_data(AccelData { front: 1, side: 2, vertical: 65535 })
        .into_value();
    assert_eq!((a.get_u16(0), a.get_u16(1), a.get_u16(2), a.get_u16(3)), (1, 2, 65535, 0));
    let g = DeviceValueRaw::from_gyro_data(GyroData {
        roll_angular_speed: -1,
        pitch_angular_speed: 300,
        yaw_angular_speed: i16::MIN,
    })
    .into_value();
    assert_eq!((g.get_i16(0), g.get_i16(1), g.get_i16(2), g.get_i16(3)), (-1, 300, i16::MIN, 0));
    let i = DeviceValueRaw::from_imu_fused_data(ImuFusedData { roll: 3, pitch: -2, yaw: 1 })
        .into_value();
    assert_eq!((i.get_i16(0), i.get_i16(1), i.get_i16(2), i.get_i16(3)), (3, -2, 1, 0));
}

#[test]
fn raw_converts_into_device_value() {
    let v: DeviceValue = sample().into();
    assert_eq!(v, sample().into_value());
    assert_eq!(DeviceValue::from(sample()).v7, 8);
}
