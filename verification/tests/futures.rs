use line_follower_sim::device_value::{DeviceValueExt, DeviceValueRaw};
use line_follower_sim::devices::{DeviceOperation, PollError, PollOperationStatus};
use line_follower_sim::futures::FutureTable;
use line_follower_sim::mock_stepper::MockStepper;
use line_follower_sim::operation::{
    DeviceOperationExt, FutureOperation, FutureReadyCondition, FutureValueStatus,
};
use line_follower_sim::stepper::SimulationStepper;

fn ready_zero() -> FutureValueStatus {
    FutureValueStatus::Ready(DeviceValueRaw::zero())
}

#[test]
fn empty_table_knows_no_handle() {
    let mut table = FutureTable::new();
    assert!(table.can_issue());
    assert_eq!(table.get(0), None);
    assert_eq!(table.get(1), None);
    assert_eq!(table.poll(1), Err(PollError::InvalidHandle));
    table.forget(1);
    table.sweep(1_000, &MockStepper::new(100));
    assert_eq!(table.get(1), None);
}

#[test]
fn issue_assigns_ids_in_order_from_one() {
    let mut table = FutureTable::new();
    let a = table.issue(FutureOperation::Sleep, FutureReadyCondition::ReadyAt(700), 200);
    let b = table.issue(FutureOperation::WaitEnabled, FutureReadyCondition::IsActive, 210);
    let c = table.issue(FutureOperation::WaitDisabled, FutureReadyCondition::IsInactive, 220);
    assert_eq!((a.id, a.ready_at), (1, 700));
    assert_eq!((b.id, b.ready_at), (2, 210));
    assert_eq!((c.id, c.ready_at), (3, 220));
    table.forget(3);
    let d = table.issue(FutureOperation::GetTime, FutureReadyCondition::ReadyAt(0), 230);
    assert_eq!(d.id, 4);
    let entry = table.get(1).unwrap();
    assert_eq!(entry.id, 1);
    assert_eq!(entry.issued_at, 200);
    assert_eq!(entry.operation, FutureOperation::Sleep);
    assert_eq!(entry.value, FutureValueStatus::Pending);
}

#[test]
fn states_move_from_pending_to_ready_to_consumed() {
    let stepper = MockStepper::new(100);
    let mut table = FutureTable::new();
    let h = table.issue(FutureOperation::GetTime, FutureReadyCondition::ReadyAt(500), 0);
    assert_eq!(table.poll(h.id), Ok(PollOperationStatus::Pending));
    table.sweep(499, &stepper);
    assert_eq!(table.get(h.id).unwrap().value, FutureValueStatus::Pending);
    assert_eq!(table.poll(h.id), Ok(PollOperationStatus::Pending));
    table.sweep(500, &stepper);
    let latched = DeviceValueRaw::zero().with_u32(0, 500);
    assert_eq!(table.get(h.id).unwrap().value, FutureValueStatus::Ready(latched));
    table.sweep(10_000, &stepper);
    assert_eq!(table.get(h.id).unwrap().value, FutureValueStatus::Ready(latched));
    assert_eq!(table.poll(h.id), Ok(PollOperationStatus::Ready(latched.into_value())));
    assert_eq!(table.get(h.id).unwrap().value, FutureValueStatus::Consumed);
    table.sweep(20_000, &stepper);
    assert_eq!(table.get(h.id).unwrap().value, FutureValueStatus::Consumed);
    assert_eq!(table.poll(h.id), Err(PollError::ConsumedHandle));
    assert_eq!(table.poll(h.id), Err(PollError::ConsumedHandle));
    assert_eq!(table.get(h.id).unwrap().value, FutureValueStatus::Consumed);
}

#[test]
fn a_time_read_latches_its_ready_time_not_the_sweep_time() {
    let stepper = MockStepper::new(100);
    let mut table = FutureTable::new();
    let h = table.issue(FutureOperation::GetTime, FutureReadyCondition::ReadyAt(123), 100);
    table.sweep(9_999, &stepper);
    match table.poll(h.id) {
        Ok(PollOperationStatus::Ready(v)) => assert_eq!(v.get_u32(0), 123),
        other => panic!("{:?}", other),
    }
}

#[test]
fn sweep_latches_exactly_what_is_due() {
    let stepper = MockStepper::new(100);
    let mut table = FutureTable::new();
    let times = [300u32, 100, 200, 100, 201, 0, u32::MAX];
    let mut ids = Vec::new();
    for t in times {
        ids.push(table.issue(FutureOperation::Sleep, FutureReadyCondition::ReadyAt(t), 0).id);
    }
    table.sweep(200, &stepper);
    for (k, t) in times.iter().enumerate() {
        let expected = if *t <= 200 { ready_zero() } else { FutureValueStatus::Pending };
        assert_eq!(table.get(ids[k]).unwrap().value, expected);
    }
    table.sweep(u32::MAX, &stepper);
    for id in ids {
        assert_eq!(table.get(id).unwrap().value, ready_zero());
    }
}

#[test]
fn waits_follow_the_signal() {
    let stepper = MockStepper::new(100);
    assert!(stepper.is_active());
    let mut table = FutureTable::new();
    let on = table.issue(FutureOperation::WaitEnabled, FutureReadyCondition::IsActive, 5);
    let off = table.issue(FutureOperation::WaitDisabled, FutureReadyCondition::IsInactive, 5);
    table.sweep(0, &stepper);
    assert_eq!(table.get(on.id).unwrap().value, ready_zero());
    assert_eq!(table.get(off.id).unwrap().value, FutureValueStatus::Pending);
    assert_eq!(table.poll(off.id), Ok(PollOperationStatus::Pending));
}

#[test]
fn a_read_latches_the_snapshot_of_the_stepper_at_the_sweep() {
    let mut stepper = MockStepper::new(250_000);
    let mut table = FutureTable::new();
    let h = table.issue(FutureOperation::ReadMotorAngles, FutureReadyCondition::ReadyAt(500_000), 0);
    stepper.step();
    table.sweep(stepper.get_time_us(), &stepper);
    assert_eq!(table.get(h.id).unwrap().value, FutureValueStatus::Pending);
    stepper.step();
    table.sweep(stepper.get_time_us(), &stepper);
    stepper.step();
    table.sweep(stepper.get_time_us(), &stepper);
    match table.poll(h.id) {
        Ok(PollOperationStatus::Ready(v)) => {
            assert_eq!(v.get_u16(0), 32_767);
            assert_eq!(v.get_u16(1), 32_767);
        }
        other => panic!("{:?}", other),
    }
}

#[test]
fn forget_is_valid_in_every_state() {
    let stepper = MockStepper::new(100);
    let mut table = FutureTable::new();
    let pending = table.issue(FutureOperation::Sleep, FutureReadyCondition::ReadyAt(900), 0);
    let waiting = table.issue(FutureOperation::WaitDisabled, FutureReadyCondition::IsInactive, 0);
    let ready = table.issue(FutureOperation::Sleep, FutureReadyCondition::ReadyAt(1), 0);
    let consumed = table.issue(FutureOperation::Sleep, FutureReadyCondition::ReadyAt(1), 0);
    let kept = table.issue(FutureOperation::Sleep, FutureReadyCondition::ReadyAt(900), 0);
    table.sweep(10, &stepper);
    assert_eq!(table.poll(consumed.id), Ok(PollOperationStatus::Ready(DeviceValueRaw::zero().into_value())));
    for h in [pending, waiting, ready, consumed] {
        table.forget(h.id);
        assert_eq!(table.get(h.id), None);
        assert_eq!(table.poll(h.id), Err(PollError::InvalidHandle));
    }
    table.sweep(1_000, &stepper);
    assert_eq!(table.get(kept.id).unwrap().value, ready_zero());
    assert_eq!(table.get(pending.id), None);
}

#[test]
fn operation_kinds() {
    assert_eq!(FutureOperation::from(DeviceOperation::ReadLineLeft), FutureOperation::ReadLineLeft);
    assert_eq!(FutureOperation::from(DeviceOperation::ReadLineRight), FutureOperation::ReadLineRight);
    assert_eq!(FutureOperation::from(DeviceOperation::ReadMotorAngles), FutureOperation::ReadMotorAngles);
    assert_eq!(FutureOperation::from(DeviceOperation::ReadGyro), FutureOperation::ReadGyro);
    assert_eq!(FutureOperation::from(DeviceOperation::ReadImuFusedData), FutureOperation::ReadImuFusedData);
    assert_eq!(FutureOperation::from(DeviceOperation::GetTime), FutureOperation::GetTime);
    assert_eq!(FutureOperation::from(DeviceOperation::GetPeriod), FutureOperation::GetPeriod);
    assert_eq!(FutureOperation::from(DeviceOperation::SleepFor(3)), FutureOperation::Sleep);
    assert_eq!(FutureOperation::from(DeviceOperation::SleepUntil(3)), FutureOperation::Sleep);
    assert_eq!(FutureOperation::from(DeviceOperation::GetEnabled), FutureOperation::GetEnabled);
    assert_eq!(FutureOperation::from(DeviceOperation::WaitEnabled), FutureOperation::WaitEnabled);
    assert_eq!(FutureOperation::from(DeviceOperation::WaitDisabled), FutureOperation::WaitDisabled);
}

#[test]
fn ready_conditions() {
    let mut stepper = MockStepper::new(500);
    stepper.step();
    let at = |op: DeviceOperation, now: u32| op.ready_condition(now, &stepper);
    assert_eq!(at(DeviceOperation::ReadLineLeft, 500), FutureReadyCondition::ReadyAt(500));
    assert_eq!(at(DeviceOperation::ReadLineLeft, 501), FutureReadyCondition::ReadyAt(1_000));
    assert_eq!(at(DeviceOperation::ReadLineRight, 999), FutureReadyCondition::ReadyAt(1_000));
    assert_eq!(at(DeviceOperation::ReadMotorAngles, 1_000), FutureReadyCondition::ReadyAt(1_000));
    assert_eq!(at(DeviceOperation::ReadGyro, 777), FutureReadyCondition::ReadyAt(1_500));
    assert_eq!(at(DeviceOperation::ReadImuFusedData, 777), FutureReadyCondition::ReadyAt(5_500));
    assert_eq!(at(DeviceOperation::GetTime, 777), FutureReadyCondition::ReadyAt(777));
    assert_eq!(at(DeviceOperation::GetPeriod, 777), FutureReadyCondition::ReadyAt(777));
    assert_eq!(at(DeviceOperation::GetEnabled, 777), FutureReadyCondition::ReadyAt(777));
    assert_eq!(at(DeviceOperation::SleepFor(23), 777), FutureReadyCondition::ReadyAt(800));
    assert_eq!(at(DeviceOperation::SleepUntil(23), 777), FutureReadyCondition::ReadyAt(777));
    assert_eq!(at(DeviceOperation::SleepUntil(900), 777), FutureReadyCondition::ReadyAt(900));
    assert_eq!(at(DeviceOperation::WaitEnabled, 777), FutureReadyCondition::IsActive);
    assert_eq!(at(DeviceOperation::WaitDisabled, 777), FutureReadyCondition::IsInactive);
}

#[test]
fn ready_time_must_fit() {
    let stepper = MockStepper::new(500);
    assert!(DeviceOperation::SleepFor(u32::MAX).ready_time_fits(0, &stepper));
    assert!(!DeviceOperation::SleepFor(u32::MAX).ready_time_fits(1, &stepper));
    assert!(DeviceOperation::SleepUntil(u32::MAX).ready_time_fits(u32::MAX, &stepper));
    assert!(DeviceOperation::ReadLineLeft.ready_time_fits(u32::MAX - 295, &stepper));
    assert!(!DeviceOperation::ReadLineLeft.ready_time_fits(u32::MAX - 294, &stepper));
    assert!(DeviceOperation::ReadGyro.ready_time_fits(u32::MAX, &stepper));
    assert!(DeviceOperation::WaitEnabled.ready_time_fits(u32::MAX, &stepper));
}

#[test]
fn durations() {
    assert_eq!(DeviceOperation::SleepFor(40).duration(1_000), 40);
    assert_eq!(DeviceOperation::SleepUntil(1_040).duration(1_000), 40);
    assert_eq!(DeviceOperation::SleepUntil(1_000).duration(1_000), 0);
    assert_eq!(DeviceOperation::SleepUntil(10).duration(1_000), 0);
    for op in [
        DeviceOperation::ReadLineLeft,
        DeviceOperation::ReadLineRight,
        DeviceOperation::ReadMotorAngles,
        DeviceOperation::ReadGyro,
        DeviceOperation::ReadImuFusedData,
        DeviceOperation::GetTime,
        DeviceOperation::GetPeriod,
        DeviceOperation::GetEnabled,
        DeviceOperation::WaitEnabled,
        DeviceOperation::WaitDisabled,
    ] {
        assert_eq!(op.duration(1_000), 0);
    }
}

#[test]
fn condition_kinds() {
    assert!(FutureReadyCondition::ReadyAt(0).is_time_based());
    assert!(!FutureReadyCondition::ReadyAt(0).is_activity());
    assert!(FutureReadyCondition::IsActive.is_activity());
    assert!(!FutureReadyCondition::IsActive.is_time_based());
    assert!(FutureReadyCondition::IsInactive.is_activity());
    assert!(!FutureReadyCondition::IsInactive.is_time_based());
}

#[test]
fn poll_error_names() {
    assert_eq!(PollError::InvalidHandle.name(), "invalid-handle");
    assert_eq!(PollError::ConsumedHandle.name(), "consumed-handle");
    assert_eq!(PollError::ExpiredHandle.name(), "expired-handle");
}

#[test]
fn compute_value_of_each_kind() {
    let mut stepper = MockStepper::new(100_000);
    stepper.step();
    stepper.step();
    let zero = DeviceValueRaw::zero();
    assert_eq!(FutureOperation::ReadLineLeft.compute_value(&stepper, 9), zero);
    assert_eq!(FutureOperation::ReadLineRight.compute_value(&stepper, 9), zero);
    assert_eq!(
        FutureOperation::ReadMotorAngles.compute_value(&stepper, 9),
        zero.with_u16(0, 13_107).with_u16(1, 13_107)
    );
    assert_eq!(FutureOperation::ReadGyro.compute_value(&stepper, 9), zero);
    assert_eq!(FutureOperation::ReadImuFusedData.compute_value(&stepper, 9), zero);
    assert_eq!(FutureOperation::GetTime.compute_value(&stepper, 9), zero.with_u32(0, 9));
    assert_eq!(
        FutureOperation::GetPeriod.compute_value(&stepper, 9),
        zero.with_u32(0, 100_000).with_u32(1, 2)
    );
    assert_eq!(FutureOperation::Sleep.compute_value(&stepper, 9), zero);
    assert_eq!(FutureOperation::GetEnabled.compute_value(&stepper, 9), zero.with_u8(0, 1));
    assert_eq!(FutureOperation::WaitEnabled.compute_value(&stepper, 9), zero);
    assert_eq!(FutureOperation::WaitDisabled.compute_value(&stepper, 9), zero);
}
