use line_follower_sim::clock::{fuel_for_time_us, time_us_for_fuel, HostError, VirtualClock};

#[test]
fn one_microsecond_is_twenty_fuel_units() {
    assert_eq!(fuel_for_time_us(0), 0);
    assert_eq!(fuel_for_time_us(1), 20);
    assert_eq!(fuel_for_time_us(1_000_000), 20_000_000);
    assert_eq!(fuel_for_time_us(u32::MAX), 20 * (u32::MAX as u64));
    assert_eq!(time_us_for_fuel(0), 0);
    assert_eq!(time_us_for_fuel(19), 0);
    assert_eq!(time_us_for_fuel(20), 1);
    assert_eq!(time_us_for_fuel(39), 1);
    assert_eq!(time_us_for_fuel(20_000_000), 1_000_000);
}

#[test]
fn fuel_and_time_round_trip() {
    for t in [0u32, 1, 7, 999, 60_000_000, u32::MAX] {
        assert_eq!(time_us_for_fuel(fuel_for_time_us(t)), t);
    }
}

#[test]
fn new_clock_starts_at_zero() {
    let clock = VirtualClock::new(60_000_000);
    assert_eq!(clock.total_simulation_time(), 60_000_000);
    assert_eq!(clock.current_fuel(), 1_200_000_000);
    assert_eq!(clock.skipped_fuel(), 0);
    assert_eq!(clock.current_time(), Ok(0));
    assert_eq!(clock.check_fuel(), Ok(()));
}

#[test]
fn time_follows_consumed_fuel() {
    let mut clock = VirtualClock::new(1_000);
    assert_eq!(clock.setup_current_time(20_000), Ok(0));
    assert_eq!(clock.setup_current_time(19_999), Ok(1));
    assert_eq!(clock.setup_current_time(19_980), Ok(1));
    assert_eq!(clock.setup_current_time(19_979), Ok(2));
    assert_eq!(clock.setup_current_time(20), Ok(999));
    assert_eq!(clock.setup_current_time(19), Ok(1_000));
    assert_eq!(clock.setup_current_time(1), Ok(1_000));
}

#[test]
fn no_fuel_left_is_out_of_fuel() {
    let mut clock = VirtualClock::new(1_000);
    assert_eq!(clock.setup_current_time(0), Err(HostError::OutOfFuel));
    assert_eq!(clock.check_fuel(), Err(HostError::OutOfFuel));
    assert_eq!(clock.current_time(), Err(HostError::OutOfFuel));
}

#[test]
fn skipping_all_remaining_fuel_is_out_of_fuel() {
    let mut clock = VirtualClock::new(1_000);
    assert_eq!(clock.skip_time(999), Ok(()));
    assert_eq!(clock.current_time(), Ok(999));
    assert_eq!(clock.skip_time(1), Err(HostError::OutOfFuel));
    assert_eq!(clock.skipped_fuel(), 20_000);
}

#[test]
fn skip_time_advances_by_the_time_skipped() {
    let mut clock = VirtualClock::new(1_000_000);
    assert_eq!(clock.skip_time(250), Ok(()));
    assert_eq!(clock.skipped_fuel(), 5_000);
    assert_eq!(clock.current_time(), Ok(250));
    assert_eq!(clock.skip_fuel(10), Ok(()));
    assert_eq!(clock.skipped_fuel(), 5_010);
    assert_eq!(clock.current_time(), Ok(251));
    assert_eq!(clock.skip_fuel(10), Ok(()));
    assert_eq!(clock.current_time(), Ok(251));
    assert_eq!(clock.skip_fuel(1), Ok(()));
    assert_eq!(clock.current_time(), Ok(252));
}

#[test]
fn skipped_fuel_saturates() {
    let mut clock = VirtualClock::new(1_000);
    assert_eq!(clock.skip_fuel(u64::MAX), Err(HostError::OutOfFuel));
    assert_eq!(clock.skip_fuel(u64::MAX), Err(HostError::OutOfFuel));
    assert_eq!(clock.skipped_fuel(), u64::MAX);
}

#[test]
fn set_current_time_lands_exactly() {
    let mut clock = VirtualClock::new(60_000_000);
    assert_eq!(clock.setup_current_time(1_199_999_987), Ok(1));
    assert_eq!(clock.set_current_time(1_000_000), Ok(()));
    assert_eq!(clock.current_time(), Ok(1_000_000));
    assert_eq!(clock.skipped_fuel(), 1_199_999_987 - fuel_for_time_us(59_000_000));
}

#[test]
fn set_current_time_at_the_very_start() {
    let mut clock = VirtualClock::new(1_000);
    assert_eq!(clock.set_current_time(0), Ok(()));
    assert_eq!(clock.skipped_fuel(), 0);
    assert_eq!(clock.current_time(), Ok(0));
}

#[test]
fn set_current_time_rejects_the_end_of_the_run() {
    let mut clock = VirtualClock::new(1_000);
    assert_eq!(clock.set_current_time(1_000), Err(HostError::TimeOverflow));
    assert_eq!(clock.set_current_time(1_001), Err(HostError::TimeOverflow));
    assert_eq!(clock.set_current_time(u32::MAX), Err(HostError::TimeOverflow));
    assert_eq!(clock.skipped_fuel(), 0);
    assert_eq!(clock.set_current_time(999), Ok(()));
}

#[test]
fn set_current_time_cannot_undo_consumed_fuel() {
    let mut clock = VirtualClock::new(1_000);
    assert_eq!(clock.setup_current_time(10_000), Ok(500));
    assert_eq!(clock.set_current_time(499), Err(HostError::OutOfFuel));
    assert_eq!(clock.skipped_fuel(), 0);
    assert_eq!(clock.set_current_time(500), Ok(()));
    assert_eq!(clock.skipped_fuel(), 0);
}

#[test]
fn fuel_is_conserved_on_whole_microseconds() {
    let total: u32 = 60_000_000;
    let mut clock = VirtualClock::new(total);
    let remaining: u64 = 1_000_000_000;
    let now = clock.setup_current_time(remaining).unwrap();
    assert_eq!(clock.skip_time(1_234), Ok(()));
    let now = clock.current_time().unwrap().max(now);
    let consumed = fuel_for_time_us(total) - clock.current_fuel();
    assert_eq!(consumed + clock.skipped_fuel(), fuel_for_time_us(now));
}

#[test]
fn fuel_accounting_is_within_one_microsecond() {
    let total: u32 = 1_000;
    for remaining in [20_000u64, 19_999, 19_990, 19_981, 12_345, 21, 20, 1] {
        let mut clock = VirtualClock::new(total);
        let now = clock.setup_current_time(remaining).unwrap();
        let consumed = fuel_for_time_us(total) - remaining;
        assert!(consumed <= fuel_for_time_us(now));
        assert!(fuel_for_time_us(now) < consumed + 20);
    }
}

#[test]
fn time_never_goes_back_while_fuel_shrinks() {
    let mut clock = VirtualClock::new(10_000);
    let mut last = 0;
    for remaining in [200_000u64, 199_000, 199_000, 150_000, 149_999, 2_000, 1_500] {
        let now = clock.setup_current_time(remaining).unwrap();
        assert!(now >= last);
        last = now;
        if now < 5_000 {
            clock.skip_time(10).unwrap();
            let after = clock.current_time().unwrap();
            assert!(after >= last);
            last = after;
        }
    }
    assert_eq!(clock.skipped_fuel(), 1_000);
    assert_eq!(last, 9_975);
}

#[test]
fn accepts_fuel_up_to_the_total() {
    let clock = VirtualClock::new(1_000);
    assert!(clock.accepts_fuel(0));
    assert!(clock.accepts_fuel(20_000));
    assert!(!clock.accepts_fuel(20_001));
}

#[test]
fn error_messages() {
    assert_eq!(HostError::OutOfFuel.message(), "Insufficient fuel");
    assert_eq!(
        HostError::TimeOverflow.message(),
        "Cannot advance time beyond total simulation time"
    );
    assert_eq!(
        HostError::InvalidOperation.message(),
        "Operation cannot be performed immediately"
    );
}
