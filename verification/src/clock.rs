//! The fuel-based virtual clock.
//!
//! Guest time is a function of fuel alone: the guest starts with the fuel of
//! the whole simulated duration, and the time it observes is what the fuel
//! that is left, less the fuel the host has skipped, still has to pay for.

use vstd::prelude::*;

verus! {

/// Time represented as microseconds.
pub type TimeUs = u32;

/// Nanoseconds of simulated time bought by one unit of fuel.
pub const FUEL_UNIT_NS: u64 = 50;

/// Faults of the virtual clock and of the host imports built on it.
#[derive(Clone, Copy, Debug, PartialEq, Eq, Structural)]
pub enum HostError {
    /// No fuel is left once the skipped fuel is taken off.
    OutOfFuel,
    /// The clock was asked to reach or pass the end of the simulation.
    TimeOverflow,
    /// The operation cannot be served without waiting.
    InvalidOperation,
}

impl HostError {
    /// A short fixed description of the fault.
    pub fn message(&self) -> (r: &'static str)
        ensures
            r@ == match *self {
                HostError::OutOfFuel => "Insufficient fuel"@,
                HostError::TimeOverflow => "Cannot advance time beyond total simulation time"@,
                HostError::InvalidOperation => "Operation cannot be performed immediately"@,
            },
    {
        match self {
            HostError::OutOfFuel => "Insufficient fuel",
            HostError::TimeOverflow => "Cannot advance time beyond total simulation time",
            HostError::InvalidOperation => "Operation cannot be performed immediately",
        }
    }
}

/// Fuel that pays for `time_us` microseconds: twenty units each, at
/// `FUEL_UNIT_NS` nanoseconds per unit.
pub open spec fn fuel_of_time(time_us: int) -> int {
    20 * time_us
}

/// Whole microseconds paid for by `fuel`.
pub open spec fn time_of_fuel(fuel: int) -> int {
    fuel / 20
}

/// Turning time into fuel and back loses nothing; turning fuel into time
/// drops what does not make up a whole microsecond.
pub proof fn lemma_fuel_time(time_us: int, fuel: int)
    ensures
        time_of_fuel(fuel_of_time(time_us)) == time_us,
        fuel_of_time(time_of_fuel(fuel)) <= fuel < fuel_of_time(time_of_fuel(fuel)) + 20,
{
}

pub fn fuel_for_time_us(time_us: TimeUs) -> (r: u64)
    ensures
        r == fuel_of_time(time_us as int),
{
    let nanos: u64 = time_us as u64 * 1000;
    nanos / FUEL_UNIT_NS
}

pub fn time_us_for_fuel(fuel: u64) -> (r: TimeUs)
    requires
        time_of_fuel(fuel as int) <= u32::MAX,
    ensures
        r == time_of_fuel(fuel as int),
{
    let nanos: u64 = fuel * FUEL_UNIT_NS;
    (nanos / 1000) as TimeUs
}

/// The time shown by a clock of a run of `total_time` microseconds when
/// `fuel_left` is left and `fuel_skipped` has been skipped: the end of the run
/// less the time that the fuel still to be spent pays for.
pub open spec fn clock_time(total_time: int, fuel_left: int, fuel_skipped: int) -> int {
    if fuel_left > fuel_skipped {
        total_time - time_of_fuel(fuel_left - fuel_skipped)
    } else {
        total_time
    }
}

/// The clock of one run.
///
/// `current_fuel` is the fuel that the guest runtime last reported as left;
/// `skipped_fuel` is what the host has charged on top for waiting and for its
/// own work.
pub struct VirtualClock {
    total_simulation_time: TimeUs,
    current_fuel: u64,
    skipped_fuel: u64,
}

impl VirtualClock {
    pub closed spec fn total_time(&self) -> int {
        self.total_simulation_time as int
    }

    pub closed spec fn fuel_left(&self) -> int {
        self.current_fuel as int
    }

    pub closed spec fn fuel_skipped(&self) -> int {
        self.skipped_fuel as int
    }

    /// Fuel of the whole run.
    pub open spec fn total_fuel(&self) -> int {
        fuel_of_time(self.total_time())
    }

    /// Fuel the guest has burnt so far.
    pub open spec fn fuel_consumed(&self) -> int {
        self.total_fuel() - self.fuel_left()
    }

    /// The runtime never reports more fuel than the run started with.
    pub open spec fn wf(&self) -> bool {
        self.fuel_left() <= self.total_fuel()
    }

    /// Whether any fuel is left once the skipped fuel is taken off.
    pub open spec fn has_fuel(&self) -> bool {
        self.fuel_left() > self.fuel_skipped()
    }

    /// Fuel still to be spent: what is left less what was skipped, never negative.
    pub open spec fn effective_fuel(&self) -> int {
        if self.has_fuel() {
            self.fuel_left() - self.fuel_skipped()
        } else {
            0
        }
    }

    /// Whether the clock stands exactly on a microsecond: the fuel still to
    /// be spent pays for the rest of the run, with nothing over.
    pub open spec fn on_the_microsecond(&self) -> bool {
        self.fuel_left() - self.fuel_skipped() == fuel_of_time(self.total_time() - self.now())
    }

    /// The virtual time in microseconds; the end of the run once the fuel is gone.
    pub open spec fn now(&self) -> int {
        clock_time(self.total_time(), self.fuel_left(), self.fuel_skipped())
    }

    /// The time shown lies within the run, and the run within the clock's range.
    pub proof fn lemma_time_range(&self)
        requires
            self.wf(),
        ensures
            0 <= self.now() <= self.total_time() <= u32::MAX,
            0 <= self.fuel_left() <= u64::MAX,
            0 <= self.fuel_skipped() <= u64::MAX,
    {
    }

    /// A clock at time zero with the fuel of `total_simulation_time`.
    pub fn new(total_simulation_time: TimeUs) -> (r: Self)
        ensures
            r.wf(),
            r.total_time() == total_simulation_time,
            r.fuel_left() == fuel_of_time(total_simulation_time as int),
            r.fuel_skipped() == 0,
            r.now() == 0,
    {
        VirtualClock {
            total_simulation_time,
            current_fuel: fuel_for_time_us(total_simulation_time),
            skipped_fuel: 0,
        }
    }

    pub fn total_simulation_time(&self) -> (r: TimeUs)
        ensures
            r == self.total_time(),
    {
        self.total_simulation_time
    }

    pub fn current_fuel(&self) -> (r: u64)
        ensures
            r == self.fuel_left(),
    {
        self.current_fuel
    }

    pub fn skipped_fuel(&self) -> (r: u64)
        ensures
            r == self.fuel_skipped(),
    {
        self.skipped_fuel
    }

    /// Whether `current_fuel` may be reported to this clock.
    pub fn accepts_fuel(&self, current_fuel: u64) -> (r: bool)
        ensures
            r == (current_fuel <= self.total_fuel()),
    {
        current_fuel <= fuel_for_time_us(self.total_simulation_time)
    }

    pub fn check_fuel(&self) -> (r: Result<(), HostError>)
        ensures
            r is Ok <==> self.has_fuel(),
            r is Err ==> r == Err::<(), HostError>(HostError::OutOfFuel),
    {
        if self.current_fuel <= self.skipped_fuel {
            return Err(HostError::OutOfFuel);
        }
        Ok(())
    }

    /// Records the fuel that the runtime reports and reads the clock.
    pub fn setup_current_time(&mut self, current_fuel: u64) -> (r: Result<TimeUs, HostError>)
        requires
            current_fuel <= old(self).total_fuel(),
        ensures
            final(self).wf(),
            final(self).total_time() == old(self).total_time(),
            final(self).fuel_left() == current_fuel,
            final(self).fuel_skipped() == old(self).fuel_skipped(),
            r is Ok <==> final(self).has_fuel(),
            r is Ok ==> r == Ok::<TimeUs, HostError>(final(self).now() as u32),
            r is Err ==> r == Err::<TimeUs, HostError>(HostError::OutOfFuel),
            current_fuel <= old(self).fuel_left() ==> final(self).now() >= old(self).now(),
            0 <= final(self).now() <= final(self).total_time() <= u32::MAX,
    {
        self.current_fuel = current_fuel;
        self.current_time()
    }

    /// Reads the clock.
    pub fn current_time(&self) -> (r: Result<TimeUs, HostError>)
        requires
            self.wf(),
        ensures
            r is Ok <==> self.has_fuel(),
            r is Ok ==> r == Ok::<TimeUs, HostError>(self.now() as u32),
            r is Err ==> r == Err::<TimeUs, HostError>(HostError::OutOfFuel),
            0 <= self.now() <= self.total_time(),
    {
        if self.current_fuel <= self.skipped_fuel {
            return Err(HostError::OutOfFuel);
        }
        let remaining_fuel: u64 = self.current_fuel - self.skipped_fuel;
        Ok(self.total_simulation_time - time_us_for_fuel(remaining_fuel))
    }

    /// Charges `fuel` on top of what the guest has burnt.
    pub fn skip_fuel(&mut self, fuel: u64) -> (r: Result<(), HostError>)
        ensures
            final(self).total_time() == old(self).total_time(),
            final(self).fuel_left() == old(self).fuel_left(),
            final(self).fuel_skipped() == if old(self).fuel_skipped() + fuel <= u64::MAX {
                old(self).fuel_skipped() + fuel
            } else {
                u64::MAX as int
            },
            r is Ok <==> final(self).has_fuel(),
            r is Err ==> r == Err::<(), HostError>(HostError::OutOfFuel),
            final(self).now() >= old(self).now(),
    {
        self.skipped_fuel = if fuel <= u64::MAX - self.skipped_fuel {
            self.skipped_fuel + fuel
        } else {
            u64::MAX
        };
        self.check_fuel()
    }

    /// Charges the fuel of `time` microseconds.
    pub fn skip_time(&mut self, time: TimeUs) -> (r: Result<(), HostError>)
        ensures
            final(self).total_time() == old(self).total_time(),
            final(self).fuel_left() == old(self).fuel_left(),
            final(self).fuel_skipped() == if old(self).fuel_skipped() + fuel_of_time(time as int)
                <= u64::MAX {
                old(self).fuel_skipped() + fuel_of_time(time as int)
            } else {
                u64::MAX as int
            },
            r is Ok <==> final(self).has_fuel(),
            r is Err ==> r == Err::<(), HostError>(HostError::OutOfFuel),
            final(self).now() >= old(self).now(),
            r is Ok && old(self).effective_fuel() % 20 == 0 ==> final(self).now() == old(self).now()
                + time,
    {
        self.skip_fuel(fuel_for_time_us(time))
    }

    /// Moves the clock to `time` by choosing the skipped fuel that lands on it.
    pub fn set_current_time(&mut self, time: TimeUs) -> (r: Result<(), HostError>)
        ensures
            final(self).total_time() == old(self).total_time(),
            final(self).fuel_left() == old(self).fuel_left(),
            r == Err::<(), HostError>(HostError::TimeOverflow) <==> time >= old(self).total_time(),
            r == Err::<(), HostError>(HostError::OutOfFuel) <==> time < old(self).total_time()
                && fuel_of_time(old(self).total_time() - time) > old(self).fuel_left(),
            r is Err ==> final(self).fuel_skipped() == old(self).fuel_skipped(),
            r is Err ==> r == Err::<(), HostError>(HostError::TimeOverflow) || r == Err::<
                (),
                HostError,
            >(HostError::OutOfFuel),
            r is Ok ==> final(self).fuel_skipped() == old(self).fuel_left() - fuel_of_time(
                old(self).total_time() - time,
            ),
            r is Ok ==> final(self).has_fuel() && final(self).now() == time,
            r is Ok ==> final(self).effective_fuel() % 20 == 0,
            r is Ok ==> final(self).on_the_microsecond(),
            old(self).wf() && old(self).has_fuel() && old(self).now() <= time ==> {
                &&& !(r == Err::<(), HostError>(HostError::OutOfFuel))
                &&& final(self).fuel_skipped() >= old(self).fuel_skipped()
            },
    {
        if time >= self.total_simulation_time {
            return Err(HostError::TimeOverflow);
        }
        let remaining_time: TimeUs = self.total_simulation_time - time;
        let remaining_fuel: u64 = fuel_for_time_us(remaining_time);
        if remaining_fuel > self.current_fuel {
            return Err(HostError::OutOfFuel);
        }
        self.skipped_fuel = self.current_fuel - remaining_fuel;
        self.check_fuel()
    }
}

/// Fuel burnt and fuel skipped together never exceed the fuel of the time
/// shown, and fall short of it by less than one microsecond's worth.
pub proof fn lemma_fuel_accounting(clock: VirtualClock)
    requires
        clock.wf(),
        clock.has_fuel(),
    ensures
        clock.fuel_consumed() + clock.fuel_skipped() <= fuel_of_time(clock.now()),
        fuel_of_time(clock.now()) < clock.fuel_consumed() + clock.fuel_skipped() + 20,
{
}

/// Fuel burnt plus fuel skipped is exactly the fuel of the time shown,
/// whenever the fuel still to be spent is a whole number of microseconds.
pub proof fn lemma_fuel_conservation(clock: VirtualClock)
    requires
        clock.wf(),
        clock.has_fuel(),
        clock.effective_fuel() % 20 == 0,
    ensures
        clock.fuel_consumed() + clock.fuel_skipped() == fuel_of_time(clock.now()),
{
}

/// Between two readings of one run the clock never goes back, as long as the
/// fuel left has not grown and the skipped fuel has not shrunk.
pub proof fn lemma_time_monotonic(before: VirtualClock, after: VirtualClock)
    requires
        before.total_time() == after.total_time(),
        after.fuel_left() <= before.fuel_left(),
        after.fuel_skipped() >= before.fuel_skipped(),
    ensures
        before.now() <= after.now(),
{
}

} // verus!
