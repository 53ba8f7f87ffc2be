//! The interface between the host and the fixed-step physics simulation.

use vstd::prelude::*;
use crate::clock::TimeUs;
use crate::sensors::{GyroData, ImuFusedData, MotorAngles, MotorDriversDutyCycles};

verus! {

/// A physics world that advances in ticks of a fixed period and exposes the
/// robot's latest sensor snapshot.
///
/// The snapshot is taken once per tick and stays as it is until the next
/// `step`; every reader returns the corresponding part of it.
pub trait SimulationStepper: Sized {
    /// What every stepper keeps true of itself: a positive period, and a time
    /// that fits the clock's range and is that of the ticks performed.
    spec fn inv(&self) -> bool;

    /// Tick period in microseconds.
    spec fn period_us(&self) -> int;

    /// Simulated time reached so far, in microseconds.
    spec fn time_us(&self) -> int;

    /// Number of ticks performed so far.
    spec fn ticks(&self) -> int;

    /// Reflectance of the eight left line sensors, 0 to 255.
    spec fn line_left(&self) -> Seq<u8>;

    /// Reflectance of the eight right line sensors, 0 to 255.
    spec fn line_right(&self) -> Seq<u8>;

    spec fn angles(&self) -> MotorAngles;

    spec fn gyro(&self) -> GyroData;

    spec fn imu(&self) -> ImuFusedData;

    /// State of the `enabled` signal.
    spec fn active(&self) -> bool;

    /// The duty cycles last handed to the motor drivers.
    spec fn duty_cycles(&self) -> MotorDriversDutyCycles;

    proof fn lemma_inv(&self)
        requires
            self.inv(),
        ensures
            0 < self.period_us() <= u32::MAX,
            0 <= self.ticks() <= self.time_us() <= u32::MAX,
            self.time_us() == self.ticks() * self.period_us(),
            self.line_left().len() == 8,
            self.line_right().len() == 8,
    ;

    /// Get time per step in microseconds.
    fn step_us(&self) -> (r: u32)
        requires
            self.inv(),
        ensures
            r == self.period_us(),
    ;

    /// Perform a single simulation step.
    fn step(&mut self)
        requires
            old(self).inv(),
            old(self).time_us() + old(self).period_us() <= u32::MAX,
        ensures
            final(self).inv(),
            final(self).period_us() == old(self).period_us(),
            final(self).time_us() == old(self).time_us() + old(self).period_us(),
            final(self).ticks() == old(self).ticks() + 1,
            final(self).duty_cycles() == old(self).duty_cycles(),
    ;

    /// Get the current simulation time in microseconds.
    fn get_time_us(&self) -> (r: u32)
        requires
            self.inv(),
        ensures
            r == self.time_us(),
    ;

    /// Get the time that the simulation will reach at the next step.
    fn get_time_us_at_next_step(&self) -> (r: u32)
        requires
            self.inv(),
            self.time_us() + self.period_us() <= u32::MAX,
        ensures
            r == self.time_us() + self.period_us(),
    {
        self.get_time_us() + self.step_us()
    }

    /// Get the first tick boundary at or after `time_us`.
    fn get_time_us_at_next_step_after(&self, time_us: u32) -> (r: u32)
        requires
            self.inv(),
            next_tick_at_or_after(time_us as int, self.period_us()) <= u32::MAX,
        ensures
            r == next_tick_at_or_after(time_us as int, self.period_us()),
    {
        proof {
            self.lemma_inv();
        }
        let period: u32 = self.step_us();
        let stray_time: u32 = time_us % period;
        assert(stray_time <= time_us) by (nonlinear_arith)
            requires
                stray_time == time_us % period,
                0 < period,
        ;
        if stray_time == 0 {
            time_us
        } else {
            time_us - stray_time + period
        }
    }

    /// Get the time that the simulation will reach after the given number of steps.
    fn get_time_after_steps_us(&self, steps: u32) -> (r: u32)
        requires
            self.inv(),
            self.time_us() + steps * self.period_us() <= u32::MAX,
        ensures
            r == self.time_us() + steps * self.period_us(),
    {
        proof {
            self.lemma_inv();
        }
        self.get_time_us() + steps * self.step_us()
    }

    /// Perform steps to reach the required time: steps while the next tick
    /// is not after `target_time_us`.
    fn step_until_time_us(&mut self, target_time_us: u32)
        requires
            old(self).inv(),
        ensures
            final(self).inv(),
            final(self).period_us() == old(self).period_us(),
            final(self).duty_cycles() == old(self).duty_cycles(),
            old(self).time_us() + old(self).period_us() > target_time_us ==> final(self).time_us() == old(self).time_us() && final(self).ticks() == old(self).ticks(),
            old(self).time_us() + old(self).period_us() <= target_time_us ==> {
                &&& old(self).time_us() < final(self).time_us() <= target_time_us
                &&& target_time_us < final(self).time_us() + final(self).period_us()
                &&& final(self).time_us() == last_tick_at_or_before(
                    target_time_us as int,
                    final(self).period_us(),
                )
            },
    {
        proof {
            self.lemma_inv();
        }
        while self.get_time_us() as u64 + self.step_us() as u64 <= target_time_us as u64
            invariant
                self.inv(),
                self.period_us() == old(self).period_us(),
                self.duty_cycles() == old(self).duty_cycles(),
                0 < self.period_us(),
                old(self).time_us() <= self.time_us() <= u32::MAX,
                self.time_us() == old(self).time_us() ==> self.ticks() == old(self).ticks(),
                self.time_us() > old(self).time_us() ==> old(self).time_us() + old(self).period_us() <= target_time_us && self.time_us() <= target_time_us,
            decreases target_time_us - self.time_us(),
        {
            self.step();
            proof {
                self.lemma_inv();
            }
        }
        proof {
            self.lemma_inv();
            if self.time_us() > old(self).time_us() {
                lemma_last_tick_unique(
                    self.time_us(),
                    self.ticks(),
                    self.period_us(),
                    target_time_us as int,
                );
            }
        }
    }

    /// Get the simulated steps count.
    fn get_step_count(&self) -> (r: usize)
        requires
            self.inv(),
        ensures
            r == self.ticks(),
    ;

    /// Get the current state of the left line sensors.
    fn get_line_sensors_left(&self) -> (r: [u8; 8])
        requires
            self.inv(),
        ensures
            r@ == self.line_left(),
    ;

    /// Get the current state of the right line sensors.
    fn get_line_sensors_right(&self) -> (r: [u8; 8])
        requires
            self.inv(),
        ensures
            r@ == self.line_right(),
    ;

    /// Get the current motor angles.
    fn get_motor_angles(&self) -> (r: MotorAngles)
        requires
            self.inv(),
        ensures
            r == self.angles(),
    ;

    /// Get the current gyroscope data.
    fn get_gyro(&self) -> (r: GyroData)
        requires
            self.inv(),
        ensures
            r == self.gyro(),
    ;

    /// Get the current IMU fused data.
    fn get_imu_fused_data(&self) -> (r: ImuFusedData)
        requires
            self.inv(),
        ensures
            r == self.imu(),
    ;

    /// Set motor drivers duty cycles; the snapshot and the time stay as they are.
    fn set_motor_drivers_duty_cycles(&mut self, duty_cycles: MotorDriversDutyCycles)
        requires
            old(self).inv(),
        ensures
            final(self).inv(),
            final(self).duty_cycles() == duty_cycles,
            final(self).period_us() == old(self).period_us(),
            final(self).time_us() == old(self).time_us(),
            final(self).ticks() == old(self).ticks(),
            final(self).line_left() == old(self).line_left(),
            final(self).line_right() == old(self).line_right(),
            final(self).angles() == old(self).angles(),
            final(self).gyro() == old(self).gyro(),
            final(self).imu() == old(self).imu(),
            final(self).active() == old(self).active(),
    ;

    /// Whether the `enabled` signal is on.
    fn is_active(&self) -> (r: bool)
        requires
            self.inv(),
        ensures
            r == self.active(),
    ;
}

/// The first multiple-of-`period` offset from time zero that is not before
/// `time_us`.
pub open spec fn next_tick_at_or_after(time_us: int, period: int) -> int {
    if time_us % period == 0 {
        time_us
    } else {
        time_us - time_us % period + period
    }
}

/// The next tick boundary is a multiple of the period, is not before the
/// time asked for, and is less than one period after it.
pub proof fn lemma_next_tick(time_us: int, period: int)
    requires
        0 <= time_us,
        0 < period,
    ensures
        next_tick_at_or_after(time_us, period) % period == 0,
        time_us <= next_tick_at_or_after(time_us, period) < time_us + period,
{
    let r = time_us % period;
    let q = time_us / period;
    assert(time_us == q * period + r && 0 <= r < period) by (nonlinear_arith)
        requires
            r == time_us % period,
            q == time_us / period,
            0 < period,
    ;
    if r != 0 {
        assert((q * period + period) % period == 0) by (nonlinear_arith)
            requires
                0 < period,
        ;
    }
}

/// The last multiple-of-`period` offset from time zero that is not after
/// `time_us`.
pub open spec fn last_tick_at_or_before(time_us: int, period: int) -> int {
    time_us - time_us % period
}

/// A tick that is not before `time_us` and less than one period after it is
/// the next tick boundary.
pub proof fn lemma_next_tick_unique(tick_time: int, ticks: int, period: int, time_us: int)
    requires
        0 < period,
        0 <= time_us,
        tick_time == ticks * period,
        time_us <= tick_time < time_us + period,
    ensures
        tick_time == next_tick_at_or_after(time_us, period),
{
    let q = time_us / period;
    let r = time_us % period;
    assert(time_us == q * period + r && 0 <= r < period) by (nonlinear_arith)
        requires
            r == time_us % period,
            q == time_us / period,
            0 < period,
    ;
    if r == 0 {
        assert(ticks == q) by (nonlinear_arith)
            requires
                q * period <= ticks * period < q * period + period,
                0 < period,
        ;
    } else {
        assert(ticks == q + 1) by (nonlinear_arith)
            requires
                q * period + r <= ticks * period < q * period + r + period,
                0 < r < period,
        ;
        assert((q + 1) * period == q * period + period) by (nonlinear_arith);
    }
}

/// A tick that is not after `time_us` and less than one period before it is
/// the last tick boundary.
pub proof fn lemma_last_tick_unique(tick_time: int, ticks: int, period: int, time_us: int)
    requires
        0 < period,
        0 <= time_us,
        tick_time == ticks * period,
        tick_time <= time_us < tick_time + period,
    ensures
        tick_time == last_tick_at_or_before(time_us, period),
{
    let q = time_us / period;
    let r = time_us % period;
    assert(time_us == q * period + r && 0 <= r < period) by (nonlinear_arith)
        requires
            r == time_us % period,
            q == time_us / period,
            0 < period,
    ;
    assert(ticks == q) by (nonlinear_arith)
        requires
            ticks * period <= q * period + r < ticks * period + period,
            0 <= r < period,
    ;
}

/// Of two tick boundaries the later one is at least one period later.
pub proof fn lemma_ticks_apart(tick_time: int, ticks: int, period: int, later_tick: int)
    requires
        0 < period,
        tick_time == ticks * period,
        later_tick % period == 0,
        tick_time < later_tick,
    ensures
        tick_time + period <= later_tick,
{
    let q = later_tick / period;
    assert(later_tick == q * period) by (nonlinear_arith)
        requires
            q == later_tick / period,
            later_tick % period == 0,
            0 < period,
    ;
    assert(ticks + 1 <= q) by (nonlinear_arith)
        requires
            ticks * period < q * period,
            0 < period,
    ;
    assert((ticks + 1) * period <= q * period) by (nonlinear_arith)
        requires
            ticks + 1 <= q,
            0 < period,
    ;
    assert((ticks + 1) * period == ticks * period + period) by (nonlinear_arith);
}

} // verus!
