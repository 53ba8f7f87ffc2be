//! The record of one run: samples taken at every physics tick, and the
//! timestamps of the run.

use vstd::prelude::*;
use crate::activity::ActivityData;

verus! {

/// The side of the robot a wheel is on.
#[derive(Clone, Copy, Debug, PartialEq, Eq, Structural)]
pub enum WheelDataSide {
    Left,
    Right,
}

impl WheelDataSide {
    /// One-letter label of the side.
    pub fn label(&self) -> (r: &'static str)
        ensures
            r@ == match *self {
                WheelDataSide::Left => "L"@,
                WheelDataSide::Right => "R"@,
            },
    {
        match self {
            WheelDataSide::Left => "L",
            WheelDataSide::Right => "R",
        }
    }
}

/// The frame that holds the sample of `time_us`, in a record of `len` frames
/// taken every `period_us`: the frame the time falls into, or the last one
/// if the time lies past the record.
pub open spec fn frame_at(period_us: int, len: int, time_us: int) -> int {
    if time_us / period_us >= len {
        len - 1
    } else {
        time_us / period_us
    }
}

/// Locates the frame of `time_us` in a record of `len` frames.
pub fn frame_index(period_us: u32, len: usize, time_us: u64) -> (r: usize)
    requires
        period_us > 0,
        len > 0,
    ensures
        r == frame_at(period_us as int, len as int, time_us as int),
        r < len,
{
    let frame: u64 = time_us / (period_us as u64);
    if frame >= len as u64 {
        len - 1
    } else {
        frame as usize
    }
}

/// Body poses of one run, one per tick.
pub struct BodyExecutionData<T> {
    pub period: u32,
    pub steps: Vec<T>,
}

impl<T: Copy> BodyExecutionData<T> {
    pub fn empty(period: u32) -> (r: Self)
        ensures
            r.period == period,
            r.steps@.len() == 0,
    {
        BodyExecutionData { period, steps: Vec::new() }
    }

    /// Appends the sample of the next tick.
    pub fn record(&mut self, sample: T)
        ensures
            final(self).period == old(self).period,
            final(self).steps@ == old(self).steps@.push(sample),
    {
        self.steps.push(sample);
    }

    /// The sample stored for `time_us`, if the record holds any.
    pub fn at_time_us(&self, time_us: u64) -> (r: Option<T>)
        requires
            self.period > 0,
        ensures
            self.steps@.len() == 0 ==> r is None,
            self.steps@.len() > 0 ==> r == Some(
                self.steps@[frame_at(self.period as int, self.steps@.len() as int, time_us as int)],
            ),
    {
        if self.steps.len() == 0 {
            None
        } else {
            let index: usize = frame_index(self.period, self.steps.len(), time_us);
            Some(self.steps[index])
        }
    }
}

/// Angles of one wheel over one run, one per tick.
pub struct WheelExecutionData<A> {
    pub period: u32,
    pub side: WheelDataSide,
    pub steps: Vec<A>,
}

impl<A: Copy> WheelExecutionData<A> {
    pub fn empty(period: u32, side: WheelDataSide) -> (r: Self)
        ensures
            r.period == period,
            r.side == side,
            r.steps@.len() == 0,
    {
        WheelExecutionData { period, side, steps: Vec::new() }
    }

    /// Appends the sample of the next tick.
    pub fn record(&mut self, sample: A)
        ensures
            final(self).period == old(self).period,
            final(self).side == old(self).side,
            final(self).steps@ == old(self).steps@.push(sample),
    {
        self.steps.push(sample);
    }

    /// The sample stored for `time_us`, if the record holds any.
    pub fn at_time_us(&self, time_us: u64) -> (r: Option<A>)
        requires
            self.period > 0,
        ensures
            self.steps@.len() == 0 ==> r is None,
            self.steps@.len() > 0 ==> r == Some(
                self.steps@[frame_at(self.period as int, self.steps@.len() as int, time_us as int)],
            ),
    {
        if self.steps.len() == 0 {
            None
        } else {
            let index: usize = frame_index(self.period, self.steps.len(), time_us);
            Some(self.steps[index])
        }
    }
}

/// Everything recorded of one run.
pub struct ExecutionData<T, A> {
    pub body_data: BodyExecutionData<T>,
    pub left_wheel_data: WheelExecutionData<A>,
    pub right_wheel_data: WheelExecutionData<A>,
    pub activity_data: ActivityData,
}

impl<T: Copy, A: Copy> ExecutionData<T, A> {
    pub fn empty(period: u32) -> (r: Self)
        ensures
            r.body_data.period == period,
            r.left_wheel_data.period == period,
            r.right_wheel_data.period == period,
            r.left_wheel_data.side == WheelDataSide::Left,
            r.right_wheel_data.side == WheelDataSide::Right,
            r.body_data.steps@.len() == 0,
            r.left_wheel_data.steps@.len() == 0,
            r.right_wheel_data.steps@.len() == 0,
            r.activity_data == (ActivityData {
                start_time_us: None,
                out_time_us: None,
                end_time_us: None,
            }),
    {
        ExecutionData {
            body_data: BodyExecutionData::empty(period),
            left_wheel_data: WheelExecutionData::empty(period, WheelDataSide::Left),
            right_wheel_data: WheelExecutionData::empty(period, WheelDataSide::Right),
            activity_data: ActivityData::empty(),
        }
    }

    /// Stores the samples of one tick: the body pose and both wheel angles.
    pub fn record_tick(&mut self, body: T, left_wheel: A, right_wheel: A)
        ensures
            final(self).body_data.period == old(self).body_data.period,
            final(self).left_wheel_data.period == old(self).left_wheel_data.period,
            final(self).right_wheel_data.period == old(self).right_wheel_data.period,
            final(self).left_wheel_data.side == old(self).left_wheel_data.side,
            final(self).right_wheel_data.side == old(self).right_wheel_data.side,
            final(self).body_data.steps@ == old(self).body_data.steps@.push(body),
            final(self).left_wheel_data.steps@ == old(self).left_wheel_data.steps@.push(left_wheel),
            final(self).right_wheel_data.steps@ == old(self).right_wheel_data.steps@.push(
                right_wheel,
            ),
            final(self).activity_data == old(self).activity_data,
    {
        self.body_data.record(body);
        self.left_wheel_data.record(left_wheel);
        self.right_wheel_data.record(right_wheel);
    }
}

} // verus!
