//! The three timestamps that classify a run, and what is derived from them.

use vstd::prelude::*;

verus! {

/// When the robot started racing, when it left the track, and when it
/// reached the end of the track; each in microseconds, each set at most once.
#[derive(Clone, Copy, Debug, PartialEq, Eq, Structural)]
pub struct ActivityData {
    pub start_time_us: Option<u32>,
    pub out_time_us: Option<u32>,
    pub end_time_us: Option<u32>,
}

/// What a robot is doing at a given time of its run, with the time shown
/// beside it in microseconds.
#[derive(Clone, Copy, Debug, PartialEq, Eq, Structural)]
pub enum BotStatus {
    Waiting { time_us: u32 },
    Racing { time_us: u32 },
    EndedAt { time_us: u32 },
    OutAt { time_us: u32 },
}

/// How a run ended, with the racing time in microseconds.
#[derive(Clone, Copy, Debug, PartialEq, Eq, Structural)]
pub enum BotFinalStatus {
    NotStarted,
    NotEnded,
    EndedAt { time_us: u32 },
    OutAt { time_us: u32 },
}

/// What one tick makes of the timestamps `activity`.
///
/// Before the start, a tick at or after `race_start_us` starts the race, at
/// `race_start_us`. During the race, a tick over the end of the track ends
/// it, and failing that a tick off the track puts the robot out, both at the
/// time of the tick. Nothing else changes anything.
pub open spec fn after_tick(
    activity: ActivityData,
    tick_time_us: u32,
    race_start_us: u32,
    is_out_of_track: bool,
    is_over_track_end: bool,
) -> ActivityData {
    if activity.start_time_us is None && activity.out_time_us is None && activity.end_time_us
        is None {
        if tick_time_us >= race_start_us {
            ActivityData { start_time_us: Some(race_start_us), ..activity }
        } else {
            activity
        }
    } else if activity.start_time_us is Some && activity.out_time_us is None
        && activity.end_time_us is None {
        if is_over_track_end {
            ActivityData { end_time_us: Some(tick_time_us), ..activity }
        } else if is_out_of_track {
            ActivityData { out_time_us: Some(tick_time_us), ..activity }
        } else {
            activity
        }
    } else {
        activity
    }
}

impl ActivityData {
    /// No timestamp lies before the start of the race.
    pub open spec fn ordered(&self) -> bool {
        &&& self.start_time_us is Some && self.end_time_us is Some ==> self.start_time_us->0
            <= self.end_time_us->0
        &&& self.start_time_us is Some && self.out_time_us is Some ==> self.start_time_us->0
            <= self.out_time_us->0
    }

    /// How the run ended: not started without a start; ended, with the time
    /// from start to end, if the end was reached; else out, with the time
    /// from start to leaving the track; else not ended.
    pub open spec fn final_status_of(&self) -> BotFinalStatus {
        if self.start_time_us is None {
            BotFinalStatus::NotStarted
        } else if self.end_time_us is Some {
            BotFinalStatus::EndedAt {
                time_us: (self.end_time_us->0 - self.start_time_us->0) as u32,
            }
        } else if self.out_time_us is Some {
            BotFinalStatus::OutAt { time_us: (self.out_time_us->0 - self.start_time_us->0) as u32 }
        } else {
            BotFinalStatus::NotEnded
        }
    }

    /// What the robot is doing at `time_us`.
    pub open spec fn status_of(&self, time_us: u32) -> BotStatus {
        if self.start_time_us is None || time_us < self.start_time_us->0 {
            BotStatus::Waiting { time_us }
        } else if self.end_time_us is Some && time_us > self.end_time_us->0 {
            BotStatus::EndedAt {
                time_us: (self.end_time_us->0 - self.start_time_us->0) as u32,
            }
        } else if self.out_time_us is Some && time_us > self.out_time_us->0 {
            BotStatus::OutAt { time_us: (self.out_time_us->0 - self.start_time_us->0) as u32 }
        } else {
            BotStatus::Racing { time_us: (time_us - self.start_time_us->0) as u32 }
        }
    }

    pub fn empty() -> (r: Self)
        ensures
            r == (ActivityData { start_time_us: None, out_time_us: None, end_time_us: None }),
            r.ordered(),
    {
        ActivityData { start_time_us: None, out_time_us: None, end_time_us: None }
    }

    /// Whether no timestamp is set yet: the robot still waits for the start.
    pub fn is_active_now(&self) -> (r: bool)
        ensures
            r == (self.start_time_us is None && self.out_time_us is None && self.end_time_us
                is None),
    {
        self.start_time_us.is_none() && self.out_time_us.is_none() && self.end_time_us.is_none()
    }

    /// Records what the tick at `tick_time_us` has shown. A timestamp that is
    /// set is never changed.
    pub fn update(
        &mut self,
        tick_time_us: u32,
        race_start_us: u32,
        is_out_of_track: bool,
        is_over_track_end: bool,
    )
        ensures
            *final(self) == after_tick(
                *old(self),
                tick_time_us,
                race_start_us,
                is_out_of_track,
                is_over_track_end,
            ),
            old(self).start_time_us is Some ==> final(self).start_time_us == old(self).start_time_us,
            old(self).out_time_us is Some ==> final(self).out_time_us == old(self).out_time_us,
            old(self).end_time_us is Some ==> final(self).end_time_us == old(self).end_time_us,
            old(self).ordered() && (old(self).start_time_us is Some ==> old(self).start_time_us->0
                <= tick_time_us) ==> final(self).ordered(),
    {
        if self.is_active_now() {
            if tick_time_us >= race_start_us {
                self.start_time_us = Some(race_start_us);
            }
        } else if self.start_time_us.is_some() && self.out_time_us.is_none()
            && self.end_time_us.is_none() {
            if is_over_track_end {
                self.end_time_us = Some(tick_time_us);
            } else if is_out_of_track {
                self.out_time_us = Some(tick_time_us);
            }
        }
    }

    pub fn status_at_time(&self, time_us: u32) -> (r: BotStatus)
        requires
            self.ordered(),
        ensures
            r == self.status_of(time_us),
    {
        let start: u32 = match self.start_time_us {
            Some(start) => {
                if time_us < start {
                    return BotStatus::Waiting { time_us };
                } else {
                    start
                }
            },
            None => {
                return BotStatus::Waiting { time_us };
            },
        };
        if let Some(end_us) = self.end_time_us {
            if time_us > end_us {
                return BotStatus::EndedAt { time_us: end_us - start };
            }
        }
        if let Some(out_us) = self.out_time_us {
            if time_us > out_us {
                return BotStatus::OutAt { time_us: out_us - start };
            }
        }
        BotStatus::Racing { time_us: time_us - start }
    }

    pub fn final_status(&self) -> (r: BotFinalStatus)
        requires
            self.ordered(),
        ensures
            r == self.final_status_of(),
    {
        let start_us: u32 = match self.start_time_us {
            Some(start_us) => start_us,
            None => {
                return BotFinalStatus::NotStarted;
            },
        };
        if let Some(ended_us) = self.end_time_us {
            return BotFinalStatus::EndedAt { time_us: ended_us - start_us };
        }
        if let Some(out_us) = self.out_time_us {
            return BotFinalStatus::OutAt { time_us: out_us - start_us };
        }
        BotFinalStatus::NotEnded
    }
}

impl BotStatus {
    /// The time shown beside the status.
    pub fn display_time_us(&self) -> (r: u32)
        ensures
            r == match *self {
                BotStatus::Waiting { time_us } => time_us,
                BotStatus::Racing { time_us } => time_us,
                BotStatus::EndedAt { time_us } => time_us,
                BotStatus::OutAt { time_us } => time_us,
            },
    {
        match self {
            BotStatus::Waiting { time_us } => *time_us,
            BotStatus::Racing { time_us } => *time_us,
            BotStatus::EndedAt { time_us } => *time_us,
            BotStatus::OutAt { time_us } => *time_us,
        }
    }
}

impl BotFinalStatus {
    /// Place of the kind of result in the ranking, best first.
    pub open spec fn rank_of(&self) -> int {
        match *self {
            BotFinalStatus::EndedAt { .. } => 0,
            BotFinalStatus::OutAt { .. } => 1,
            BotFinalStatus::NotEnded => 2,
            BotFinalStatus::NotStarted => 3,
        }
    }

    /// The racing time, zero where there is none.
    pub open spec fn value_of(&self) -> int {
        match *self {
            BotFinalStatus::EndedAt { time_us } => time_us as int,
            BotFinalStatus::OutAt { time_us } => time_us as int,
            _ => 0,
        }
    }

    /// Whether this result ranks strictly before `other`: by kind, and
    /// within a kind by shorter racing time.
    pub open spec fn before(&self, other: &Self) -> bool {
        self.rank_of() < other.rank_of() || (self.rank_of() == other.rank_of() && self.value_of()
            < other.value_of())
    }

    pub fn end_time(&self) -> (r: Option<u32>)
        ensures
            r == match *self {
                BotFinalStatus::NotStarted => None,
                BotFinalStatus::NotEnded => None,
                BotFinalStatus::EndedAt { time_us } => Some(time_us),
                BotFinalStatus::OutAt { time_us } => Some(time_us),
            },
    {
        match self {
            BotFinalStatus::NotStarted => None,
            BotFinalStatus::NotEnded => None,
            BotFinalStatus::EndedAt { time_us } => Some(*time_us),
            BotFinalStatus::OutAt { time_us } => Some(*time_us),
        }
    }

    pub fn kind_rank(&self) -> (r: usize)
        ensures
            r == self.rank_of(),
    {
        match self {
            BotFinalStatus::NotStarted => 3,
            BotFinalStatus::NotEnded => 2,
            BotFinalStatus::EndedAt { .. } => 0,
            BotFinalStatus::OutAt { .. } => 1,
        }
    }

    pub fn kind_value(&self) -> (r: u32)
        ensures
            r == self.value_of(),
    {
        match self {
            BotFinalStatus::NotStarted => 0,
            BotFinalStatus::NotEnded => 0,
            BotFinalStatus::EndedAt { time_us } => *time_us,
            BotFinalStatus::OutAt { time_us } => *time_us,
        }
    }

    /// Whether this result ranks strictly before `other`.
    pub fn ranks_before(&self, other: &Self) -> (r: bool)
        ensures
            r == self.before(other),
    {
        let a: usize = self.kind_rank();
        let b: usize = other.kind_rank();
        a < b || (a == b && self.kind_value() < other.kind_value())
    }
}

/// The ranking is a strict total order: nothing ranks before itself, of two
/// different results exactly one ranks before the other, and ranking before
/// carries over.
pub proof fn lemma_ranking_is_total_order(a: BotFinalStatus, b: BotFinalStatus, c: BotFinalStatus)
    ensures
        !a.before(&a),
        a != b ==> (a.before(&b) <==> !b.before(&a)),
        a.before(&b) && b.before(&c) ==> a.before(&c),
{
}

/// A timestamp that is set is never changed by a tick, whatever the tick
/// shows.
pub proof fn lemma_activity_monotonic(
    activity: ActivityData,
    tick_time_us: u32,
    race_start_us: u32,
    is_out_of_track: bool,
    is_over_track_end: bool,
)
    ensures
        ({
            let next = after_tick(
                activity,
                tick_time_us,
                race_start_us,
                is_out_of_track,
                is_over_track_end,
            );
            &&& activity.start_time_us is Some ==> next.start_time_us == activity.start_time_us
            &&& activity.out_time_us is Some ==> next.out_time_us == activity.out_time_us
            &&& activity.end_time_us is Some ==> next.end_time_us == activity.end_time_us
        }),
{
}

} // verus!
