//! The host side of one robot run: the guest's clock, the physics stepper
//! and the table of asynchronous requests, kept in step with each other.

use vstd::prelude::*;
use vstd::string::{StringExecFns, StringSliceAdditionalSpecFns};
use crate::clock::{clock_time, fuel_of_time, HostError, TimeUs, VirtualClock};
use crate::csv::{csv_text, kind_matches, lemma_offset_of_positive, CsvColumn, CvsLineHandler};
use crate::device_value::DeviceValue;
use crate::devices::{DeviceOperation, FutureHandle, MotorPower, PollError, PollOperationStatus};
use crate::futures::{
    lemma_progress_by_sweep, lemma_progress_weaken, poll_answer, polled, progressed, settled, swept,
    FutureTable, FutureValueRequest,
};
use crate::operation::{
    kind_of, readiness, ready_time, value_bytes, DeviceOperationExt, FutureOperation,
    FutureReadyCondition,
};
use crate::sensors::MotorDriversDutyCycles;
use crate::stepper::{
    last_tick_at_or_before, lemma_last_tick_unique, lemma_next_tick, lemma_next_tick_unique,
    lemma_ticks_apart, next_tick_at_or_after, SimulationStepper,
};
use crate::text::{push_zero_padded, zero_padded};

verus! {

/// Whether `operation` can be served at once from the snapshot of the last
/// tick: every read qualifies, a sleep or a wait never does.
pub open spec fn served_at_once(operation: DeviceOperation) -> bool {
    &&& !(operation is SleepFor)
    &&& !(operation is SleepUntil)
    &&& !(operation is WaitEnabled)
    &&& !(operation is WaitDisabled)
}

/// Whether a blocking call that waits for `condition` can return with the
/// stepper as it is: the stepper has reached the ready time, or the signal is
/// as awaited.
pub open spec fn wait_is_over<S: SimulationStepper>(
    condition: FutureReadyCondition,
    stepper: &S,
) -> bool {
    match condition {
        FutureReadyCondition::ReadyAt(ready_at) => stepper.time_us() >= ready_at,
        FutureReadyCondition::IsActive => stepper.active(),
        FutureReadyCondition::IsInactive => !stepper.active(),
    }
}

/// The time that the stepper has reached when a blocking call that waits
/// for the time `ready` returns: where it stands, if that is not before
/// `ready`; else the first tick boundary that is not.
pub open spec fn wake_tick(stepper_time: int, period: int, ready: int) -> int {
    if stepper_time >= ready {
        stepper_time
    } else {
        next_tick_at_or_after(ready, period)
    }
}

/// The later of two times.
pub open spec fn later(a: int, b: int) -> int {
    if a >= b {
        a
    } else {
        b
    }
}

/// A log line: the time of the call as seconds, milliseconds and
/// microseconds, then the text.
pub open spec fn log_line_text(time_us: int, text: Seq<char>) -> Seq<char> {
    zero_padded((time_us / 1_000_000) as nat, 2) + seq!['.'] + zero_padded(
        ((time_us / 1_000) % 1_000) as nat,
        3,
    ) + seq!['_'] + zero_padded((time_us % 1_000) as nat, 3) + seq![':', ' '] + text
}

/// The first `n` of `lines`, with a line end between each two.
pub open spec fn joined_lines(lines: Seq<String>, n: nat) -> Seq<char>
    decreases n,
{
    if n == 0 {
        Seq::empty()
    } else if n == 1 {
        lines[0]@
    } else {
        joined_lines(lines, (n - 1) as nat) + seq!['\n'] + lines[n - 1]@
    }
}

/// Whether `handler` is the layout of the columns of `schema`, in order.
pub open spec fn lays_out(handler: CvsLineHandler, schema: Seq<CsvColumn>) -> bool {
    &&& handler.wf()
    &&& handler.columns@.len() == schema.len()
    &&& forall|i: int|
        0 <= i < schema.len() ==> (#[trigger] handler.columns@[i]).name@ == schema[i].name@
            && kind_matches(handler.columns@[i].kind, schema[i].kind)
}

/// A CSV file to be written.
pub struct CsvFile {
    pub name: String,
    pub text: String,
}

/// What a file write leaves to be stored: the raw buffer goes under
/// `bin_name`, the decoded text, where a schema was given, under its own name.
pub struct WrittenFile {
    pub bin_name: String,
    pub csv: Option<CsvFile>,
}

/// The host of one run: it serves every import of the guest, charges the
/// guest's clock for it, and advances the physics as the clock demands.
pub struct BotHost<S: SimulationStepper> {
    stepper: S,
    clock: VirtualClock,
    has_workdir: bool,
    output_log: bool,
    log_lines: Vec<String>,
    futures: FutureTable,
    poll_loop_open: bool,
    poll_loop_delivered: bool,
}

impl<S: SimulationStepper> BotHost<S> {
    /// The physics stepper.
    pub closed spec fn stepper(&self) -> S {
        self.stepper
    }

    /// The guest's clock.
    pub closed spec fn clock(&self) -> VirtualClock {
        self.clock
    }

    /// The table of asynchronous requests.
    pub closed spec fn futures(&self) -> FutureTable {
        self.futures
    }

    /// The requests on record, by identifier.
    pub open spec fn requests(&self) -> Map<u32, FutureValueRequest> {
        self.futures().entries()
    }

    /// The log lines collected so far.
    pub closed spec fn log(&self) -> Seq<String> {
        self.log_lines@
    }

    /// Whether the run keeps its log and files.
    pub closed spec fn keeps_files(&self) -> bool {
        self.has_workdir
    }

    /// Whether log lines are echoed as they are written.
    pub closed spec fn echoes_log(&self) -> bool {
        self.output_log
    }

    /// Whether the guest has announced a poll loop that is still running.
    pub closed spec fn in_poll_loop(&self) -> bool {
        self.poll_loop_open
    }

    /// Whether a poll has handed out a value since the poll loop began.
    pub closed spec fn poll_loop_made_progress(&self) -> bool {
        self.poll_loop_delivered
    }

    pub open spec fn wf(&self) -> bool {
        &&& self.stepper().inv()
        &&& self.clock().wf()
        &&& self.futures().wf()
    }

    /// A host at time zero, with the fuel of `total_simulation_time` and no
    /// request on record.
    pub fn new(stepper: S, total_simulation_time: TimeUs, has_workdir: bool, output_log: bool) -> (r:
        Self)
        requires
            stepper.inv(),
        ensures
            r.wf(),
            r.stepper() == stepper,
            r.clock().total_time() == total_simulation_time,
            r.clock().fuel_left() == fuel_of_time(total_simulation_time as int),
            r.clock().fuel_skipped() == 0,
            r.clock().now() == 0,
            r.requests() == Map::<u32, FutureValueRequest>::empty(),
            r.futures().next_id() == 1,
            r.log() == Seq::<String>::empty(),
            r.keeps_files() == has_workdir,
            r.echoes_log() == output_log,
            !r.in_poll_loop(),
    {
        BotHost {
            stepper,
            clock: VirtualClock::new(total_simulation_time),
            has_workdir,
            output_log,
            log_lines: Vec::new(),
            futures: FutureTable::new(),
            poll_loop_open: false,
            poll_loop_delivered: false,
        }
    }

    /// The physics stepper.
    pub fn get_stepper(&self) -> (r: &S)
        ensures
            *r == self.stepper(),
    {
        &self.stepper
    }

    /// Gives the stepper back at the end of the run.
    pub fn into_stepper(self) -> (r: S)
        ensures
            r == self.stepper(),
    {
        self.stepper
    }

    /// The guest's clock.
    pub fn get_clock(&self) -> (r: &VirtualClock)
        ensures
            *r == self.clock(),
    {
        &self.clock
    }

    /// The table of asynchronous requests.
    pub fn get_futures(&self) -> (r: &FutureTable)
        ensures
            *r == self.futures(),
    {
        &self.futures
    }

    /// The log lines collected so far.
    pub fn get_log_lines(&self) -> (r: &Vec<String>)
        ensures
            r@ == self.log(),
    {
        &self.log_lines
    }

    /// What a call leaves alone unless it says otherwise: the settings of the
    /// run, the log, and the period of the stepper.
    pub open spec fn same_run(&self, before: &Self) -> bool {
        &&& self.keeps_files() == before.keeps_files()
        &&& self.echoes_log() == before.echoes_log()
        &&& self.clock().total_time() == before.clock().total_time()
        &&& self.stepper().period_us() == before.stepper().period_us()
    }

    /// The time that the guest's clock shows on entry to a call that reports
    /// `current_fuel` as left.
    pub open spec fn entry_time(&self, current_fuel: u64) -> int {
        clock_time(self.clock().total_time(), current_fuel as int, self.clock().fuel_skipped())
    }

    /// Whether any fuel is left on entry to a call that reports `current_fuel`.
    pub open spec fn entry_has_fuel(&self, current_fuel: u64) -> bool {
        current_fuel > self.clock().fuel_skipped()
    }

    /// What a call that only reads the clock leaves of the host.
    pub open spec fn only_clock_read(&self, before: &Self, current_fuel: u64) -> bool {
        &&& self.same_run(before)
        &&& self.clock().fuel_left() == current_fuel
        &&& self.clock().fuel_skipped() == before.clock().fuel_skipped()
        &&& self.stepper() == before.stepper()
        &&& self.requests() == before.requests()
        &&& self.futures().next_id() == before.futures().next_id()
        &&& self.log() == before.log()
        &&& self.in_poll_loop() == before.in_poll_loop()
        &&& self.poll_loop_made_progress() == before.poll_loop_made_progress()
    }

    /// Whether `fuel` can be reported to this host: no more than the run
    /// started with.
    pub fn accepts_fuel(&self, current_fuel: u64) -> (r: bool)
        ensures
            r == (current_fuel <= self.clock().total_fuel()),
    {
        self.clock.accepts_fuel(current_fuel)
    }

    /// Whether an identifier is left for one more asynchronous request.
    pub fn can_issue(&self) -> (r: bool)
        ensures
            r == (self.futures().next_id() < u32::MAX),
    {
        self.futures.can_issue()
    }

    /// Serves `operation` at once from the snapshot that the stepper holds,
    /// without stepping: the sensors as the last tick left them, the time
    /// of the call for a time read.
    ///
    /// Sleeps and waits are never served this way.
    pub fn device_operation_immediate(&mut self, current_fuel: u64, operation: DeviceOperation) -> (r:
        Result<DeviceValue, HostError>)
        requires
            old(self).wf(),
            current_fuel <= old(self).clock().total_fuel(),
        ensures
            final(self).wf(),
            final(self).only_clock_read(old(self), current_fuel),
            r == Err::<DeviceValue, HostError>(HostError::OutOfFuel) <==> !old(self).entry_has_fuel(current_fuel),
            r == Err::<DeviceValue, HostError>(HostError::InvalidOperation) <==> old(self).entry_has_fuel(current_fuel) && !served_at_once(operation),
            r is Ok <==> old(self).entry_has_fuel(current_fuel) && served_at_once(operation),
            r is Ok ==> r.unwrap()@ == value_bytes(
                kind_of(operation),
                &old(self).stepper(),
                old(self).entry_time(current_fuel) as u32,
            ),
            current_fuel <= old(self).clock().fuel_left() ==> old(self).clock().now() <= final(self).clock().now(),
    {
        let current_time: TimeUs = match self.clock.setup_current_time(current_fuel) {
            Ok(t) => t,
            Err(e) => {
                return Err(e);
            },
        };
        match operation {
            DeviceOperation::SleepFor(_)
            | DeviceOperation::SleepUntil(_)
            | DeviceOperation::WaitEnabled
            | DeviceOperation::WaitDisabled => {
                return Err(HostError::InvalidOperation);
            },
            _ => {},
        }
        let op: FutureOperation = FutureOperation::from(operation);
        Ok(op.compute_value(&self.stepper, current_time).into_value())
    }

    /// Records an asynchronous request and returns its handle at once.
    pub fn device_operation_async(&mut self, current_fuel: u64, operation: DeviceOperation) -> (r:
        Result<FutureHandle, HostError>)
        requires
            old(self).wf(),
            current_fuel <= old(self).clock().total_fuel(),
            old(self).futures().next_id() < u32::MAX,
        ensures
            final(self).wf(),
            r is Err ==> final(self).only_clock_read(old(self), current_fuel),
            r == Err::<FutureHandle, HostError>(HostError::OutOfFuel) <==> !old(self).entry_has_fuel(current_fuel),
            r == Err::<FutureHandle, HostError>(HostError::TimeOverflow) <==> old(self).entry_has_fuel(current_fuel) && ready_time(
                operation,
                old(self).entry_time(current_fuel),
                old(self).stepper().time_us(),
                old(self).stepper().period_us(),
            ) > u32::MAX,
            r is Err ==> r == Err::<FutureHandle, HostError>(HostError::OutOfFuel) || r == Err::<
                FutureHandle,
                HostError,
            >(HostError::TimeOverflow),
            r is Ok ==> {
                let now = old(self).entry_time(current_fuel) as u32;
                let condition = readiness(
                    operation,
                    now as int,
                    old(self).stepper().time_us(),
                    old(self).stepper().period_us(),
                );
                let handle = r.unwrap();
                &&& final(self).same_run(old(self))
                &&& final(self).clock().fuel_left() == current_fuel
                &&& final(self).clock().fuel_skipped() == old(self).clock().fuel_skipped()
                &&& final(self).stepper() == old(self).stepper()
                &&& final(self).log() == old(self).log()
                &&& final(self).in_poll_loop() == old(self).in_poll_loop()
                &&& final(self).poll_loop_made_progress() == old(self).poll_loop_made_progress()
                &&& handle.id == old(self).futures().next_id()
                &&& !old(self).requests().contains_key(handle.id)
                &&& handle.ready_at == match condition {
                    FutureReadyCondition::ReadyAt(ready_at) => ready_at,
                    _ => now,
                }
                &&& final(self).futures().next_id() == old(self).futures().next_id() + 1
                &&& final(self).requests() == old(self).requests().insert(
                    handle.id,
                    (FutureValueRequest {
                        ready_condition: condition,
                        id: handle.id,
                        operation: kind_of(operation),
                        issued_at: now,
                        value: crate::operation::FutureValueStatus::Pending,
                    }),
                )
            },
            current_fuel <= old(self).clock().fuel_left() ==> old(self).clock().now() <= final(self).clock().now(),
    {
        let current_time: TimeUs = match self.clock.setup_current_time(current_fuel) {
            Ok(t) => t,
            Err(e) => {
                return Err(e);
            },
        };
        if !operation.ready_time_fits(current_time, &self.stepper) {
            return Err(HostError::TimeOverflow);
        }
        let ready_condition = operation.ready_condition(current_time, &self.stepper);
        let handle = self.futures.issue(
            FutureOperation::from(operation),
            ready_condition,
            current_time,
        );
        Ok(handle)
    }

    /// Instructs the simulation to forget the handle to an async operation:
    /// the request is dropped, whatever its state.
    pub fn forget_handle(&mut self, handle: FutureHandle)
        requires
            old(self).wf(),
        ensures
            final(self).wf(),
            final(self).same_run(old(self)),
            final(self).clock() == old(self).clock(),
            final(self).stepper() == old(self).stepper(),
            final(self).log() == old(self).log(),
            final(self).in_poll_loop() == old(self).in_poll_loop(),
            final(self).poll_loop_made_progress() == old(self).poll_loop_made_progress(),
            final(self).futures().next_id() == old(self).futures().next_id(),
            final(self).requests() == old(self).requests().remove(handle.id),
    {
        self.futures.forget(handle.id);
    }

    /// Advances the physics by one tick and sweeps the requests at the time
    /// the stepper has then reached.
    pub fn step(&mut self)
        requires
            old(self).wf(),
            old(self).stepper().time_us() + old(self).stepper().period_us() <= u32::MAX,
        ensures
            final(self).wf(),
            final(self).same_run(old(self)),
            final(self).clock() == old(self).clock(),
            final(self).futures().next_id() == old(self).futures().next_id(),
            final(self).log() == old(self).log(),
            final(self).in_poll_loop() == old(self).in_poll_loop(),
            final(self).poll_loop_made_progress() == old(self).poll_loop_made_progress(),
            final(self).stepper().time_us() == old(self).stepper().time_us() + old(self).stepper().period_us(),
            final(self).stepper().ticks() == old(self).stepper().ticks() + 1,
            final(self).stepper().duty_cycles() == old(self).stepper().duty_cycles(),
            final(self).requests() == old(self).requests().map_values(
                |request: FutureValueRequest|
                    swept(
                        request,
                        final(self).stepper().time_us() as u32,
                        &final(self).stepper(),
                    ),
            ),
    {
        self.stepper.step();
        let now: TimeUs = self.stepper.get_time_us();
        self.futures.sweep(now, &self.stepper);
    }

    /// Lets the physics catch up with `target_time`: steps while the next
    /// tick is not after it. The stepper is never taken past `target_time`.
    pub fn step_until_time(&mut self, target_time: TimeUs)
        requires
            old(self).wf(),
        ensures
            final(self).wf(),
            final(self).same_run(old(self)),
            final(self).clock() == old(self).clock(),
            final(self).futures().next_id() == old(self).futures().next_id(),
            final(self).log() == old(self).log(),
            final(self).in_poll_loop() == old(self).in_poll_loop(),
            final(self).poll_loop_made_progress() == old(self).poll_loop_made_progress(),
            final(self).stepper().duty_cycles() == old(self).stepper().duty_cycles(),
            old(self).stepper().time_us() + old(self).stepper().period_us() > target_time ==> {
                &&& final(self).stepper() == old(self).stepper()
                &&& final(self).requests() == old(self).requests()
            },
            old(self).stepper().time_us() + old(self).stepper().period_us() <= target_time ==> {
                &&& old(self).stepper().time_us() < final(self).stepper().time_us() <= target_time
                &&& target_time < final(self).stepper().time_us() + final(self).stepper().period_us()
                &&& final(self).stepper().time_us() == last_tick_at_or_before(
                    target_time as int,
                    final(self).stepper().period_us(),
                )
                &&& settled(
                    final(self).requests(),
                    final(self).stepper().time_us() as u32,
                    final(self).stepper().active(),
                )
            },
            progressed(
                old(self).requests(),
                final(self).requests(),
                final(self).stepper().time_us() as u32,
            ),
    {
        proof {
            self.stepper.lemma_inv();
            lemma_progress_weaken(
                self.requests(),
                self.requests(),
                self.stepper().time_us() as u32,
                self.stepper().time_us() as u32,
            );
        }
        let ghost mut stepped = false;
        while self.stepper.get_time_us() as u64 + self.stepper.step_us() as u64
            <= target_time as u64
            invariant
                self.wf(),
                self.same_run(old(self)),
                self.clock() == old(self).clock(),
                self.futures().next_id() == old(self).futures().next_id(),
                self.log() == old(self).log(),
                self.in_poll_loop() == old(self).in_poll_loop(),
                self.poll_loop_made_progress() == old(self).poll_loop_made_progress(),
                self.stepper().duty_cycles() == old(self).stepper().duty_cycles(),
                old(self).stepper().time_us() <= self.stepper().time_us() <= u32::MAX,
                0 < self.stepper().period_us(),
                !stepped ==> self.stepper() == old(self).stepper() && self.requests() == old(self).requests(),
                stepped ==> old(self).stepper().time_us() + old(self).stepper().period_us()
                    <= target_time,
                stepped ==> old(self).stepper().time_us() < self.stepper().time_us() <= target_time
                    && settled(
                    self.requests(),
                    self.stepper().time_us() as u32,
                    self.stepper().active(),
                ),
                progressed(old(self).requests(), self.requests(), self.stepper().time_us() as u32),
            decreases target_time - self.stepper().time_us(),
        {
            let ghost before = self.requests();
            let ghost earlier = self.stepper().time_us() as u32;
            self.step();
            proof {
                self.stepper.lemma_inv();
                lemma_progress_by_sweep(
                    old(self).requests(),
                    before,
                    earlier,
                    self.stepper().time_us() as u32,
                    &self.stepper(),
                );
                stepped = true;
            }
        }
        proof {
            self.stepper.lemma_inv();
            if stepped {
                lemma_last_tick_unique(
                    self.stepper().time_us(),
                    self.stepper().ticks(),
                    self.stepper().period_us(),
                    target_time as int,
                );
            }
        }
    }
    /// What one tick makes of the stepper and of the requests: the stepper is
    /// one period further, and the requests are swept at the time it has
    /// reached.
    pub open spec fn ticked(&self, before: &Self) -> bool {
        &&& self.stepper().time_us() == before.stepper().time_us() + before.stepper().period_us()
        &&& self.stepper().ticks() == before.stepper().ticks() + 1
        &&& self.stepper().duty_cycles() == before.stepper().duty_cycles()
        &&& self.requests() == before.requests().map_values(
            |request: FutureValueRequest|
                swept(request, self.stepper().time_us() as u32, &self.stepper()),
        )
    }

    /// What letting the physics catch up with `target` makes of the stepper
    /// and of the requests: nothing if the next tick lies after `target`;
    /// else the stepper stands at the last tick that is not after `target`,
    /// and nothing due at that tick is left pending.
    pub open spec fn caught_up(&self, before: &Self, target: int) -> bool {
        &&& before.stepper().time_us() + before.stepper().period_us() > target ==> {
            &&& self.stepper().time_us() == before.stepper().time_us()
            &&& self.stepper().ticks() == before.stepper().ticks()
            &&& self.requests() == before.requests()
        }
        &&& before.stepper().time_us() + before.stepper().period_us() <= target ==> {
            &&& before.stepper().time_us() < self.stepper().time_us()
            &&& self.stepper().time_us() == last_tick_at_or_before(
                target,
                self.stepper().period_us(),
            )
        }
        &&& progressed(before.requests(), self.requests(), self.stepper().time_us() as u32)
    }

    /// Steps once and moves the clock to the later of `current_time` and the
    /// time that the stepper has reached; refuses, leaving everything as it
    /// is, if that would reach the end of the run.
    fn advance_one_tick(&mut self, current_time: TimeUs) -> (r: Result<(), HostError>)
        requires
            old(self).wf(),
            old(self).clock().has_fuel(),
            current_time == old(self).clock().now(),
        ensures
            final(self).wf(),
            final(self).same_run(old(self)),
            final(self).log() == old(self).log(),
            final(self).in_poll_loop() == old(self).in_poll_loop(),
            final(self).poll_loop_made_progress() == old(self).poll_loop_made_progress(),
            final(self).futures().next_id() == old(self).futures().next_id(),
            final(self).clock().fuel_left() == old(self).clock().fuel_left(),
            r is Err <==> later(
                current_time as int,
                old(self).stepper().time_us() + old(self).stepper().period_us(),
            ) >= old(self).clock().total_time(),
            r is Err ==> {
                &&& r == Err::<(), HostError>(HostError::TimeOverflow)
                &&& final(self).clock() == old(self).clock()
                &&& final(self).stepper() == old(self).stepper()
                &&& final(self).requests() == old(self).requests()
            },
            r is Ok ==> {
                &&& final(self).ticked(old(self))
                &&& final(self).clock().has_fuel()
                &&& final(self).clock().on_the_microsecond()
                &&& final(self).clock().now() == later(
                    current_time as int,
                    final(self).stepper().time_us(),
                )
            },
    {
        proof {
            self.stepper.lemma_inv();
            self.clock.lemma_time_range();
        }
        let total: TimeUs = self.clock.total_simulation_time();
        let next: u64 = self.stepper.get_time_us() as u64 + self.stepper.step_us() as u64;
        if current_time >= total || next >= total as u64 {
            return Err(HostError::TimeOverflow);
        }
        self.step();
        let reached: TimeUs = self.stepper.get_time_us();
        let end_time: TimeUs = if reached > current_time {
            reached
        } else {
            current_time
        };
        self.clock.set_current_time(end_time)
    }

    /// Advance one step in the physical simulation, and move the guest's
    /// clock to the tick reached unless it is already past it.
    pub fn world_step(&mut self, current_fuel: u64) -> (r: Result<(), HostError>)
        requires
            old(self).wf(),
            current_fuel <= old(self).clock().total_fuel(),
        ensures
            final(self).wf(),
            final(self).same_run(old(self)),
            final(self).log() == old(self).log(),
            final(self).in_poll_loop() == old(self).in_poll_loop(),
            final(self).poll_loop_made_progress() == old(self).poll_loop_made_progress(),
            final(self).futures().next_id() == old(self).futures().next_id(),
            final(self).clock().fuel_left() == current_fuel,
            r == Err::<(), HostError>(HostError::OutOfFuel) <==> !old(self).entry_has_fuel(
                current_fuel,
            ),
            r == Err::<(), HostError>(HostError::TimeOverflow) <==> old(self).entry_has_fuel(
                current_fuel,
            ) && later(
                old(self).entry_time(current_fuel),
                old(self).stepper().time_us() + old(self).stepper().period_us(),
            ) >= old(self).clock().total_time(),
            r is Err ==> {
                &&& r == Err::<(), HostError>(HostError::OutOfFuel) || r == Err::<(), HostError>(
                    HostError::TimeOverflow,
                )
                &&& final(self).only_clock_read(old(self), current_fuel)
            },
            r is Ok ==> {
                &&& final(self).ticked(old(self))
                &&& final(self).clock().on_the_microsecond()
                &&& final(self).clock().now() == later(
                    old(self).entry_time(current_fuel),
                    final(self).stepper().time_us(),
                )
            },
            current_fuel <= old(self).clock().fuel_left() ==> old(self).clock().now() <= final(self).clock().now(),
    {
        let current_time: TimeUs = match self.clock.setup_current_time(current_fuel) {
            Ok(t) => t,
            Err(e) => {
                return Err(e);
            },
        };
        self.advance_one_tick(current_time)
    }

    /// Signal future values poll loop start and end to the simulation host.
    ///
    /// A loop that ends without any poll having handed out a value has made
    /// no progress: the host then advances the physics by one tick, as
    /// `world_step` does, so that a guest that only polls cannot stall time.
    pub fn poll_loop(&mut self, current_fuel: u64, start: bool) -> (r: Result<(), HostError>)
        requires
            old(self).wf(),
            current_fuel <= old(self).clock().total_fuel(),
        ensures
            final(self).wf(),
            final(self).same_run(old(self)),
            final(self).log() == old(self).log(),
            final(self).futures().next_id() == old(self).futures().next_id(),
            final(self).clock().fuel_left() == current_fuel,
            r == Err::<(), HostError>(HostError::OutOfFuel) <==> !old(self).entry_has_fuel(
                current_fuel,
            ),
            r is Err ==> {
                &&& r == Err::<(), HostError>(HostError::OutOfFuel) || r == Err::<(), HostError>(
                    HostError::TimeOverflow,
                )
                &&& final(self).clock().fuel_skipped() == old(self).clock().fuel_skipped()
                &&& final(self).stepper() == old(self).stepper()
                &&& final(self).requests() == old(self).requests()
            },
            old(self).entry_has_fuel(current_fuel) ==> {
                &&& final(self).in_poll_loop() == start
                &&& !final(self).poll_loop_made_progress()
            },
            old(self).entry_has_fuel(current_fuel) && (start || !old(self).in_poll_loop() || old(self).poll_loop_made_progress()) ==> {
                &&& r is Ok
                &&& final(self).clock().fuel_skipped() == old(self).clock().fuel_skipped()
                &&& final(self).stepper() == old(self).stepper()
                &&& final(self).requests() == old(self).requests()
            },
            old(self).entry_has_fuel(current_fuel) && !start && old(self).in_poll_loop() && !old(self).poll_loop_made_progress() ==> {
                &&& r is Err <==> later(
                    old(self).entry_time(current_fuel),
                    old(self).stepper().time_us() + old(self).stepper().period_us(),
                ) >= old(self).clock().total_time()
                &&& r is Ok ==> final(self).ticked(old(self)) && final(self).clock().on_the_microsecond() && final(self).clock().now() == later(
                    old(self).entry_time(current_fuel),
                    final(self).stepper().time_us(),
                )
            },
            current_fuel <= old(self).clock().fuel_left() ==> old(self).clock().now() <= final(self).clock().now(),
    {
        let current_time: TimeUs = match self.clock.setup_current_time(current_fuel) {
            Ok(t) => t,
            Err(e) => {
                return Err(e);
            },
        };
        if start {
            self.poll_loop_open = true;
            self.poll_loop_delivered = false;
            return Ok(());
        }
        let idle: bool = self.poll_loop_open && !self.poll_loop_delivered;
        self.poll_loop_open = false;
        self.poll_loop_delivered = false;
        if idle {
            self.advance_one_tick(current_time)
        } else {
            Ok(())
        }
    }

    /// Poll the status of an async operation (returns immediately).
    ///
    /// The physics first catches up with the guest's clock, tick by tick, and
    /// the requests are swept once more at the guest's own time; the answer
    /// is that of the table as it then stands.
    pub fn device_poll(&mut self, current_fuel: u64, handle: FutureHandle) -> (r: Result<
        Result<PollOperationStatus, PollError>,
        HostError,
    >)
        requires
            old(self).wf(),
            current_fuel <= old(self).clock().total_fuel(),
        ensures
            final(self).wf(),
            final(self).same_run(old(self)),
            final(self).log() == old(self).log(),
            final(self).in_poll_loop() == old(self).in_poll_loop(),
            final(self).futures().next_id() == old(self).futures().next_id(),
            final(self).clock().fuel_left() == current_fuel,
            final(self).clock().fuel_skipped() == old(self).clock().fuel_skipped(),
            final(self).stepper().duty_cycles() == old(self).stepper().duty_cycles(),
            r is Err <==> !old(self).entry_has_fuel(current_fuel),
            r is Err ==> {
                &&& r == Err::<Result<PollOperationStatus, PollError>, HostError>(
                    HostError::OutOfFuel,
                )
                &&& final(self).only_clock_read(old(self), current_fuel)
            },
            r is Ok ==> {
                let now = old(self).entry_time(current_fuel);
                &&& old(self).stepper().time_us() + old(self).stepper().period_us() > now ==> final(self).stepper() == old(self).stepper()
                &&& old(self).stepper().time_us() + old(self).stepper().period_us() <= now ==> {
                    &&& old(self).stepper().time_us() < final(self).stepper().time_us()
                    &&& final(self).stepper().time_us() == last_tick_at_or_before(
                        now,
                        final(self).stepper().period_us(),
                    )
                }
                &&& exists|swept_requests: Map<u32, FutureValueRequest>|
                    {
                        &&& progressed(old(self).requests(), swept_requests, now as u32)
                        &&& settled(swept_requests, now as u32, final(self).stepper().active())
                        &&& r.unwrap() == poll_answer(swept_requests, handle.id)
                        &&& final(self).requests() == polled(swept_requests, handle.id)
                    }
                &&& final(self).poll_loop_made_progress() == (old(self).poll_loop_made_progress()
                    || r.unwrap() matches Ok(PollOperationStatus::Ready(_)))
            },
            current_fuel <= old(self).clock().fuel_left() ==> old(self).clock().now() <= final(self).clock().now(),
    {
        let current_time: TimeUs = match self.clock.setup_current_time(current_fuel) {
            Ok(t) => t,
            Err(e) => {
                return Err(e);
            },
        };
        self.step_until_time(current_time);
        let ghost middle = self.requests();
        let ghost reached = self.stepper().time_us() as u32;
        proof {
            self.stepper.lemma_inv();
            if old(self).stepper().time_us() + old(self).stepper().period_us() > current_time {
                lemma_progress_weaken(old(self).requests(), middle, 0, current_time);
            } else {
                lemma_progress_weaken(old(self).requests(), middle, reached, current_time);
            }
        }
        self.futures.sweep(current_time, &self.stepper);
        let ghost swept_requests = self.requests();
        proof {
            lemma_progress_by_sweep(
                old(self).requests(),
                middle,
                current_time,
                current_time,
                &self.stepper(),
            );
        }
        let r = self.futures.poll(handle.id);
        match r {
            Ok(PollOperationStatus::Ready(_)) => {
                self.poll_loop_delivered = true;
            },
            _ => {},
        }
        assert(progressed(old(self).requests(), swept_requests, current_time) && r == poll_answer(
            swept_requests,
            handle.id,
        ) && self.requests() == polled(swept_requests, handle.id));
        Ok(r)
    }

    /// Set the power of both motors, once the physics has caught up with the
    /// guest's clock.
    pub fn set_motors_power(&mut self, current_fuel: u64, left: MotorPower, right: MotorPower) -> (r:
        Result<(), HostError>)
        requires
            old(self).wf(),
            current_fuel <= old(self).clock().total_fuel(),
        ensures
            final(self).wf(),
            final(self).same_run(old(self)),
            final(self).log() == old(self).log(),
            final(self).in_poll_loop() == old(self).in_poll_loop(),
            final(self).poll_loop_made_progress() == old(self).poll_loop_made_progress(),
            final(self).futures().next_id() == old(self).futures().next_id(),
            final(self).clock().fuel_left() == current_fuel,
            final(self).clock().fuel_skipped() == old(self).clock().fuel_skipped(),
            r is Err <==> !old(self).entry_has_fuel(current_fuel),
            r is Err ==> {
                &&& r == Err::<(), HostError>(HostError::OutOfFuel)
                &&& final(self).only_clock_read(old(self), current_fuel)
            },
            r is Ok ==> {
                &&& final(self).stepper().duty_cycles() == (MotorDriversDutyCycles { left, right })
                &&& final(self).caught_up(old(self), old(self).entry_time(current_fuel))
            },
            current_fuel <= old(self).clock().fuel_left() ==> old(self).clock().now() <= final(self).clock().now(),
    {
        let current_time: TimeUs = match self.clock.setup_current_time(current_fuel) {
            Ok(t) => t,
            Err(e) => {
                return Err(e);
            },
        };
        self.step_until_time(current_time);
        self.stepper.set_motor_drivers_duty_cycles(MotorDriversDutyCycles { left, right });
        Ok(())
    }

    /// Whether the stepper already meets `condition`.
    fn wait_over(&self, condition: FutureReadyCondition) -> (r: bool)
        requires
            self.stepper().inv(),
        ensures
            r == wait_is_over(condition, &self.stepper()),
    {
        match condition {
            FutureReadyCondition::ReadyAt(ready_at) => self.stepper.get_time_us() >= ready_at,
            FutureReadyCondition::IsActive => self.stepper.is_active(),
            FutureReadyCondition::IsInactive => !self.stepper.is_active(),
        }
    }

    /// Perform a blocking operation: returns the value of `operation`,
    /// blocking for the needed time.
    ///
    /// The physics is stepped until the stepper has reached the ready time
    /// of the operation, or until the signal is as a wait asks; the guest's
    /// clock is then moved to the tick reached, unless it is already past it.
    /// A wait that cannot end before the run does fails with `TimeOverflow`,
    /// short of the tick that would have reached the end.
    pub fn device_operation_blocking(&mut self, current_fuel: u64, operation: DeviceOperation) -> (r:
        Result<DeviceValue, HostError>)
        requires
            old(self).wf(),
            current_fuel <= old(self).clock().total_fuel(),
        ensures
            final(self).wf(),
            final(self).same_run(old(self)),
            final(self).log() == old(self).log(),
            final(self).in_poll_loop() == old(self).in_poll_loop(),
            final(self).poll_loop_made_progress() == old(self).poll_loop_made_progress(),
            final(self).futures().next_id() == old(self).futures().next_id(),
            final(self).clock().fuel_left() == current_fuel,
            final(self).stepper().duty_cycles() == old(self).stepper().duty_cycles(),
            old(self).stepper().time_us() <= final(self).stepper().time_us(),
            progressed(
                old(self).requests(),
                final(self).requests(),
                final(self).stepper().time_us() as u32,
            ),
            r == Err::<DeviceValue, HostError>(HostError::OutOfFuel) <==> !old(self).entry_has_fuel(current_fuel),
            r is Err ==> r == Err::<DeviceValue, HostError>(HostError::OutOfFuel) || r == Err::<
                DeviceValue,
                HostError,
            >(HostError::TimeOverflow),
            r is Err ==> final(self).clock().fuel_skipped() == old(self).clock().fuel_skipped(),
            !old(self).entry_has_fuel(current_fuel) ==> final(self).only_clock_read(
                old(self),
                current_fuel,
            ),
            old(self).entry_has_fuel(current_fuel) ==> {
                let now = old(self).entry_time(current_fuel);
                let ready = ready_time(
                    operation,
                    now,
                    old(self).stepper().time_us(),
                    old(self).stepper().period_us(),
                );
                let condition = readiness(
                    operation,
                    now,
                    old(self).stepper().time_us(),
                    old(self).stepper().period_us(),
                );
                let reached = wake_tick(
                    old(self).stepper().time_us(),
                    old(self).stepper().period_us(),
                    ready,
                );
                &&& ready > u32::MAX ==> r is Err && final(self).stepper() == old(self).stepper()
                    && final(self).requests() == old(self).requests()
                &&& ready <= u32::MAX && wait_is_over(condition, &old(self).stepper()) ==> final(self).stepper() == old(self).stepper() && final(self).requests() == old(self).requests()
                &&& condition is ReadyAt ==> (r is Ok <==> ready <= u32::MAX && later(now, reached)
                    < old(self).clock().total_time())
                &&& condition is ReadyAt && r is Ok ==> final(self).stepper().time_us() == reached
                &&& ready <= u32::MAX && r is Err ==> {
                    ||| !wait_is_over(condition, &final(self).stepper()) && final(self).stepper().time_us() + final(self).stepper().period_us() >= final(self).clock().total_time()
                    ||| wait_is_over(condition, &final(self).stepper()) && later(
                        now,
                        final(self).stepper().time_us(),
                    ) >= final(self).clock().total_time()
                }
                &&& r is Ok ==> {
                    &&& ready <= u32::MAX
                    &&& wait_is_over(condition, &final(self).stepper())
                    &&& final(self).clock().now() == later(now, final(self).stepper().time_us())
                    &&& final(self).clock().now() < final(self).clock().total_time()
                    &&& final(self).clock().on_the_microsecond()
                    &&& r.unwrap()@ == value_bytes(
                        kind_of(operation),
                        &final(self).stepper(),
                        now as u32,
                    )
                }
            },
            current_fuel <= old(self).clock().fuel_left() ==> old(self).clock().now() <= final(self).clock().now(),
    {
        let start_time: TimeUs = match self.clock.setup_current_time(current_fuel) {
            Ok(t) => t,
            Err(e) => {
                proof {
                    self.stepper.lemma_inv();
                    lemma_progress_weaken(
                        self.requests(),
                        self.requests(),
                        self.stepper().time_us() as u32,
                        self.stepper().time_us() as u32,
                    );
                }
                return Err(e);
            },
        };
        proof {
            self.stepper.lemma_inv();
            self.clock.lemma_time_range();
            lemma_next_tick(start_time as int, self.stepper.period_us());
            lemma_progress_weaken(
                self.requests(),
                self.requests(),
                self.stepper().time_us() as u32,
                self.stepper().time_us() as u32,
            );
        }
        if !operation.ready_time_fits(start_time, &self.stepper) {
            return Err(HostError::TimeOverflow);
        }
        let condition = operation.ready_condition(start_time, &self.stepper);
        let total: TimeUs = self.clock.total_simulation_time();
        let ghost entry_clock = self.clock();
        while !self.wait_over(condition)
            invariant
                self.wf(),
                self.same_run(old(self)),
                self.clock() == entry_clock,
                self.log() == old(self).log(),
                self.in_poll_loop() == old(self).in_poll_loop(),
                self.poll_loop_made_progress() == old(self).poll_loop_made_progress(),
                self.futures().next_id() == old(self).futures().next_id(),
                self.stepper().duty_cycles() == old(self).stepper().duty_cycles(),
                total == self.clock().total_time(),
                entry_clock.wf(),
                entry_clock.has_fuel(),
                entry_clock.fuel_left() == current_fuel,
                entry_clock.fuel_skipped() == old(self).clock().fuel_skipped(),
                entry_clock.now() == start_time,
                start_time == old(self).entry_time(current_fuel),
                condition == readiness(
                    operation,
                    start_time as int,
                    old(self).stepper().time_us(),
                    old(self).stepper().period_us(),
                ),
                0 <= ready_time(
                    operation,
                    start_time as int,
                    old(self).stepper().time_us(),
                    old(self).stepper().period_us(),
                ) <= u32::MAX,
                old(self).stepper().time_us() <= self.stepper().time_us() <= u32::MAX,
                0 < self.stepper().period_us(),
                self.stepper().time_us() == old(self).stepper().time_us() ==> self.stepper() == old(self).stepper() && self.requests() == old(self).requests(),
                self.stepper().time_us() > old(self).stepper().time_us() ==> !wait_is_over(
                    condition,
                    &old(self).stepper(),
                ),
                condition is ReadyAt && self.stepper().time_us() > old(self).stepper().time_us()
                    ==> self.stepper().time_us() - self.stepper().period_us() < condition->ReadyAt_0,
                progressed(old(self).requests(), self.requests(), self.stepper().time_us() as u32),
            decreases total - self.stepper().time_us(),
        {
            let next: u64 = self.stepper.get_time_us() as u64 + self.stepper.step_us() as u64;
            if next >= total as u64 {
                proof {
                    if condition is ReadyAt {
                        let ready = condition->ReadyAt_0 as int;
                        self.stepper.lemma_inv();
                        lemma_next_tick(ready, self.stepper().period_us());
                        lemma_ticks_apart(
                            self.stepper().time_us(),
                            self.stepper().ticks(),
                            self.stepper().period_us(),
                            next_tick_at_or_after(ready, self.stepper().period_us()),
                        );
                    }
                }
                return Err(HostError::TimeOverflow);
            }
            let ghost before = self.requests();
            let ghost earlier = self.stepper().time_us() as u32;
            self.step();
            proof {
                self.stepper.lemma_inv();
                lemma_progress_by_sweep(
                    old(self).requests(),
                    before,
                    earlier,
                    self.stepper().time_us() as u32,
                    &self.stepper(),
                );
            }
        }
        let reached: TimeUs = self.stepper.get_time_us();
        proof {
            self.stepper.lemma_inv();
            if condition is ReadyAt && self.stepper().time_us() > old(self).stepper().time_us() {
                lemma_next_tick_unique(
                    self.stepper().time_us(),
                    self.stepper().ticks(),
                    self.stepper().period_us(),
                    condition->ReadyAt_0 as int,
                );
            }
        }
        let end_time: TimeUs = if reached > start_time {
            reached
        } else {
            start_time
        };
        match self.clock.set_current_time(end_time) {
            Ok(()) => {},
            Err(e) => {
                return Err(e);
            },
        }
        let op: FutureOperation = FutureOperation::from(operation);
        Ok(op.compute_value(&self.stepper, start_time).into_value())
    }
    /// What a call that only charges time leaves of the host.
    pub open spec fn only_charged(&self, before: &Self, current_fuel: u64) -> bool {
        &&& self.same_run(before)
        &&& self.clock().fuel_left() == current_fuel
        &&& self.stepper() == before.stepper()
        &&& self.requests() == before.requests()
        &&& self.futures().next_id() == before.futures().next_id()
        &&& self.in_poll_loop() == before.in_poll_loop()
        &&& self.poll_loop_made_progress() == before.poll_loop_made_progress()
    }

    /// Charges `count` times `unit_cost_us` microseconds to the guest.
    fn charge(&mut self, count: usize, unit_cost_us: u32) -> (r: Result<(), HostError>)
        requires
            old(self).wf(),
            unit_cost_us == 10 || unit_cost_us == 100,
        ensures
            final(self).wf(),
            final(self).only_charged(old(self), old(self).clock().fuel_left() as u64),
            final(self).log() == old(self).log(),
            r is Ok <==> old(self).clock().fuel_left() > old(self).clock().fuel_skipped()
                + fuel_of_time(count * unit_cost_us),
            r is Err ==> r == Err::<(), HostError>(HostError::OutOfFuel) && !final(self).clock().has_fuel(),
            r is Ok ==> final(self).clock().fuel_skipped() == old(self).clock().fuel_skipped()
                + fuel_of_time(count * unit_cost_us),
            old(self).clock().now() <= final(self).clock().now(),
    {
        proof {
            self.clock.lemma_time_range();
        }
        if unit_cost_us == 10 {
            if count > 429_496_729 {
                self.clock.skip_fuel(u64::MAX)
            } else {
                self.clock.skip_time((count * 10) as u32)
            }
        } else {
            if count > 42_949_672 {
                self.clock.skip_fuel(u64::MAX)
            } else {
                self.clock.skip_time((count * 100) as u32)
            }
        }
    }

    /// Write a line of text as a log, like writing to a serial line: each
    /// byte of the text takes 100 microseconds of the guest's time.
    ///
    /// Returns the line as it is logged, stamped with the time of the call,
    /// if the run echoes or keeps its log; the run keeps it in that case only.
    pub fn write_line(&mut self, current_fuel: u64, text: &str) -> (r: Result<
        Option<String>,
        HostError,
    >)
        requires
            old(self).wf(),
            current_fuel <= old(self).clock().total_fuel(),
        ensures
            final(self).wf(),
            final(self).only_charged(old(self), current_fuel),
            r is Ok <==> current_fuel > old(self).clock().fuel_skipped() + fuel_of_time(
                100 * (text.spec_bytes().len() as int),
            ),
            r is Err ==> {
                &&& r == Err::<Option<String>, HostError>(HostError::OutOfFuel)
                &&& !final(self).clock().has_fuel()
                &&& final(self).log() == old(self).log()
            },
            r is Ok ==> {
                let line = log_line_text(old(self).entry_time(current_fuel), text@);
                &&& final(self).clock().fuel_skipped() == old(self).clock().fuel_skipped()
                    + fuel_of_time(100 * (text.spec_bytes().len() as int))
                &&& r.unwrap() is Some <==> old(self).echoes_log() || old(self).keeps_files()
                &&& r.unwrap() is Some ==> r.unwrap().unwrap()@ == line
                &&& old(self).keeps_files() ==> final(self).log() == old(self).log().push(
                    r.unwrap().unwrap(),
                )
                &&& !old(self).keeps_files() ==> final(self).log() == old(self).log()
            },
            current_fuel <= old(self).clock().fuel_left() ==> old(self).clock().now() <= final(self).clock().now(),
    {
        let current_time: TimeUs = match self.clock.setup_current_time(current_fuel) {
            Ok(t) => t,
            Err(e) => {
                proof {
                    self.clock.lemma_time_range();
                }
                return Err(e);
            },
        };
        let char_count: usize = text.as_bytes().len();
        match self.charge(char_count, 100) {
            Ok(()) => {},
            Err(e) => {
                return Err(e);
            },
        }
        if self.output_log || self.has_workdir {
            let sec: TimeUs = current_time / 1_000_000;
            let ms: TimeUs = (current_time / 1_000) % 1000;
            let us: TimeUs = current_time % 1000;
            let mut line = String::new();
            push_zero_padded(&mut line, sec as u64, 2);
            proof {
                reveal_strlit(".");
                reveal_strlit("_");
                reveal_strlit(": ");
            }
            line.append(".");
            push_zero_padded(&mut line, ms as u64, 3);
            line.append("_");
            push_zero_padded(&mut line, us as u64, 3);
            line.append(": ");
            line.append(text);
            if self.has_workdir {
                self.log_lines.push(line.clone());
            }
            Ok(Some(line))
        } else {
            Ok(None)
        }
    }

    /// Write a buffer into a file, eventually converting it to CSV: each
    /// byte of the buffer takes 10 microseconds of the guest's time.
    ///
    /// Returns what is to be stored, if the run keeps its files: the name
    /// of the raw file, and where a schema is given the name and the text of
    /// the CSV file.
    pub fn write_file(
        &mut self,
        current_fuel: u64,
        name: &str,
        data: &[u8],
        csv: Option<&Vec<CsvColumn>>,
    ) -> (r: Result<Option<WrittenFile>, HostError>)
        requires
            old(self).wf(),
            current_fuel <= old(self).clock().total_fuel(),
            old(self).keeps_files() && csv is Some ==> 0 < csv->0@.len() && 4 * csv->0@.len()
                <= usize::MAX,
        ensures
            final(self).wf(),
            final(self).only_charged(old(self), current_fuel),
            final(self).log() == old(self).log(),
            r is Ok <==> current_fuel > old(self).clock().fuel_skipped() + fuel_of_time(
                10 * (data@.len() as int),
            ),
            r is Err ==> {
                &&& r == Err::<Option<WrittenFile>, HostError>(HostError::OutOfFuel)
                &&& !final(self).clock().has_fuel()
            },
            r is Ok ==> {
                &&& final(self).clock().fuel_skipped() == old(self).clock().fuel_skipped()
                    + fuel_of_time(10 * (data@.len() as int))
                &&& r.unwrap() is Some <==> old(self).keeps_files()
                &&& r.unwrap() matches Some(file) ==> {
                    &&& file.bin_name@ == name@ + ".bin"@
                    &&& file.csv is Some <==> csv is Some
                    &&& file.csv matches Some(csv_file) ==> {
                        &&& csv_file.name@ == name@ + ".csv"@
                        &&& exists|handler: CvsLineHandler|
                            lays_out(handler, csv->0@) && csv_file.text@ == csv_text(
                                handler.columns@,
                                handler.size as int,
                                data@,
                            )
                    }
                }
            },
            current_fuel <= old(self).clock().fuel_left() ==> old(self).clock().now() <= final(self).clock().now(),
    {
        match self.clock.setup_current_time(current_fuel) {
            Ok(_) => {},
            Err(e) => {
                proof {
                    self.clock.lemma_time_range();
                }
                return Err(e);
            },
        }
        match self.charge(data.len(), 10) {
            Ok(()) => {},
            Err(e) => {
                return Err(e);
            },
        }
        if !self.has_workdir {
            return Ok(None);
        }
        let mut bin_name = String::new();
        bin_name.append(name);
        bin_name.append(".bin");
        let csv_file = match csv {
            Some(schema) => {
                let mut csv_name = String::new();
                csv_name.append(name);
                csv_name.append(".csv");
                let handler = CvsLineHandler::new(schema);
                proof {
                    lemma_offset_of_positive(handler.columns@);
                }
                let text = handler.build_text(data);
                assert(lays_out(handler, schema@));
                Some(CsvFile { name: csv_name, text })
            },
            None => None,
        };
        Ok(Some(WrittenFile { bin_name, csv: csv_file }))
    }

    /// The text of the log file: the lines logged so far, one per line; none
    /// if the run does not keep its files.
    pub fn log_file_text(&self) -> (r: Option<String>)
        ensures
            r is Some <==> self.keeps_files(),
            r is Some ==> r.unwrap()@ == joined_lines(self.log(), self.log().len()),
    {
        if !self.has_workdir {
            return None;
        }
        let mut text = String::new();
        let mut k: usize = 0;
        while k < self.log_lines.len()
            invariant
                k <= self.log_lines@.len(),
                text@ == joined_lines(self.log_lines@, k as nat),
            decreases self.log_lines@.len() - k,
        {
            if k > 0 {
                proof {
                    reveal_strlit("\n");
                }
                text.append("\n");
            }
            text.append(self.log_lines[k].as_str());
            k += 1;
        }
        Some(text)
    }
}

} // verus!
