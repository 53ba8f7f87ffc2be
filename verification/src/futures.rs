//! The table of outstanding asynchronous device operations.
//!
//! Every request is stored under its identifier. Two indexes list what is
//! still pending: one by ready time, walked in ascending order at each sweep,
//! and one for the requests that wait on the `enabled` signal.

use std::collections::{BTreeMap, BTreeSet};
use vstd::prelude::*;
use vstd::std_specs::btree::{increasing_seq, spec_btree_keys_iter};
use vstd::std_specs::cmp::OrdSpec;
use vstd::std_specs::iter::IteratorSpec;
use crate::clock::TimeUs;
use crate::device_value::{put_u32, zero_bytes, DeviceValueRaw};
use crate::devices::{FutureHandle, PollError, PollOperationStatus};
use crate::operation::{value_bytes, FutureOperation, FutureReadyCondition, FutureValueStatus};
use crate::stepper::SimulationStepper;

verus! {

/// One requested value: what was asked, when, and how far it has come.
#[derive(Clone, Copy, Debug, PartialEq, Eq, Structural)]
pub struct FutureValueRequest {
    pub ready_condition: FutureReadyCondition,
    pub id: u32,
    pub operation: FutureOperation,
    pub issued_at: TimeUs,
    pub value: FutureValueStatus,
}

/// The only moves a requested value makes: it stays as it is, a pending
/// value becomes ready, or a ready value is consumed.
pub open spec fn status_succeeds(before: FutureValueStatus, after: FutureValueStatus) -> bool {
    ||| after == before
    ||| before is Pending && after is Ready
    ||| before is Ready && after is Consumed
}

/// Whether a pending request with condition `condition` is due at `now`
/// while the `enabled` signal is `active`.
pub open spec fn condition_met(condition: FutureReadyCondition, now: TimeUs, active: bool) -> bool {
    match condition {
        FutureReadyCondition::ReadyAt(ready_at) => ready_at <= now,
        FutureReadyCondition::IsActive => active,
        FutureReadyCondition::IsInactive => !active,
    }
}

/// The value latched for `request` when it is found due: for a time-based
/// request what its operation yields at its own ready time, for a wait the
/// empty payload.
pub open spec fn latched_value<S: SimulationStepper>(
    request: FutureValueRequest,
    stepper: &S,
) -> DeviceValueRaw {
    match request.ready_condition {
        FutureReadyCondition::ReadyAt(ready_at) => DeviceValueRaw::of_bytes(
            value_bytes(request.operation, stepper, ready_at),
        ),
        _ => DeviceValueRaw::of_bytes(zero_bytes()),
    }
}

/// What one sweep at `now` makes of `request`.
pub open spec fn swept<S: SimulationStepper>(
    request: FutureValueRequest,
    now: TimeUs,
    stepper: &S,
) -> FutureValueRequest {
    if request.value is Pending && condition_met(request.ready_condition, now, stepper.active()) {
        FutureValueRequest {
            value: FutureValueStatus::Ready(latched_value(request, stepper)),
            ..request
        }
    } else {
        request
    }
}

/// What a poll of `id` answers on the requests `entries`.
pub open spec fn poll_answer(entries: Map<u32, FutureValueRequest>, id: u32) -> Result<
    PollOperationStatus,
    PollError,
> {
    if !entries.contains_key(id) {
        Err(PollError::InvalidHandle)
    } else {
        match entries[id].value {
            FutureValueStatus::Pending => Ok(PollOperationStatus::Pending),
            FutureValueStatus::Ready(value) => Ok(PollOperationStatus::Ready(value.to_value())),
            FutureValueStatus::Consumed => Err(PollError::ConsumedHandle),
        }
    }
}

/// What a poll of `id` leaves of the requests `entries`: a ready value is
/// marked consumed, everything else stays.
pub open spec fn polled(entries: Map<u32, FutureValueRequest>, id: u32) -> Map<
    u32,
    FutureValueRequest,
> {
    if entries.contains_key(id) && entries[id].value is Ready {
        entries.insert(
            id,
            FutureValueRequest { value: FutureValueStatus::Consumed, ..entries[id] },
        )
    } else {
        entries
    }
}

/// The ready time of a request that waits for a time.
pub open spec fn ready_time_of(request: FutureValueRequest) -> TimeUs {
    match request.ready_condition {
        FutureReadyCondition::ReadyAt(ready_at) => ready_at,
        _ => 0,
    }
}

/// The requests on record and the two indexes of what is pending.
pub struct FutureTable {
    next_future_handle_id: u32,
    futures_by_id: BTreeMap<u32, FutureValueRequest>,
    futures_by_ready_time: BTreeSet<(TimeUs, u32)>,
    futures_by_activity: BTreeSet<u32>,
}

impl FutureTable {
    /// The requests on record, by identifier.
    pub closed spec fn entries(&self) -> Map<u32, FutureValueRequest> {
        self.futures_by_id@
    }

    /// The identifier that the next request gets.
    pub closed spec fn next_id(&self) -> int {
        self.next_future_handle_id as int
    }

    /// The ready-time index: pairs of ready time and identifier.
    pub closed spec fn by_ready_time(&self) -> Set<(TimeUs, u32)> {
        self.futures_by_ready_time@
    }

    /// The signal index: identifiers of the requests that wait on the signal.
    pub closed spec fn by_activity(&self) -> Set<u32> {
        self.futures_by_activity@
    }

    /// Identifiers are handed out in order from 1, each request is stored
    /// under its own identifier, and a request is listed in an index exactly
    /// while it is pending: in the ready-time index under its ready time if
    /// it waits for a time, in the signal index if it waits on the signal.
    pub open spec fn wf(&self) -> bool {
        &&& self.next_id() >= 1
        &&& forall|id: u32| #[trigger]
            self.entries().contains_key(id) ==> {
                let request = self.entries()[id];
                &&& 1 <= id < self.next_id()
                &&& request.id == id
                &&& request.value is Pending && request.ready_condition is ReadyAt
                    ==> self.by_ready_time().contains((ready_time_of(request), id))
                &&& request.value is Pending && !(request.ready_condition is ReadyAt)
                    ==> self.by_activity().contains(id)
            }
        &&& forall|ready_at: TimeUs, id: u32| #[trigger]
            self.by_ready_time().contains((ready_at, id)) ==> self.entries().contains_key(id)
                && self.entries()[id].value is Pending && self.entries()[id].ready_condition
                == FutureReadyCondition::ReadyAt(ready_at)
        &&& forall|id: u32| #[trigger]
            self.by_activity().contains(id) ==> self.entries().contains_key(id)
                && self.entries()[id].value is Pending && !(self.entries()[id].ready_condition
                is ReadyAt)
    }

    /// An empty table whose first identifier is 1.
    pub fn new() -> (r: Self)
        ensures
            r.wf(),
            r.next_id() == 1,
            r.entries() == Map::<u32, FutureValueRequest>::empty(),
    {
        FutureTable {
            next_future_handle_id: 1,
            futures_by_id: BTreeMap::new(),
            futures_by_ready_time: BTreeSet::new(),
            futures_by_activity: BTreeSet::new(),
        }
    }

    /// Whether an identifier is left for one more request.
    pub fn can_issue(&self) -> (r: bool)
        ensures
            r == (self.next_id() < u32::MAX),
    {
        self.next_future_handle_id < u32::MAX
    }

    /// The request stored under `id`, if there is one.
    pub fn get(&self, id: u32) -> (r: Option<FutureValueRequest>)
        ensures
            r == if self.entries().contains_key(id) {
                Some(self.entries()[id])
            } else {
                None
            },
    {
        broadcast use vstd::std_specs::btree::group_btree_axioms;
        broadcast use vstd::laws_cmp::group_laws_cmp;

        match self.futures_by_id.get(&id) {
            Some(request) => Some(*request),
            None => None,
        }
    }

    /// Records a new pending request and returns its handle. The handle's
    /// `ready_at` is the ready time of a time-based request and the time of
    /// the request for a wait.
    pub fn issue(
        &mut self,
        operation: FutureOperation,
        ready_condition: FutureReadyCondition,
        issued_at: TimeUs,
    ) -> (handle: FutureHandle)
        requires
            old(self).wf(),
            old(self).next_id() < u32::MAX,
        ensures
            final(self).wf(),
            handle.id == old(self).next_id(),
            !old(self).entries().contains_key(handle.id),
            handle.ready_at == match ready_condition {
                FutureReadyCondition::ReadyAt(ready_at) => ready_at,
                _ => issued_at,
            },
            final(self).next_id() == old(self).next_id() + 1,
            final(self).entries() == old(self).entries().insert(
                handle.id,
                (FutureValueRequest {
                    ready_condition,
                    id: handle.id,
                    operation,
                    issued_at,
                    value: FutureValueStatus::Pending,
                }),
            ),
    {
        broadcast use vstd::std_specs::btree::group_btree_axioms;
        broadcast use vstd::laws_cmp::group_laws_cmp;

        let id: u32 = self.next_future_handle_id;
        self.next_future_handle_id += 1;
        let future_value = FutureValueRequest {
            ready_condition,
            id,
            operation,
            issued_at,
            value: FutureValueStatus::Pending,
        };
        let ready_at: TimeUs = match future_value.ready_condition {
            FutureReadyCondition::ReadyAt(ready_at) => {
                self.futures_by_ready_time.insert((ready_at, id));
                ready_at
            },
            FutureReadyCondition::IsActive | FutureReadyCondition::IsInactive => {
                self.futures_by_activity.insert(id);
                issued_at
            },
        };
        self.futures_by_id.insert(id, future_value);
        proof {
            assert forall|t: TimeUs, i: u32| #[trigger]
                self.by_ready_time().contains((t, i)) implies self.entries().contains_key(i)
                    && self.entries()[i].value is Pending && self.entries()[i].ready_condition
                    == FutureReadyCondition::ReadyAt(t) by {
                if i != id {
                    assert(old(self).by_ready_time().contains((t, i)));
                } else {
                    assert(!old(self).by_ready_time().contains((t, i)));
                }
            }
            assert forall|i: u32| #[trigger] self.by_activity().contains(i) implies self.entries().contains_key(
                i,
            ) && self.entries()[i].value is Pending && !(self.entries()[i].ready_condition
                is ReadyAt) by {
                if i != id {
                    assert(old(self).by_activity().contains(i));
                } else {
                    assert(!old(self).by_activity().contains(i));
                }
            }
        }
        FutureHandle { id, ready_at }
    }

    /// Answers a poll of `id`, and marks a ready value as consumed.
    pub fn poll(&mut self, id: u32) -> (r: Result<PollOperationStatus, PollError>)
        requires
            old(self).wf(),
        ensures
            final(self).wf(),
            final(self).next_id() == old(self).next_id(),
            r == poll_answer(old(self).entries(), id),
            final(self).entries() == polled(old(self).entries(), id),
    {
        broadcast use vstd::std_specs::btree::group_btree_axioms;
        broadcast use vstd::laws_cmp::group_laws_cmp;

        let r = match self.get(id) {
            Some(f) => match f.value {
                FutureValueStatus::Pending => Ok(PollOperationStatus::Pending),
                FutureValueStatus::Ready(device_value_raw) => {
                    self.futures_by_id.insert(
                        id,
                        FutureValueRequest { value: FutureValueStatus::Consumed, ..f },
                    );
                    Ok(PollOperationStatus::Ready(device_value_raw.into_value()))
                },
                FutureValueStatus::Consumed => Err(PollError::ConsumedHandle),
            },
            None => Err(PollError::InvalidHandle),
        };
        assert(self.by_ready_time() == old(self).by_ready_time());
        assert(self.by_activity() == old(self).by_activity());
        r
    }

    /// Drops the request `id` from the table and from both indexes,
    /// whatever its state.
    pub fn forget(&mut self, id: u32)
        requires
            old(self).wf(),
        ensures
            final(self).wf(),
            final(self).next_id() == old(self).next_id(),
            final(self).entries() == old(self).entries().remove(id),
    {
        broadcast use vstd::std_specs::btree::group_btree_axioms;
        broadcast use vstd::laws_cmp::group_laws_cmp;

        self.futures_by_activity.remove(&id);
        match self.get(id) {
            Some(f) => match f.ready_condition {
                FutureReadyCondition::ReadyAt(ready_at) => {
                    self.futures_by_ready_time.remove(&(ready_at, id));
                },
                _ => {},
            },
            None => {},
        }
        self.futures_by_id.remove(&id);
        proof {
            assert forall|t: TimeUs, i: u32| #[trigger]
                self.by_ready_time().contains((t, i)) implies self.entries().contains_key(i)
                    && self.entries()[i].value is Pending && self.entries()[i].ready_condition
                    == FutureReadyCondition::ReadyAt(t) by {
                assert(old(self).by_ready_time().contains((t, i)));
            }
            assert forall|i: u32| #[trigger] self.by_activity().contains(i) implies self.entries().contains_key(
                i,
            ) && self.entries()[i].value is Pending && !(self.entries()[i].ready_condition
                is ReadyAt) by {
                assert(old(self).by_activity().contains(i));
            }
        }
    }
    /// The identifiers that wait on the signal, in ascending order.
    fn waiting_on_signal(&self) -> (waiting: Vec<u32>)
        ensures
            forall|id: u32| waiting@.contains(id) <==> self.by_activity().contains(id),
    {
        broadcast use vstd::std_specs::btree::group_btree_axioms;
        broadcast use vstd::laws_cmp::group_laws_cmp;

        let mut waiting: Vec<u32> = Vec::new();
        let ghost all = spec_btree_keys_iter(&self.futures_by_activity).remaining().unref();
        for id in iter: self.futures_by_activity.iter()
            invariant
                all == iter.seq().unref(),
                waiting@ == all.take(iter.index()),
        {
            waiting.push(*id);
        }
        proof {
            assert(waiting@ == all);
        }
        waiting
    }

    /// The entries of the ready-time index that are due at `now`, earliest
    /// first; the walk stops at the first entry that is not due.
    fn due_by_time(&self, now: TimeUs) -> (due: Vec<(TimeUs, u32)>)
        ensures
            forall|e: (TimeUs, u32)|
                due@.contains(e) <==> self.by_ready_time().contains(e) && e.0 <= now,
    {
        broadcast use vstd::std_specs::btree::group_btree_axioms;

        let mut due: Vec<(TimeUs, u32)> = Vec::new();
        let ghost all = spec_btree_keys_iter(&self.futures_by_ready_time).remaining().unref();
        proof {
            lemma_walk_order(&self.futures_by_ready_time);
        }
        let ghost mut cut: int = 0;
        for rt in iter: self.futures_by_ready_time.iter()
            invariant_except_break
                cut == iter.index(),
                due@ == all.take(cut),
            invariant
                all == iter.seq().unref(),
                cut == due@.len(),
                forall|i: int| 0 <= i < cut ==> all[i].0 <= now,
            ensures
                cut <= all.len(),
                due@ == all.take(cut),
                cut < all.len() ==> all[cut].0 > now,
        {
            if rt.0 > now {
                break;
            }
            due.push(*rt);
            proof {
                cut = cut + 1;
            }
        }
        proof {
            assert forall|e: (TimeUs, u32)|
                due@.contains(e) <==> self.by_ready_time().contains(e) && e.0 <= now by {
                if due@.contains(e) {
                    let k = choose|k: int| 0 <= k < due@.len() && due@[k] == e;
                }
                if self.by_ready_time().contains(e) && e.0 <= now {
                    let k = choose|k: int| 0 <= k < all.len() && all[k] == e;
                    assert(due@[k] == e);
                }
            }
        }
        due
    }

    /// Latches the value of the request `id` if it is pending and due.
    fn settle<S: SimulationStepper>(&mut self, id: u32, now: TimeUs, stepper: &S)
        requires
            old(self).wf(),
            stepper.inv(),
        ensures
            final(self).wf(),
            final(self).next_id() == old(self).next_id(),
            final(self).entries() == if old(self).entries().contains_key(id) {
                old(self).entries().insert(id, swept(old(self).entries()[id], now, stepper))
            } else {
                old(self).entries()
            },
    {
        broadcast use vstd::std_specs::btree::group_btree_axioms;
        broadcast use vstd::laws_cmp::group_laws_cmp;

        let f = match self.get(id) {
            Some(f) => f,
            None => {
                return ;
            },
        };
        if f.value != FutureValueStatus::Pending {
            return ;
        }
        let value = match f.ready_condition {
            FutureReadyCondition::ReadyAt(ready_time) => {
                if ready_time > now {
                    return ;
                }
                self.futures_by_ready_time.remove(&(ready_time, id));
                f.operation.compute_value(stepper, ready_time)
            },
            FutureReadyCondition::IsActive => {
                if !stepper.is_active() {
                    return ;
                }
                self.futures_by_activity.remove(&id);
                DeviceValueRaw::zero()
            },
            FutureReadyCondition::IsInactive => {
                if stepper.is_active() {
                    return ;
                }
                self.futures_by_activity.remove(&id);
                DeviceValueRaw::zero()
            },
        };
        proof {
            value.lemma_of_bytes();
        }
        self.futures_by_id.insert(id, FutureValueRequest { value: FutureValueStatus::Ready(value), ..f });
        proof {
            assert forall|t: TimeUs, i: u32| #[trigger]
                self.by_ready_time().contains((t, i)) implies self.entries().contains_key(i)
                    && self.entries()[i].value is Pending && self.entries()[i].ready_condition
                    == FutureReadyCondition::ReadyAt(t) by {
                assert(old(self).by_ready_time().contains((t, i)));
            }
            assert forall|i: u32| #[trigger] self.by_activity().contains(i) implies self.entries().contains_key(
                i,
            ) && self.entries()[i].value is Pending && !(self.entries()[i].ready_condition
                is ReadyAt) by {
                assert(old(self).by_activity().contains(i));
            }
        }
    }

    /// Latches every pending request that is due at `now`: the waits whose
    /// signal condition holds, then the time-based requests in ascending
    /// order of ready time and identifier. What is not due stays pending;
    /// what was ready or consumed stays as it was.
    pub fn sweep<S: SimulationStepper>(&mut self, now: TimeUs, stepper: &S)
        requires
            old(self).wf(),
            stepper.inv(),
        ensures
            final(self).wf(),
            final(self).next_id() == old(self).next_id(),
            final(self).entries() == old(self).entries().map_values(
                |request: FutureValueRequest| swept(request, now, stepper),
            ),
    {
        let ghost base = self.entries();
        if !self.futures_by_activity.is_empty() {
            let waiting = self.waiting_on_signal();
            let mut k: usize = 0;
            while k < waiting.len()
                invariant
                    k <= waiting.len(),
                    stepper.inv(),
                    self.wf(),
                    self.next_id() == old(self).next_id(),
                    self.entries().dom() == base.dom(),
                    forall|id: u32| #[trigger]
                        base.contains_key(id) ==> self.entries()[id] == swept(base[id], now, stepper)
                            || (self.entries()[id] == base[id] && (base[id].ready_condition
                            is ReadyAt || exists|j: int|
                            k <= j < waiting.len() && waiting[j] == id)),
                decreases waiting.len() - k,
            {
                let id: u32 = waiting[k];
                self.settle(id, now, stepper);
                k += 1;
            }
        }
        let due = self.due_by_time(now);
        let mut k: usize = 0;
        while k < due.len()
            invariant
                k <= due.len(),
                stepper.inv(),
                self.wf(),
                self.next_id() == old(self).next_id(),
                self.entries().dom() == base.dom(),
                forall|id: u32| #[trigger]
                    base.contains_key(id) ==> self.entries()[id] == swept(base[id], now, stepper)
                        || (self.entries()[id] == base[id] && exists|j: int|
                        k <= j < due.len() && due[j].1 == id),
            decreases due.len() - k,
        {
            let id: u32 = due[k].1;
            self.settle(id, now, stepper);
            k += 1;
        }
    }
}

/// A sweep changes nothing of a request but its state, and moves the state
/// only from pending to ready.
pub proof fn lemma_sweep_moves_forward<S: SimulationStepper>(
    request: FutureValueRequest,
    now: TimeUs,
    stepper: &S,
)
    ensures
        status_succeeds(request.value, swept(request, now, stepper).value),
        swept(request, now, stepper).id == request.id,
        swept(request, now, stepper).operation == request.operation,
        swept(request, now, stepper).ready_condition == request.ready_condition,
        swept(request, now, stepper).issued_at == request.issued_at,
        !(request.value is Pending) ==> swept(request, now, stepper) == request,
{
}

/// A request becomes ready in a sweep only if it is due: its ready time is
/// not after the time of the sweep, or the signal is as it waits for. The
/// value latched is then the one its operation yields at its ready time.
pub proof fn lemma_ready_only_when_due<S: SimulationStepper>(
    request: FutureValueRequest,
    now: TimeUs,
    stepper: &S,
)
    requires
        request.value is Pending,
        swept(request, now, stepper).value is Ready,
    ensures
        condition_met(request.ready_condition, now, stepper.active()),
        request.ready_condition is ReadyAt ==> ready_time_of(request) <= now,
        swept(request, now, stepper).value == FutureValueStatus::Ready(
            latched_value(request, stepper),
        ),
{
}

/// A poll changes nothing but the state of the request polled, and moves
/// that state only from ready to consumed.
pub proof fn lemma_poll_moves_forward(entries: Map<u32, FutureValueRequest>, id: u32, other: u32)
    requires
        entries.contains_key(other),
    ensures
        polled(entries, id).dom() == entries.dom(),
        status_succeeds(entries[other].value, polled(entries, id)[other].value),
        other != id ==> polled(entries, id)[other] == entries[other],
        polled(entries, id)[other].id == entries[other].id,
        polled(entries, id)[other].operation == entries[other].operation,
        polled(entries, id)[other].ready_condition == entries[other].ready_condition,
{
}

/// A value is handed out at most once: the poll that returns it leaves the
/// request consumed, a consumed request is answered with `ConsumedHandle`,
/// and neither a sweep nor a poll takes it out of that state.
pub proof fn lemma_delivered_once<S: SimulationStepper>(
    entries: Map<u32, FutureValueRequest>,
    id: u32,
    now: TimeUs,
    stepper: &S,
)
    requires
        entries.contains_key(id),
    ensures
        poll_answer(entries, id) matches Ok(PollOperationStatus::Ready(_)) ==> polled(
            entries,
            id,
        )[id].value is Consumed,
        entries[id].value is Consumed ==> {
            &&& poll_answer(entries, id) == Err::<PollOperationStatus, PollError>(
                PollError::ConsumedHandle,
            )
            &&& polled(entries, id) == entries
            &&& swept(entries[id], now, stepper) == entries[id]
        },
{
}

/// Once consumed, always consumed: no chain of moves leads out of it, and
/// none leads back from ready to pending.
pub proof fn lemma_status_order(a: FutureValueStatus, b: FutureValueStatus, c: FutureValueStatus)
    requires
        status_succeeds(a, b),
        status_succeeds(b, c),
    ensures
        a is Consumed ==> c is Consumed,
        a is Ready ==> !(c is Pending),
        c is Pending ==> a is Pending && b is Pending,
{
}

/// The value of a request that does not depend on what the sensors show:
/// the ready time for a time read, the empty payload for a sleep or a wait.
pub open spec fn plain_value(request: FutureValueRequest) -> DeviceValueRaw {
    if request.ready_condition is ReadyAt && request.operation is GetTime {
        DeviceValueRaw::of_bytes(put_u32(zero_bytes(), 0, ready_time_of(request) as int))
    } else {
        DeviceValueRaw::of_bytes(zero_bytes())
    }
}

/// Whether the value latched for `request` is its plain value, whatever the
/// sensors show.
pub open spec fn has_plain_value(request: FutureValueRequest) -> bool {
    ||| !(request.ready_condition is ReadyAt)
    ||| request.operation is GetTime
    ||| request.operation is Sleep
    ||| request.operation is WaitEnabled
    ||| request.operation is WaitDisabled
}

/// What any number of sweeps, none later than `now`, can have made of
/// a request: nothing, or ready from pending, and that only if its ready time,
/// where it has one, is not after `now`.
pub open spec fn request_progressed(
    before: FutureValueRequest,
    after: FutureValueRequest,
    now: TimeUs,
) -> bool {
    &&& after.id == before.id
    &&& after.operation == before.operation
    &&& after.ready_condition == before.ready_condition
    &&& after.issued_at == before.issued_at
    &&& after.value == before.value || {
        &&& before.value is Pending
        &&& after.value is Ready
        &&& before.ready_condition is ReadyAt ==> ready_time_of(before) <= now
        &&& has_plain_value(before) ==> after.value == FutureValueStatus::Ready(plain_value(before))
    }
}

/// `after` holds the requests of `before`, each as sweeps up to `now` can
/// have left it.
pub open spec fn progressed(
    before: Map<u32, FutureValueRequest>,
    after: Map<u32, FutureValueRequest>,
    now: TimeUs,
) -> bool {
    &&& after.dom() == before.dom()
    &&& forall|id: u32| #[trigger]
        before.contains_key(id) ==> request_progressed(before[id], after[id], now)
}

/// No pending request of `entries` is due at `now` with the signal at `active`.
pub open spec fn settled(entries: Map<u32, FutureValueRequest>, now: TimeUs, active: bool) -> bool {
    forall|id: u32| #[trigger]
        entries.contains_key(id) && entries[id].value is Pending ==> !condition_met(
            entries[id].ready_condition,
            now,
            active,
        )
}

/// One more sweep, not earlier than those before, keeps the requests within
/// what sweeps can have made of them, and leaves nothing due pending.
pub proof fn lemma_progress_by_sweep<S: SimulationStepper>(
    before: Map<u32, FutureValueRequest>,
    middle: Map<u32, FutureValueRequest>,
    earlier: TimeUs,
    now: TimeUs,
    stepper: &S,
)
    requires
        progressed(before, middle, earlier),
        earlier <= now,
    ensures
        progressed(
            before,
            middle.map_values(|request: FutureValueRequest| swept(request, now, stepper)),
            now,
        ),
        settled(
            middle.map_values(|request: FutureValueRequest| swept(request, now, stepper)),
            now,
            stepper.active(),
        ),
{
    let after = middle.map_values(|request: FutureValueRequest| swept(request, now, stepper));
    assert(after.dom() =~= before.dom());
}

/// Whatever sweeps have made of the requests, each state has only moved
/// forward, and only from pending to ready.
pub proof fn lemma_progress_moves_forward(
    before: Map<u32, FutureValueRequest>,
    after: Map<u32, FutureValueRequest>,
    now: TimeUs,
    id: u32,
)
    requires
        progressed(before, after, now),
        before.contains_key(id),
    ensures
        after.contains_key(id),
        status_succeeds(before[id].value, after[id].value),
        !(before[id].value is Pending) ==> after[id] == before[id],
{
}

/// Nothing has progressed where nothing was swept, and what has progressed
/// by one time has progressed by any later time.
pub proof fn lemma_progress_weaken(
    before: Map<u32, FutureValueRequest>,
    after: Map<u32, FutureValueRequest>,
    earlier: TimeUs,
    now: TimeUs,
)
    requires
        earlier <= now,
    ensures
        progressed(before, before, now),
        progressed(before, after, earlier) ==> progressed(before, after, now),
{
}

/// A walk of a ready-time index visits every entry once, earlier ready times
/// first.
proof fn lemma_walk_order(set: &BTreeSet<(TimeUs, u32)>)
    ensures
        ({
            let all = spec_btree_keys_iter(set).remaining().unref();
            &&& all.to_set() == set@
            &&& all.no_duplicates()
            &&& forall|i: int, j: int| 0 <= i < j < all.len() ==> all[i].0 <= all[j].0
        }),
{
    broadcast use vstd::std_specs::btree::group_btree_axioms;
    broadcast use vstd::laws_cmp::group_laws_cmp;

    let refs = spec_btree_keys_iter(set).remaining();
    let all = refs.unref();
    vstd::std_specs::btree::axiom_spec_btree_keys_iter(set);
    vstd::std_specs::btree::axiom_increasing_seq_meaning(refs);
    assert forall|i: int, j: int| 0 <= i < j < all.len() implies all[i].0 <= all[j].0 by {
        assert(OrdSpec::cmp_spec(&refs[i], &refs[j]) is Less);
    }
}

} // verus!
