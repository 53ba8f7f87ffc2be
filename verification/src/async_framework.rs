//! Building blocks of the guest's cooperative tasks: a future for a value
//! requested from a device, and a single-value channel between tasks.

use vstd::prelude::*;
use crate::device_value::DeviceValue;
use crate::devices::{FutureHandle, PollError, PollOperationStatus};

verus! {

/// A future value (wraps the handle of an asynchronous request).
pub struct FutureValue {
    handle: FutureHandle,
}

/// Convenience extension trait for `FutureHandle`.
pub trait FutureHandleExt: Sized {
    /// The handle itself, for contracts.
    spec fn as_handle(&self) -> FutureHandle;

    /// Convert a `FutureHandle` into a `FutureValue`.
    fn into_future(self) -> (r: FutureValue)
        ensures
            r.handle() == self.as_handle(),
    ;
}

impl FutureHandleExt for FutureHandle {
    open spec fn as_handle(&self) -> FutureHandle {
        *self
    }

    fn into_future(self) -> (r: FutureValue) {
        FutureValue { handle: self }
    }
}

impl FutureValue {
    /// The handle to poll, and to forget once the value is no longer wanted.
    pub closed spec fn handle(&self) -> FutureHandle {
        self.handle
    }

    /// The handle to poll.
    pub fn get_handle(&self) -> (r: FutureHandle)
        ensures
            r == self.handle(),
    {
        self.handle
    }

    /// What the task makes of the answer to a poll: nothing yet while the
    /// request is pending, else the value, or the error that the poll gave.
    pub fn resolve(&self, answer: Result<PollOperationStatus, PollError>) -> (r: Option<
        Result<DeviceValue, PollError>,
    >)
        ensures
            r == match answer {
                Ok(PollOperationStatus::Ready(value)) => Some(
                    Ok::<DeviceValue, PollError>(value),
                ),
                Ok(PollOperationStatus::Pending) => None,
                Err(error) => Some(Err::<DeviceValue, PollError>(error)),
            },
    {
        match answer {
            Ok(PollOperationStatus::Ready(value)) => Some(Ok(value)),
            Ok(PollOperationStatus::Pending) => None,
            Err(error) => Some(Err(error)),
        }
    }
}

/// This acts like a single-value channel that only retains the most recent value.
pub struct ValueWatcher<T> {
    counter: usize,
    value: T,
}

/// A future value that resolves when its channel is updated.
#[derive(Clone, Copy, Debug, PartialEq, Eq, Structural)]
pub struct NextValue {
    counter: usize,
}

/// An asynchronous stream of values.
pub struct ValueStream {
    counter: usize,
}

impl<T: Copy> ValueWatcher<T> {
    /// Number of updates so far.
    pub closed spec fn updates(&self) -> int {
        self.counter as int
    }

    /// The value of the last update.
    pub closed spec fn current(&self) -> T {
        self.value
    }

    /// Create the channel, holding `initial` until the first update.
    pub fn new(initial: T) -> (r: Self)
        ensures
            r.updates() == 0,
            r.current() == initial,
    {
        ValueWatcher { counter: 0, value: initial }
    }

    /// Get the current value (returns immediately).
    pub fn get(&self) -> (r: T)
        ensures
            r == self.current(),
    {
        self.value
    }

    /// Number of updates so far.
    pub fn update_count(&self) -> (r: usize)
        ensures
            r == self.updates(),
    {
        self.counter
    }

    /// Update the current value.
    pub fn update(&mut self, value: T)
        requires
            old(self).updates() < usize::MAX,
        ensures
            final(self).updates() == old(self).updates() + 1,
            final(self).current() == value,
    {
        self.counter = self.counter + 1;
        self.value = value;
    }

    /// Wait for a new value (set using `update`): the future resolves at
    /// the first update after this call.
    pub fn next(&self) -> (r: NextValue)
        requires
            self.updates() < usize::MAX,
        ensures
            r.awaited() == self.updates() + 1,
    {
        NextValue { counter: self.counter + 1 }
    }

    /// Get a stream of new values; its first value is that of the next update.
    pub fn stream(&self) -> (r: ValueStream)
        ensures
            r.position() == self.updates(),
    {
        ValueStream { counter: self.counter }
    }
}

impl NextValue {
    /// The number of updates that the channel must have seen for this
    /// future to resolve.
    pub closed spec fn awaited(&self) -> int {
        self.counter as int
    }

}

/// A future fed by a single-value channel: polled against the channel, it
/// yields a value or is still pending.
pub trait ChannelFuture<T: Copy>: Sized {
    /// What the future resolves to.
    type Output;

    /// Whether the future may be polled against `sender`.
    spec fn pollable(&self, sender: &ValueWatcher<T>) -> bool;

    /// Whether a poll against `sender` may answer `outcome`.
    spec fn resolves(&self, sender: &ValueWatcher<T>, outcome: Option<Self::Output>) -> bool;

    /// Polls the future: `None` while it is pending.
    fn poll(&self, sender: &ValueWatcher<T>) -> (r: Option<Self::Output>)
        requires
            self.pollable(sender),
        ensures
            self.resolves(sender, r),
    ;
}

impl<T: Copy> ChannelFuture<T> for NextValue {
    type Output = T;

    open spec fn pollable(&self, sender: &ValueWatcher<T>) -> bool {
        true
    }

    open spec fn resolves(&self, sender: &ValueWatcher<T>, outcome: Option<T>) -> bool {
        outcome == if sender.updates() >= self.awaited() {
            Some(sender.current())
        } else {
            None
        }
    }

    fn poll(&self, sender: &ValueWatcher<T>) -> (r: Option<T>) {
        if sender.update_count() >= self.counter {
            Some(sender.get())
        } else {
            None
        }
    }
}

impl NextValue {
    /// Map the value to a new type.
    pub fn map<'a, M>(self, mapper: &'a M) -> (r: MappedValue<'a, NextValue, M>)
        ensures
            r.original == self,
            r.mapper == mapper,
    {
        MappedValue { original: self, mapper }
    }

    /// Filter the value with a predicate: the future stays pending while
    /// the value does not pass.
    pub fn filter<'a, P>(self, filter: &'a P) -> (r: FilteredValue<'a, NextValue, P>)
        ensures
            r.original == self,
            r.filter == filter,
    {
        FilteredValue { original: self, filter }
    }
}

/// A mapped future value.
pub struct MappedValue<'a, F, M> {
    pub original: F,
    pub mapper: &'a M,
}

impl<'a, F, M> MappedValue<'a, F, M> {
    pub fn new(original: F, mapper: &'a M) -> (r: Self)
        ensures
            r.original == original,
            r.mapper == mapper,
    {
        MappedValue { original, mapper }
    }

    /// Filter the value with a predicate.
    pub fn filter<P>(self, filter: &'a P) -> (r: FilteredValue<'a, Self, P>)
        ensures
            r.original == self,
            r.filter == filter,
    {
        FilteredValue { original: self, filter }
    }
}

impl<'a, T: Copy, F: ChannelFuture<T>, TM, M: Fn(F::Output) -> TM> ChannelFuture<
    T,
> for MappedValue<'a, F, M> {
    type Output = TM;

    open spec fn pollable(&self, sender: &ValueWatcher<T>) -> bool {
        &&& self.original.pollable(sender)
        &&& forall|value: F::Output| call_requires(*self.mapper, (value,))
    }

    /// Pending while the future underneath is pending; else what the mapper
    /// makes of its value.
    open spec fn resolves(&self, sender: &ValueWatcher<T>, outcome: Option<TM>) -> bool {
        exists|inner: Option<F::Output>| #[trigger]
            self.original.resolves(sender, inner) && match inner {
                Some(value) => outcome is Some && call_ensures(
                    *self.mapper,
                    (value,),
                    outcome->0,
                ),
                None => outcome is None,
            }
    }

    fn poll(&self, sender: &ValueWatcher<T>) -> (r: Option<TM>) {
        let inner = self.original.poll(sender);
        let r = match inner {
            Some(value) => Some((self.mapper)(value)),
            None => None,
        };
        r
    }
}

/// A filtered future value.
pub struct FilteredValue<'a, F, P> {
    pub original: F,
    pub filter: &'a P,
}

impl<'a, F, P> FilteredValue<'a, F, P> {
    pub fn new(original: F, filter: &'a P) -> (r: Self)
        ensures
            r.original == original,
            r.filter == filter,
    {
        FilteredValue { original, filter }
    }

    /// Map the filtered value to a new type.
    pub fn map<M>(self, mapper: &'a M) -> (r: MappedValue<'a, Self, M>)
        ensures
            r.original == self,
            r.mapper == mapper,
    {
        MappedValue { original: self, mapper }
    }
}

impl<'a, T: Copy, F: ChannelFuture<T>, P: Fn(&F::Output) -> bool> ChannelFuture<
    T,
> for FilteredValue<'a, F, P> {
    type Output = F::Output;

    open spec fn pollable(&self, sender: &ValueWatcher<T>) -> bool {
        &&& self.original.pollable(sender)
        &&& forall|value: F::Output| call_requires(*self.filter, (&value,))
    }

    /// Pending while the future underneath is pending or its value does not
    /// pass the filter; else that value.
    open spec fn resolves(&self, sender: &ValueWatcher<T>, outcome: Option<F::Output>) -> bool {
        exists|inner: Option<F::Output>| #[trigger]
            self.original.resolves(sender, inner) && match inner {
                Some(value) => exists|passes: bool| #[trigger]
                    call_ensures(*self.filter, (&value,), passes) && outcome == if passes {
                        Some(value)
                    } else {
                        None
                    },
                None => outcome is None,
            }
    }

    fn poll(&self, sender: &ValueWatcher<T>) -> (r: Option<F::Output>) {
        let inner = self.original.poll(sender);
        match inner {
            Some(value) => {
                let passes = (self.filter)(&value);
                if passes {
                    Some(value)
                } else {
                    None
                }
            },
            None => None,
        }
    }
}

impl ValueStream {
    /// Number of updates that the stream has handed out futures for, counted
    /// from the creation of the channel.
    pub closed spec fn position(&self) -> int {
        self.counter as int
    }

    /// Get the next value from the stream: the future awaits the later of
    /// the stream's own position and the channel's count of updates, and the
    /// stream moves one past it. Updates that came between two calls count
    /// as one.
    pub fn next<T: Copy>(&mut self, sender: &ValueWatcher<T>) -> (r: NextValue)
        requires
            old(self).position() < usize::MAX,
            sender.updates() < usize::MAX,
        ensures
            r.awaited() == if sender.updates() >= old(self).position() {
                sender.updates()
            } else {
                old(self).position()
            },
            final(self).position() == r.awaited() + 1,
    {
        let seen: usize = sender.update_count();
        let counter: usize = if seen >= self.counter {
            seen
        } else {
            self.counter
        };
        self.counter = counter + 1;
        NextValue { counter }
    }
}

} // verus!
