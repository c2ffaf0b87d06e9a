//! The task handle: a payload and the ticks it may still run.

use std::ops::Deref;
use std::sync::atomic::{AtomicIsize, Ordering};
use vstd::prelude::*;

verus! {

/// Ticks that a task may run before it has to give way.
pub const MAX_TIME_SLICE: isize = 512;

/// A task as the scheduler sees it: the caller's payload, and a counter of
/// the ticks that are left of its time slice.
///
/// The counter is an atomic cell, so that a timer interrupt may count it down
/// while the handle is shared. Its content can change behind any shared
/// reference, and no contract in this crate speaks of it: what is read from
/// it is handed on as a plain number to the functions that decide.
pub struct SimpleTask<T> {
    inner: T,
    time_slice: AtomicIsize,
}

impl<T> SimpleTask<T> {
    /// The payload that the handle carries.
    pub closed spec fn payload(&self) -> T {
        self.inner
    }

    /// Wraps `inner` in a handle whose counter starts at [`MAX_TIME_SLICE`].
    pub fn new(inner: T) -> (task: Self)
        ensures
            task.payload() == inner,
    {
        Self { inner, time_slice: AtomicIsize::new(MAX_TIME_SLICE) }
    }

    /// The payload, read-only.
    pub fn inner(&self) -> (payload: &T)
        ensures
            *payload == self.payload(),
    {
        &self.inner
    }

    /// Reads the counter (acquire). Another context may write the cell at
    /// any moment, so nothing is promised of the number that comes back.
    pub(crate) fn times_slice(&self) -> isize {
        self.time_slice.load(Ordering::Acquire)
    }

    /// Sets the counter back to [`MAX_TIME_SLICE`] (release).
    pub(crate) fn reset_time_slice(&self) {
        self.time_slice.store(MAX_TIME_SLICE, Ordering::Release);
    }

    /// Takes one tick off the counter, in one atomic step (release), and
    /// gives the value that the counter had before. As with every read of
    /// the cell, nothing is promised of that value.
    pub(crate) fn take_tick(&self) -> isize {
        self.time_slice.fetch_sub(1, Ordering::Release)
    }
}

impl<T> Deref for SimpleTask<T> {
    type Target = T;

    /// A handle can stand wherever its payload is expected.
    #[inline]
    fn deref(&self) -> (payload: &T)
        ensures
            *payload == self.payload(),
    {
        &self.inner
    }
}

} // verus!
