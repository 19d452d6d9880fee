//! What this platform adds to monitors and event loops.

use vstd::prelude::*;

use crate::event_loop::{ActiveEventLoop, Backend, EventLoop};

verus! {

/// A monitor.
#[derive(Debug, Clone, Copy, PartialEq, Eq)]
pub struct MonitorHandle {
    /// The number under which the system keeps the monitor.
    pub native_identifier: u32,
}

/// What this platform adds to monitors.
pub trait MonitorExtUnix {
    /// The number that `native` gives.
    spec fn native_number(&self) -> u32;

    /// The number under which the system keeps the monitor.
    fn native(&self) -> (number: u32)
        ensures
            number == self.native_number(),
    ;
}

impl MonitorExtUnix for MonitorHandle {
    open spec fn native_number(&self) -> u32 {
        self.native_identifier
    }

    fn native(&self) -> (number: u32) {
        self.native_identifier
    }
}

/// An event loop of any platform.
#[derive(Debug)]
pub enum AnyEventLoop<T> {
    Unix(EventLoop<T>),
    Other(Backend),
}

/// A running event loop of any platform.
#[derive(Debug)]
pub enum AnyActiveEventLoop<T> {
    Unix(ActiveEventLoop<T>),
    Other(Backend),
}

/// What this platform adds to event loops.
pub trait EventLoopExtUnix {
    /// The event loop belongs to this platform.
    spec fn of_unix(&self) -> bool;

    /// Tells whether the event loop belongs to this platform.
    fn is_unix(&self) -> (result: bool)
        ensures
            result == self.of_unix(),
    ;
}

impl<T> EventLoopExtUnix for AnyEventLoop<T> {
    open spec fn of_unix(&self) -> bool {
        *self is Unix
    }

    fn is_unix(&self) -> (result: bool) {
        matches!(self, AnyEventLoop::Unix(_))
    }
}

/// What this platform adds to running event loops.
pub trait ActiveEventLoopExtUnix {
    /// The event loop belongs to this platform.
    spec fn of_unix(&self) -> bool;

    /// Tells whether the event loop belongs to this platform.
    fn is_unix(&self) -> (result: bool)
        ensures
            result == self.of_unix(),
    ;
}

impl<T> ActiveEventLoopExtUnix for AnyActiveEventLoop<T> {
    open spec fn of_unix(&self) -> bool {
        *self is Unix
    }

    fn is_unix(&self) -> (result: bool) {
        matches!(self, AnyActiveEventLoop::Unix(_))
    }
}

} // verus!
