//! The decision logic of a GTK windowing backend.
//!
//! Every rule that the backend follows stands in this crate as a verified
//! function over plain values: which edge of a borderless window the pointer is
//! on, which toolkit calls a window request leads to, which events a toolkit
//! signal produces, how long the event loop may wait and when it ends. The
//! toolkit itself is driven from outside: a caller reads plain values from it,
//! asks the functions here what to do, and carries the answer out.

pub mod event;
pub mod event_loop;
pub mod geometry;
pub mod laws;
pub mod pointer;
pub mod request;
pub mod scale;
pub mod signals;
pub mod thread;
pub mod timeout;
pub mod unix;
pub mod window;

