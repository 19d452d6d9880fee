//! What the functions of this crate promise, said of the values that go in and of
//! the values that come out.
//!
//! A law takes the arguments and the result of one or more calls, as
//! `call_ensures` ties them together, and states how they are related in plain
//! numbers, fields and variants.

pub mod borders;
pub mod events;
pub mod pixels;
pub mod platform;
pub mod requests;
pub mod running;
pub mod signals;
pub mod spans;
