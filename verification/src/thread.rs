//! Telling the main thread from others.

use vstd::prelude::*;

verus! {

/// Asks `rustix::thread::gettid` for the number of the running thread.
///
/// Thread numbers are positive. Which one it is depends on the thread that asks.
#[verifier::external_body]
pub fn thread_id() -> (id: i32)
    ensures
        id > 0,
{
    rustix::thread::gettid().as_raw_nonzero().get()
}

/// Asks `rustix::process::getpid` for the number of the running process.
///
/// Process numbers are positive. Which one it is depends on the process.
#[verifier::external_body]
pub fn process_id() -> (id: i32)
    ensures
        id > 0,
{
    rustix::process::getpid().as_raw_nonzero().get()
}

/// Tells whether a thread is the main thread of a process: the main thread has
/// the number of the process.
pub fn is_main_thread_id(thread_id: i32, process_id: i32) -> (result: bool)
    ensures
        result == (thread_id == process_id),
{
    thread_id == process_id
}

/// Tells whether the caller runs on the main thread.
///
/// Asks the system for the number of the thread and for that of the process, and
/// says whether the two numbers that came back are the same.
pub fn is_main_thread() -> (result: bool)
    ensures
        exists|thread: i32, process: i32|
            #[trigger] call_ensures(thread_id, (), thread)
                && #[trigger] call_ensures(process_id, (), process) && thread > 0 && process > 0
                && result == (thread == process),
{
    let thread: i32 = thread_id();
    let process: i32 = process_id();
    assert(call_ensures(thread_id, (), thread));
    assert(call_ensures(process_id, (), process));
    is_main_thread_id(thread, process)
}

/// Reads the answer of systems that say by a number whether the caller runs on
/// the main thread.
pub fn is_main_thread_flag(flag: i32) -> (result: bool)
    ensures
        result == (flag == 1),
{
    flag == 1
}

/// Recognises the main thread by its name.
pub fn is_main_thread_name(name: Option<&str>) -> (result: bool)
    ensures
        result == (name is Some && name->0@ == "main"@),
{
    match name {
        Some(name) => name.to_owned() == "main".to_owned(),
        None => false,
    }
}

} // verus!
