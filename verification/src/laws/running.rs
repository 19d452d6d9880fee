//! Laws of the event loop.

use vstd::prelude::*;

use crate::event_loop::{
    exit_result, ActiveEventLoop, ControlFlow, EventLoop, EventLoopError, OnDemandAction,
    OnDemandLoop, PlatformSpecificEventLoopAttributes, RunAction, RunLoop, RunPhase,
};
use crate::timeout::Duration;

verus! {

/// A run succeeds with the exit code zero and with no other. With any other code it
/// fails, and the failure tells the code.
pub proof fn law_only_zero_is_success(exit_code: i32, result: Result<(), EventLoopError>)
    requires
        call_ensures(exit_result, (exit_code,), result),
    ensures
        result is Ok <==> exit_code == 0,
        exit_code != 0 ==> result == Err::<(), EventLoopError>(
            EventLoopError::ExitFailure(exit_code),
        ),
{
}

/// Two runs that end alike ended with the same exit code.
pub proof fn law_results_tell_exit_codes_apart(
    a: i32,
    b: i32,
    result_a: Result<(), EventLoopError>,
    result_b: Result<(), EventLoopError>,
)
    requires
        call_ensures(exit_result, (a,), result_a),
        call_ensures(exit_result, (b,), result_b),
        result_a == result_b,
    ensures
        a == b,
{
}

/// A run first installs the handler, then waits for messages without a timeout. After
/// every wait it dispatches, and after every dispatch it waits, unless the application
/// has an exit code: then the loop is over, with that code.
pub proof fn law_steps_wait_and_dispatch_in_turn(
    run: &mut RunLoop,
    exit_code: Option<i32>,
    action: RunAction,
)
    requires
        call_ensures(RunLoop::step, (run, exit_code), action),
    ensures
        old(run).phase is Idle ==> action is SetEventHandler && final(run).phase is Installed,
        old(run).phase is Installed ==> action == RunAction::WaitForMessages(None)
            && final(run).phase is Waited,
        old(run).phase is Waited && exit_code is None ==> action is DispatchPeekedMessages
            && final(run).phase is Dispatched,
        old(run).phase is Dispatched && exit_code is None ==> action == RunAction::WaitForMessages(
            None,
        ) && final(run).phase is Waited,
        (old(run).phase is Waited || old(run).phase is Dispatched) && exit_code is Some ==> action
            is LoopDestroyed && final(run).phase == RunPhase::Destroyed(exit_code->0),
{
}

/// A run that is over keeps the exit code it ended with. It sets the runner back and
/// then returns, from then on at every step: success exactly if the code is zero, and
/// a failure with the code otherwise. What the exit code is by then makes no difference.
pub proof fn law_steps_return_the_exit_code(
    run: &mut RunLoop,
    code: i32,
    exit_code: Option<i32>,
    action: RunAction,
)
    requires
        call_ensures(RunLoop::step, (run, exit_code), action),
    ensures
        old(run).phase == RunPhase::Destroyed(code) ==> action is ResetRunner && final(run).phase
            == RunPhase::Reset(code),
        old(run).phase == RunPhase::Reset(code) || old(run).phase == RunPhase::Finished(code) ==> {
            &&& final(run).phase == RunPhase::Finished(code)
            &&& action matches RunAction::Return(result) && {
                &&& result is Ok <==> code == 0
                &&& code != 0 ==> result == Err::<(), EventLoopError>(
                    EventLoopError::ExitFailure(code),
                )
            }
        },
        action is Return <==> old(run).phase is Reset || old(run).phase is Finished,
{
}

/// From beginning to end a run installs the handler, waits and dispatches in turn until
/// the application has an exit code, declares the loop over, sets the runner back and
/// returns. The result is a success exactly if that code is zero, and a failure with
/// the code otherwise. Here the application first has an exit code when it is asked for
/// the `count`-th time, counted from zero. It is asked from the third step on.
pub proof fn law_runs_return_the_first_exit_code(
    exit_codes: Seq<Option<i32>>,
    count: nat,
    code: i32,
    i: int,
)
    requires
        exit_codes.len() >= count + 5,
        forall|k: int| 2 <= k < count + 2 ==> exit_codes[k] is None,
        exit_codes[count as int + 2] == Some(code),
    ensures
        ({
            let actions = crate::event_loop::run_actions(RunPhase::Idle, exit_codes);
            &&& actions.len() == count + 5
            &&& actions[0] is SetEventHandler
            &&& 1 <= i <= count + 1 && i % 2 == 1 ==> actions[i] == RunAction::WaitForMessages(None)
            &&& 1 <= i <= count + 1 && i % 2 == 0 ==> actions[i] is DispatchPeekedMessages
            &&& actions[count as int + 2] is LoopDestroyed
            &&& actions[count as int + 3] is ResetRunner
            &&& actions[count as int + 4] matches RunAction::Return(result) && {
                &&& result is Ok <==> code == 0
                &&& code != 0 ==> result == Err::<(), EventLoopError>(
                    EventLoopError::ExitFailure(code),
                )
            }
        }),
{
    crate::event_loop::law_run_proceeds_in_order(exit_codes, count, code);
    let actions = crate::event_loop::run_actions(RunPhase::Idle, exit_codes);
    let work = crate::event_loop::wait_and_dispatch(true, count + 1);
    if 1 <= i <= count + 1 {
        assert(actions[i] == work[i - 1]);
    }
}

/// Making an event loop never fails, whatever the attributes, and whether or not it must
/// run on the main thread. The loop knows of no window, is not over and waits.
pub proof fn law_event_loops_start_empty<T>(
    attributes: PlatformSpecificEventLoopAttributes,
    result: Result<EventLoop<T>, EventLoopError>,
    any_thread: Result<EventLoop<T>, EventLoopError>,
    id: usize,
)
    requires
        call_ensures(EventLoop::<T>::new, (&attributes,), result),
        call_ensures(EventLoop::<T>::new_any_thread, (&attributes,), any_thread),
    ensures
        result is Ok,
        !result->Ok_0.window_target.windows@.contains(id),
        !result->Ok_0.window_target.exit,
        result->Ok_0.window_target.control_flow is Wait,
        any_thread is Ok,
        !any_thread->Ok_0.window_target.windows@.contains(id),
        !any_thread->Ok_0.window_target.exit,
        any_thread->Ok_0.window_target.control_flow is Wait,
{
}

/// Without further word no display server is forced, the loop runs on the main thread
/// only, and it waits for events.
pub proof fn law_defaults_ask_for_nothing_special(
    attributes: PlatformSpecificEventLoopAttributes,
    control: ControlFlow,
)
    requires
        call_ensures(<PlatformSpecificEventLoopAttributes as Default>::default, (), attributes),
        call_ensures(<ControlFlow as Default>::default, (), control),
    ensures
        attributes.forced_backend is None,
        !attributes.any_thread,
        control is Wait,
{
}

/// The part of the loop that the application can reach is the loop's own.
pub proof fn law_application_reaches_the_loop<T>(
    event_loop: EventLoop<T>,
    target: &ActiveEventLoop<T>,
)
    requires
        call_ensures(EventLoop::<T>::window_target, (&event_loop,), target),
    ensures
        *target == event_loop.window_target,
{
}

/// Beginning a run marks the loop as over and changes nothing else about it. Nothing
/// was done yet in the run.
pub proof fn law_run_begins_idle<T>(event_loop: &mut EventLoop<T>, run: RunLoop)
    requires
        call_ensures(EventLoop::<T>::run, (event_loop,), run),
    ensures
        run.phase is Idle,
        final(event_loop).window_target.exit,
        final(event_loop).window_target.windows == old(event_loop).window_target.windows,
        final(event_loop).window_target.control_flow == old(event_loop).window_target.control_flow,
{
}

/// A run on demand begins with a fresh start, before the application is activated, and
/// waits, whatever the loop was set to.
pub proof fn law_run_on_demand_begins_fresh<T>(event_loop: EventLoop<T>, run: OnDemandLoop)
    requires
        call_ensures(EventLoop::<T>::run_app_on_demand, (event_loop,), run),
    ensures
        !run.activated,
        run.state is NewStart,
        run.control is Wait,
{
}

/// A step activates the application if it is not active. Otherwise it tells the
/// application of new events where the loop polls, and that the loop is about to wait
/// where it waits. Where it waits until a deadline, it says so exactly if the deadline
/// has come, and nothing before.
pub proof fn law_steps_on_demand_tell_what_is_due(
    run: &mut OnDemandLoop,
    now: Option<Duration>,
    action: OnDemandAction,
)
    requires
        call_ensures(OnDemandLoop::step, (run, now), action),
    ensures
        action is Activate <==> !old(run).activated,
        old(run).activated ==> {
            &&& action is NewEvents <==> old(run).control is Poll
            &&& old(run).control is Wait ==> action is AboutToWait
            &&& old(run).control matches ControlFlow::WaitUntil(deadline) ==> {
                &&& action is AboutToWait <==> now is Some && now->0@ >= deadline@
                &&& action is Nothing <==> !(now is Some && now->0@ >= deadline@)
            }
        },
        final(run).activated,
        final(run).state == old(run).state,
        final(run).control == old(run).control,
{
}

/// The time is needed exactly where the application is active and the loop waits until
/// a deadline. Where it is not, a step can be made without it.
pub proof fn law_time_is_needed_for_deadlines(run: OnDemandLoop, needed: bool)
    requires
        call_ensures(OnDemandLoop::needs_time, (&run,), needed),
    ensures
        needed <==> run.activated && run.control is WaitUntil,
{
}

/// Where the time is not needed, it makes no difference: from the same run, two steps at
/// different times do the same and lead to the same.
pub proof fn law_time_matters_only_where_it_is_needed(
    run: &mut OnDemandLoop,
    same: &mut OnDemandLoop,
    now: Option<Duration>,
    then: Option<Duration>,
    action: OnDemandAction,
    same_action: OnDemandAction,
)
    requires
        call_ensures(OnDemandLoop::needs_time, (&*old(run),), false),
        *old(run) == *old(same),
        call_ensures(OnDemandLoop::step, (run, now), action),
        call_ensures(OnDemandLoop::step, (same, then), same_action),
    ensures
        action == same_action,
        *final(run) == *final(same),
{
}

} // verus!
