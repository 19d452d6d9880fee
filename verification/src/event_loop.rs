//! The event loop: its state, and the order in which it does its work.

use std::collections::HashSet;
use std::marker::PhantomData;

use vstd::prelude::*;

use crate::timeout::Duration;

verus! {

/// A display server that the event loop can talk to.
#[derive(Debug, Clone, Copy, PartialEq, Eq, Hash)]
pub enum Backend {
    X,
    Wayland,
}

/// Settings with which an event loop is made.
#[derive(Debug, Clone, Copy, PartialEq, Eq, Hash)]
pub struct PlatformSpecificEventLoopAttributes {
    pub forced_backend: Option<Backend>,
    pub any_thread: bool,
}

impl Default for PlatformSpecificEventLoopAttributes {
    fn default() -> (attributes: Self)
        ensures
            attributes.forced_backend is None,
            !attributes.any_thread,
    {
        PlatformSpecificEventLoopAttributes { forced_backend: None, any_thread: false }
    }
}

/// What the event loop does when no event is left.
#[derive(Debug, Clone, Copy, PartialEq, Eq)]
pub enum ControlFlow {
    Poll,
    Wait,
    /// Wait until the time since the start of the loop's clock reaches the span.
    WaitUntil(Duration),
}

impl Default for ControlFlow {
    fn default() -> (control: Self)
        ensures
            control == ControlFlow::Wait,
    {
        ControlFlow::Wait
    }
}

/// Why an event loop failed.
#[derive(Debug, Clone, Copy, PartialEq, Eq)]
pub enum EventLoopError {
    /// The loop ended with an exit code other than zero.
    ExitFailure(i32),
}

/// The part of the event loop that the application can reach while it runs.
#[derive(Debug)]
pub struct ActiveEventLoop<T> {
    /// The windows of the application, by the numbers of their identifiers.
    pub windows: HashSet<usize>,
    pub exit: bool,
    pub control_flow: ControlFlow,
    pub marker: PhantomData<T>,
}

/// The event loop. `T` is the type of the events that the application sends
/// itself.
#[derive(Debug)]
pub struct EventLoop<T> {
    pub window_target: ActiveEventLoop<T>,
}

impl<T> EventLoop<T> {
    /// Makes an event loop that knows of no window yet.
    ///
    /// The attributes make no difference, and it never fails.
    pub fn new(attributes: &PlatformSpecificEventLoopAttributes) -> (result: Result<
        EventLoop<T>,
        EventLoopError,
    >)
        ensures
            result is Ok,
            result->Ok_0.window_target.windows@ == Set::<usize>::empty(),
            !result->Ok_0.window_target.exit,
            result->Ok_0.window_target.control_flow == ControlFlow::Wait,
    {
        Ok(
            EventLoop {
                window_target: ActiveEventLoop {
                    windows: HashSet::new(),
                    exit: false,
                    control_flow: ControlFlow::default(),
                    marker: PhantomData,
                },
            },
        )
    }

    /// Makes an event loop that need not run on the main thread. It is made like
    /// any other.
    pub fn new_any_thread(attributes: &PlatformSpecificEventLoopAttributes) -> (result: Result<
        EventLoop<T>,
        EventLoopError,
    >)
        ensures
            result is Ok,
            result->Ok_0.window_target.windows@ == Set::<usize>::empty(),
            !result->Ok_0.window_target.exit,
            result->Ok_0.window_target.control_flow == ControlFlow::Wait,
    {
        EventLoop::new(attributes)
    }

    /// The part of the event loop that the application can reach.
    pub fn window_target(&self) -> (target: &ActiveEventLoop<T>)
        ensures
            *target == self.window_target,
    {
        &self.window_target
    }

    /// Begins a run of the event loop. The run itself is carried out step by step:
    /// see `RunLoop`.
    pub fn run(&mut self) -> (run: RunLoop)
        ensures
            run.phase == RunPhase::Idle,
            *final(self) == (EventLoop {
                window_target: ActiveEventLoop { exit: true, ..old(self).window_target },
            }),
    {
        self.window_target.exit = true;
        RunLoop { phase: RunPhase::Idle }
    }

    /// Begins a run of the event loop that activates the application and then hands
    /// control to it once per iteration: see `OnDemandLoop`.
    pub fn run_app_on_demand(self) -> (run: OnDemandLoop)
        ensures
            !run.activated,
            run.state == EvenState::NewStart,
            run.control == ControlFlow::Wait,
    {
        OnDemandLoop {
            activated: false,
            state: EvenState::NewStart,
            control: ControlFlow::default(),
        }
    }
}

/// How far a run of the event loop has come.
#[derive(Debug, Clone, Copy, PartialEq, Eq)]
pub enum RunPhase {
    /// Nothing was done yet.
    Idle,
    /// The handler of the application is installed.
    Installed,
    /// Messages were waited for.
    Waited,
    /// The messages at hand were dispatched.
    Dispatched,
    /// The loop is over, with the given exit code, and was declared so.
    Destroyed(i32),
    /// The runner is set back, so that the handler is no longer installed.
    Reset(i32),
    /// The result of the given exit code was returned.
    Finished(i32),
}

/// What a run of the event loop does next.
#[derive(Debug, Clone, Copy, PartialEq, Eq)]
pub enum RunAction {
    SetEventHandler,
    /// Wait until there are messages, at most as long as the timeout. `None` is
    /// an infinite timeout.
    WaitForMessages(Option<Duration>),
    DispatchPeekedMessages,
    LoopDestroyed,
    ResetRunner,
    Return(Result<(), EventLoopError>),
}

/// The result of a run that ended with the exit code.
pub open spec fn result_of(exit_code: i32) -> Result<(), EventLoopError> {
    if exit_code == 0 {
        Ok(())
    } else {
        Err(EventLoopError::ExitFailure(exit_code))
    }
}

/// Turns an exit code into the result of a run.
pub fn exit_result(exit_code: i32) -> (result: Result<(), EventLoopError>)
    ensures
        result is Ok <==> exit_code == 0,
        exit_code != 0 ==> result == Err::<(), EventLoopError>(
            EventLoopError::ExitFailure(exit_code),
        ),
        result == result_of(exit_code),
{
    if exit_code == 0 {
        Ok(())
    } else {
        Err(EventLoopError::ExitFailure(exit_code))
    }
}

/// What a run does in the phase, and the phase that this leads to.
///
/// `exit_code` is the exit code of the application at that time, if it has
/// decided to exit. It is asked for after every wait and every dispatch.
pub open spec fn run_step(phase: RunPhase, exit_code: Option<i32>) -> (RunPhase, RunAction) {
    match phase {
        RunPhase::Idle => (RunPhase::Installed, RunAction::SetEventHandler),
        RunPhase::Installed => (RunPhase::Waited, RunAction::WaitForMessages(None)),
        RunPhase::Waited => match exit_code {
            Some(code) => (RunPhase::Destroyed(code), RunAction::LoopDestroyed),
            None => (RunPhase::Dispatched, RunAction::DispatchPeekedMessages),
        },
        RunPhase::Dispatched => match exit_code {
            Some(code) => (RunPhase::Destroyed(code), RunAction::LoopDestroyed),
            None => (RunPhase::Waited, RunAction::WaitForMessages(None)),
        },
        RunPhase::Destroyed(code) => (RunPhase::Reset(code), RunAction::ResetRunner),
        RunPhase::Reset(code) | RunPhase::Finished(code) => (
            RunPhase::Finished(code),
            RunAction::Return(result_of(code)),
        ),
    }
}

/// A run of the event loop.
#[derive(Debug)]
pub struct RunLoop {
    pub phase: RunPhase,
}

impl RunLoop {
    /// Decides what to do next. The action must be carried out before the next
    /// step. After `Return` the run is over, and a further step would only repeat
    /// the result.
    pub fn step(&mut self, exit_code: Option<i32>) -> (action: RunAction)
        ensures
            old(self).phase matches RunPhase::Reset(code) ==> action matches RunAction::Return(
                result,
            ) && (result is Ok <==> code == 0) && (code != 0 ==> result == Err::<
                (),
                EventLoopError,
            >(EventLoopError::ExitFailure(code))),
            (final(self).phase, action) == run_step(old(self).phase, exit_code),
    {
        match self.phase {
            RunPhase::Idle => {
                self.phase = RunPhase::Installed;
                RunAction::SetEventHandler
            },
            RunPhase::Installed => {
                self.phase = RunPhase::Waited;
                RunAction::WaitForMessages(None)
            },
            RunPhase::Waited => match exit_code {
                Some(code) => {
                    self.phase = RunPhase::Destroyed(code);
                    RunAction::LoopDestroyed
                },
                None => {
                    self.phase = RunPhase::Dispatched;
                    RunAction::DispatchPeekedMessages
                },
            },
            RunPhase::Dispatched => match exit_code {
                Some(code) => {
                    self.phase = RunPhase::Destroyed(code);
                    RunAction::LoopDestroyed
                },
                None => {
                    self.phase = RunPhase::Waited;
                    RunAction::WaitForMessages(None)
                },
            },
            RunPhase::Destroyed(code) => {
                self.phase = RunPhase::Reset(code);
                RunAction::ResetRunner
            },
            RunPhase::Reset(code) | RunPhase::Finished(code) => {
                self.phase = RunPhase::Finished(code);
                RunAction::Return(exit_result(code))
            },
        }
    }
}

/// Everything that a run does from the phase on until its result is returned, where `exit_codes` are the exit
/// codes at each of its steps.
pub open spec fn run_actions(phase: RunPhase, exit_codes: Seq<Option<i32>>) -> Seq<RunAction>
    decreases exit_codes.len(),
{
    if exit_codes.len() == 0 || phase is Finished {
        seq![]
    } else {
        let (next, action) = run_step(phase, exit_codes[0]);
        seq![action] + run_actions(next, exit_codes.drop_first())
    }
}

/// The work of a run before the application decides to exit: `count` times wait,
/// without a timeout, and dispatch in turn, beginning with a wait if `wait_first`.
pub open spec fn wait_and_dispatch(wait_first: bool, count: nat) -> Seq<RunAction> {
    Seq::new(
        count,
        |i: int|
            if (i % 2 == 0) == wait_first {
                RunAction::WaitForMessages(None)
            } else {
                RunAction::DispatchPeekedMessages
            },
    )
}

proof fn lemma_loop_until_exit(phase: RunPhase, exit_codes: Seq<Option<i32>>, count: nat, code: i32)
    requires
        phase is Waited || phase is Dispatched,
        exit_codes.len() >= count + 3,
        forall|i: int| 0 <= i < count ==> exit_codes[i] is None,
        exit_codes[count as int] == Some(code),
    ensures
        run_actions(phase, exit_codes) == wait_and_dispatch(phase is Dispatched, count) + seq![
            RunAction::LoopDestroyed,
            RunAction::ResetRunner,
            RunAction::Return(result_of(code)),
        ],
    decreases count,
{
    reveal_with_fuel(run_actions, 4);
    let rest = exit_codes.drop_first();
    if count == 0 {
        assert(exit_codes[0] == Some(code));
        let after = rest.drop_first();
        assert(rest.len() >= 2 && after.len() >= 1);
        assert(run_actions(RunPhase::Reset(code), after) =~= seq![
            RunAction::Return(result_of(code)),
        ]);
        assert(run_actions(RunPhase::Destroyed(code), rest) =~= seq![
            RunAction::ResetRunner,
            RunAction::Return(result_of(code)),
        ]);
    } else {
        assert(exit_codes[0] is None);
        let (next, action) = run_step(phase, exit_codes[0]);
        let left = (count - 1) as nat;
        assert forall|i: int| 0 <= i < left implies rest[i] is None by {
            assert(exit_codes[i + 1] is None);
        }
        lemma_loop_until_exit(next, rest, left, code);
        assert(seq![action] + wait_and_dispatch(next is Dispatched, left) =~= wait_and_dispatch(
            phase is Dispatched,
            count,
        ));
    }
    assert(run_actions(phase, exit_codes) =~= wait_and_dispatch(phase is Dispatched, count) + seq![
        RunAction::LoopDestroyed,
        RunAction::ResetRunner,
        RunAction::Return(result_of(code)),
    ]);
}

/// A run installs the handler, waits without a timeout and dispatches in turn until the application
/// has an exit code, and then declares the loop over, sets the runner back and
/// returns the result of that code. Here the application first has an exit code
/// when it is asked for the `count`-th time, counted from zero. It is asked from
/// the third step on.
pub proof fn law_run_proceeds_in_order(exit_codes: Seq<Option<i32>>, count: nat, code: i32)
    requires
        exit_codes.len() >= count + 5,
        forall|i: int| 2 <= i < count + 2 ==> exit_codes[i] is None,
        exit_codes[count as int + 2] == Some(code),
    ensures
        run_actions(RunPhase::Idle, exit_codes) == seq![RunAction::SetEventHandler]
            + wait_and_dispatch(true, count + 1) + seq![
            RunAction::LoopDestroyed,
            RunAction::ResetRunner,
            RunAction::Return(result_of(code)),
        ],
{
    reveal_with_fuel(run_actions, 3);
    let rest = exit_codes.drop_first().drop_first();
    assert forall|i: int| 0 <= i < count implies rest[i] is None by {
        assert(exit_codes[i + 2] is None);
    }
    assert(rest[count as int] == exit_codes[count as int + 2]);
    lemma_loop_until_exit(RunPhase::Waited, rest, count, code);
    assert(seq![RunAction::WaitForMessages(None)] + wait_and_dispatch(false, count)
        =~= wait_and_dispatch(true, count + 1));
    assert(run_actions(RunPhase::Idle, exit_codes) =~= seq![RunAction::SetEventHandler] + (seq![
        RunAction::WaitForMessages(None),
    ] + run_actions(RunPhase::Waited, rest)));
    assert(run_actions(RunPhase::Idle, exit_codes) =~= seq![RunAction::SetEventHandler]
        + wait_and_dispatch(true, count + 1) + seq![
        RunAction::LoopDestroyed,
        RunAction::ResetRunner,
        RunAction::Return(result_of(code)),
    ]);
}

/// Without an exit code a run goes on waiting and dispatching for ever.
pub proof fn law_run_ends_only_by_exit_code(phase: RunPhase, exit_codes: Seq<Option<i32>>)
    requires
        phase is Idle || phase is Installed || phase is Waited || phase is Dispatched,
        forall|i: int| 0 <= i < exit_codes.len() ==> exit_codes[i] is None,
    ensures
        run_actions(phase, exit_codes).len() == exit_codes.len(),
        forall|i: int|
            0 <= i < exit_codes.len() ==> {
                let action = #[trigger] run_actions(phase, exit_codes)[i];
                action is SetEventHandler || action is WaitForMessages
                    || action is DispatchPeekedMessages
            },
    decreases exit_codes.len(),
{
    if exit_codes.len() > 0 {
        let (next, action) = run_step(phase, exit_codes[0]);
        let rest = exit_codes.drop_first();
        assert forall|i: int| 0 <= i < rest.len() implies rest[i] is None by {
            assert(exit_codes[i + 1] is None);
        }
        law_run_ends_only_by_exit_code(next, rest);
        assert forall|i: int| 0 <= i < exit_codes.len() implies ({
            let action = #[trigger] run_actions(phase, exit_codes)[i];
            action is SetEventHandler || action is WaitForMessages
                || action is DispatchPeekedMessages
        }) by {
            if i > 0 {
                assert(run_actions(phase, exit_codes)[i] == run_actions(next, rest)[i - 1]);
            }
        }
    }
}

/// The handler is installed in the phase.
pub open spec fn handler_installed(phase: RunPhase) -> bool {
    !(phase is Idle || phase is Reset || phase is Finished)
}

/// The handler is installed by one action and removed by one other, and a result
/// is returned only when it is not installed. While it is installed the runner is
/// set back before anything is returned.
pub proof fn law_handler_is_removed_before_return(phase: RunPhase, exit_code: Option<i32>)
    ensures
        ({
            let (next, action) = run_step(phase, exit_code);
            &&& action is SetEventHandler <==> !handler_installed(phase) && handler_installed(next)
            &&& action is ResetRunner <==> handler_installed(phase) && !handler_installed(next)
            &&& action is Return ==> !handler_installed(phase)
            &&& action is WaitForMessages || action is DispatchPeekedMessages
                || action is LoopDestroyed ==> handler_installed(phase)
            &&& action is Return <==> next is Finished
        }),
{
}

/// Where a run that hands control to the application looks for work.
#[derive(Debug, Clone, Copy, PartialEq, Eq)]
pub enum EvenState {
    NewStart,
    EventQueue,
    DrawQueue,
}

/// What a run that hands control to the application does next.
#[derive(Debug, Clone, Copy, PartialEq, Eq)]
pub enum OnDemandAction {
    /// Activate the application.
    Activate,
    /// Tell the application of new events.
    NewEvents,
    /// Tell the application that the loop is about to wait.
    AboutToWait,
    Nothing,
}

/// A run of the event loop that activates the application and then hands control
/// to it once per iteration. It has no end of its own.
#[derive(Debug, Clone, Copy, PartialEq, Eq)]
pub struct OnDemandLoop {
    pub activated: bool,
    pub state: EvenState,
    pub control: ControlFlow,
}

/// What the application is told in an iteration at time `now`. The time matters
/// only where there is a deadline.
pub open spec fn told_at(control: ControlFlow, now: Option<nat>) -> OnDemandAction {
    match (control, now) {
        (ControlFlow::Poll, _) => OnDemandAction::NewEvents,
        (ControlFlow::Wait, _) => OnDemandAction::AboutToWait,
        (ControlFlow::WaitUntil(deadline), Some(now)) if now >= deadline@ => {
            OnDemandAction::AboutToWait
        },
        (ControlFlow::WaitUntil(_), _) => OnDemandAction::Nothing,
    }
}

/// What a run does at time `now`, and the run that this leads to: it activates the
/// application if it has not, and otherwise tells it what is due.
pub open spec fn on_demand_step(run: OnDemandLoop, now: Option<nat>) -> (
    OnDemandLoop,
    OnDemandAction,
) {
    if run.activated {
        (run, told_at(run.control, now))
    } else {
        (OnDemandLoop { activated: true, ..run }, OnDemandAction::Activate)
    }
}

impl OnDemandLoop {
    /// The next step depends on the time.
    pub open spec fn time_matters(self) -> bool {
        self.activated && self.control is WaitUntil
    }

    /// Tells whether the next step depends on the time.
    pub fn needs_time(&self) -> (result: bool)
        ensures
            result == self.time_matters(),
    {
        self.activated && matches!(self.control, ControlFlow::WaitUntil(_))
    }

    /// Decides what to do next. `now` is the time since the start of the loop's
    /// clock, which may be left out where it does not matter. Only a fresh start is
    /// handled.
    pub fn step(&mut self, now: Option<Duration>) -> (action: OnDemandAction)
        requires
            old(self).state is NewStart,
            old(self).time_matters() ==> now is Some,
        ensures
            (*final(self), action) == on_demand_step(
                *old(self),
                crate::timeout::timeout_nanos(now),
            ),
    {
        if !self.activated {
            self.activated = true;
            return OnDemandAction::Activate;
        }
        match self.control {
            ControlFlow::Poll => OnDemandAction::NewEvents,
            ControlFlow::Wait => OnDemandAction::AboutToWait,
            ControlFlow::WaitUntil(deadline) => match now {
                Some(now) => {
                    if now.at_least(&deadline) {
                        OnDemandAction::AboutToWait
                    } else {
                        OnDemandAction::Nothing
                    }
                },
                None => OnDemandAction::Nothing,
            },
        }
    }
}

/// Everything that a run does, where `times` are the times of its steps.
pub open spec fn on_demand_actions(run: OnDemandLoop, times: Seq<Option<nat>>) -> Seq<
    OnDemandAction,
>
    decreases times.len(),
{
    if times.len() == 0 {
        seq![]
    } else {
        let (next, action) = on_demand_step(run, times[0]);
        seq![action] + on_demand_actions(next, times.drop_first())
    }
}

/// Once the application is activated, every step tells it what is due at its time.
proof fn lemma_activated_run(run: OnDemandLoop, times: Seq<Option<nat>>)
    requires
        run.activated,
    ensures
        on_demand_actions(run, times) == Seq::new(
            times.len(),
            |i: int| told_at(run.control, times[i]),
        ),
    decreases times.len(),
{
    let expected = Seq::new(times.len(), |i: int| told_at(run.control, times[i]));
    if times.len() > 0 {
        lemma_activated_run(run, times.drop_first());
    }
    assert(on_demand_actions(run, times) =~= expected);
}

/// A run activates the application first of all and never again. Every step after
/// that tells the application what is due at its time.
pub proof fn law_application_is_activated_once_and_first(
    run: OnDemandLoop,
    times: Seq<Option<nat>>,
)
    requires
        !run.activated,
    ensures
        on_demand_actions(run, times).len() == times.len(),
        forall|i: int|
            0 <= i < times.len() ==> #[trigger] on_demand_actions(run, times)[i] == if i == 0 {
                OnDemandAction::Activate
            } else {
                told_at(run.control, times[i])
            },
        forall|i: int|
            0 <= i < times.len() ==> (#[trigger] on_demand_actions(run, times)[i] is Activate
                <==> i == 0),
{
    if times.len() > 0 {
        let (next, action) = on_demand_step(run, times[0]);
        lemma_activated_run(next, times.drop_first());
        assert forall|i: int| 0 < i < times.len() implies #[trigger] on_demand_actions(
            run,
            times,
        )[i] == told_at(run.control, times[i]) by {
            assert(on_demand_actions(run, times)[i] == on_demand_actions(
                next,
                times.drop_first(),
            )[i - 1]);
        }
    }
}

/// Once a deadline has passed, the application is told so in every iteration.
pub proof fn law_passed_deadline_stays_passed(control: ControlFlow, earlier: nat, later: nat)
    requires
        earlier <= later,
        told_at(control, Some(earlier)) is AboutToWait,
    ensures
        told_at(control, Some(later)) is AboutToWait,
{
}

} // verus!
