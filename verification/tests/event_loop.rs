use winit_gtk::event_loop::{
    exit_result, ActiveEventLoop, Backend, ControlFlow, EvenState, EventLoop, EventLoopError,
    OnDemandAction, OnDemandLoop, PlatformSpecificEventLoopAttributes, RunAction,
};
use winit_gtk::thread::{
    is_main_thread, is_main_thread_flag, is_main_thread_id, is_main_thread_name, process_id,
    thread_id,
};
use winit_gtk::timeout::{min_timeout, Duration};
use winit_gtk::unix::{
    ActiveEventLoopExtUnix, AnyActiveEventLoop, AnyEventLoop, EventLoopExtUnix, MonitorExtUnix,
    MonitorHandle,
};
use winit_gtk::window::{
    ActivationToken, ApplicationName, PlatformSpecificWindowAttributes, WindowAttributes,
    WindowAttributesExtUnix,
};

fn fresh() -> EventLoop<()> {
    EventLoop::new(&PlatformSpecificEventLoopAttributes::default()).unwrap()
}

#[test]
fn new_loop_is_empty() {
    let forced = PlatformSpecificEventLoopAttributes {
        forced_backend: Some(Backend::Wayland),
        any_thread: true,
    };
    for event_loop in
        [fresh(), EventLoop::new(&forced).unwrap(), EventLoop::new_any_thread(&forced).unwrap()]
    {
        let target: &ActiveEventLoop<()> = event_loop.window_target();
        assert!(target.windows.is_empty());
        assert!(!target.exit);
        assert_eq!(target.control_flow, ControlFlow::Wait);
    }
}

#[test]
fn default_loop_attributes() {
    let attributes = PlatformSpecificEventLoopAttributes::default();
    assert_eq!(attributes.forced_backend, None);
    assert!(!attributes.any_thread);
}

#[test]
fn exit_codes_become_results() {
    assert_eq!(exit_result(0), Ok(()));
    assert_eq!(exit_result(1), Err(EventLoopError::ExitFailure(1)));
    assert_eq!(exit_result(-1), Err(EventLoopError::ExitFailure(-1)));
}

#[test]
fn run_ends_after_a_wait() {
    let mut event_loop = fresh();
    let mut run = event_loop.run();
    assert!(event_loop.window_target().exit);
    let mut actions = Vec::new();
    for exit_code in [None, None, None, None, Some(0), None, None] {
        actions.push(run.step(exit_code));
    }
    assert_eq!(
        actions,
        vec![
            RunAction::SetEventHandler,
            RunAction::WaitForMessages(None),
            RunAction::DispatchPeekedMessages,
            RunAction::WaitForMessages(None),
            RunAction::LoopDestroyed,
            RunAction::ResetRunner,
            RunAction::Return(Ok(())),
        ]
    );
}

#[test]
fn run_ends_after_a_dispatch_with_its_first_exit_code() {
    let mut run = fresh().run();
    let mut actions = Vec::new();
    for exit_code in [Some(1), Some(2), None, Some(3), Some(4), Some(5), Some(6)] {
        actions.push(run.step(exit_code));
    }
    assert_eq!(
        actions,
        vec![
            RunAction::SetEventHandler,
            RunAction::WaitForMessages(None),
            RunAction::DispatchPeekedMessages,
            RunAction::LoopDestroyed,
            RunAction::ResetRunner,
            RunAction::Return(Err(EventLoopError::ExitFailure(3))),
            RunAction::Return(Err(EventLoopError::ExitFailure(3))),
        ]
    );
}

#[test]
fn run_without_exit_code_goes_on() {
    let mut run = fresh().run();
    assert_eq!(run.step(None), RunAction::SetEventHandler);
    for _ in 0..100 {
        assert_eq!(run.step(None), RunAction::WaitForMessages(None));
        assert_eq!(run.step(None), RunAction::DispatchPeekedMessages);
    }
}

#[test]
fn on_demand_run_activates_first_and_once() {
    let mut run = fresh().run_app_on_demand();
    assert!(!run.activated);
    assert_eq!(run.state, EvenState::NewStart);
    assert_eq!(run.control, ControlFlow::Wait);
    assert!(!run.needs_time());
    assert_eq!(run.step(None), OnDemandAction::Activate);
    assert!(run.activated);
    for _ in 0..100 {
        assert!(!run.needs_time());
        assert_eq!(run.step(None), OnDemandAction::AboutToWait);
    }
    assert_eq!(run.step(Some(Duration::from_parts(7, 0))), OnDemandAction::AboutToWait);
}

#[test]
fn on_demand_run_follows_the_control_flow() {
    let with =
        |control| OnDemandLoop { activated: true, state: EvenState::NewStart, control };
    let deadline = Duration::from_parts(10, 500);
    let mut run = with(ControlFlow::WaitUntil(deadline));
    assert!(run.needs_time());
    assert_eq!(run.step(Some(Duration::from_parts(10, 499))), OnDemandAction::Nothing);
    assert_eq!(run.step(Some(Duration::from_parts(9, 999_999_999))), OnDemandAction::Nothing);
    assert_eq!(run.step(Some(deadline)), OnDemandAction::AboutToWait);
    assert_eq!(run.step(Some(Duration::from_parts(11, 0))), OnDemandAction::AboutToWait);
    let mut polling = with(ControlFlow::Poll);
    assert!(!polling.needs_time());
    assert_eq!(polling.step(None), OnDemandAction::NewEvents);
}

#[test]
fn on_demand_run_activates_before_a_passed_deadline() {
    let mut run = OnDemandLoop {
        activated: false,
        state: EvenState::NewStart,
        control: ControlFlow::WaitUntil(Duration::from_parts(0, 0)),
    };
    assert!(!run.needs_time());
    assert_eq!(run.step(None), OnDemandAction::Activate);
    assert!(run.needs_time());
    assert_eq!(run.step(Some(Duration::from_parts(0, 0))), OnDemandAction::AboutToWait);
}

#[test]
fn shorter_timeout_wins() {
    let short = Some(Duration::from_parts(1, 999_999_999));
    let long = Some(Duration::from_parts(2, 0));
    assert_eq!(min_timeout(short, long), short);
    assert_eq!(min_timeout(long, short), short);
    assert_eq!(min_timeout(long, long), long);
    let longer = Some(Duration::from_parts(2, 1));
    assert_eq!(min_timeout(longer, long), long);
    assert_eq!(min_timeout(min_timeout(longer, short), long), short);
}

#[test]
fn timeouts_of_equal_length_are_equal() {
    let a = Duration::from_parts(4, 9);
    let b = Duration::from_parts(4, 9);
    assert!(a.at_least(&b) && b.at_least(&a));
    assert_eq!(a, b);
    let zero = Some(Duration::from_parts(0, 0));
    assert_eq!(min_timeout(Some(a), zero), zero);
    assert_eq!(min_timeout(zero, Some(a)), zero);
}

#[test]
fn no_timeout_is_infinite() {
    let zero = Some(Duration::from_parts(0, 0));
    let most = Some(Duration::from_parts(u64::MAX, 999_999_999));
    assert_eq!(min_timeout(None, None), None);
    assert_eq!(min_timeout(zero, None), zero);
    assert_eq!(min_timeout(None, zero), zero);
    assert_eq!(min_timeout(None, most), most);
    assert_eq!(min_timeout(most, None), most);
}

#[test]
fn durations_keep_their_parts() {
    let span = Duration::from_parts(3, 40);
    assert_eq!((span.as_secs(), span.subsec_nanos()), (3, 40));
}

#[test]
fn main_thread_has_the_number_of_the_process() {
    assert!(is_main_thread_id(12, 12));
    assert!(!is_main_thread_id(13, 12));
    let same = rustix::thread::gettid() == rustix::process::getpid();
    assert_eq!(is_main_thread(), same);
    assert_eq!(is_main_thread(), is_main_thread_id(thread_id(), process_id()));
    assert_eq!(thread_id(), rustix::thread::gettid().as_raw_nonzero().get());
    assert_eq!(process_id(), rustix::process::getpid().as_raw_nonzero().get());
}

#[test]
fn main_thread_by_flag_or_name() {
    assert!(is_main_thread_flag(1));
    assert!(!is_main_thread_flag(0));
    assert!(!is_main_thread_flag(-1));
    assert!(is_main_thread_name(Some("main")));
    assert!(!is_main_thread_name(Some("worker")));
    assert!(!is_main_thread_name(None));
}

#[test]
fn default_window_attributes() {
    let attributes = PlatformSpecificWindowAttributes::default();
    assert_eq!(attributes.name, None);
    assert_eq!(attributes.activation_token, None);
    assert_eq!(attributes.parent, None);
    assert!(!attributes.skip_taskbar);
    assert!(attributes.auto_transparent);
    assert!(attributes.double_buffered);
    assert!(attributes.rgba_visual);
    assert!(attributes.default_vbox);
    assert!(attributes.app_paintable);
}

#[test]
fn name_is_set_and_nothing_else() {
    let token = Some(ActivationToken { token: "t".to_string() });
    let attributes = WindowAttributes {
        shared: 9,
        platform_specific: PlatformSpecificWindowAttributes {
            activation_token: token.clone(),
            ..PlatformSpecificWindowAttributes::default()
        },
    };
    let named = attributes
        .with_name("a".to_string(), "b".to_string())
        .with_name("general".to_string(), "instance".to_string());
    assert_eq!(named.shared, 9);
    assert_eq!(
        named.platform_specific,
        PlatformSpecificWindowAttributes {
            name: Some(ApplicationName::new("general".to_string(), "instance".to_string())),
            activation_token: token,
            ..PlatformSpecificWindowAttributes::default()
        }
    );
}

#[test]
fn monitors_give_their_number() {
    assert_eq!(MonitorHandle { native_identifier: 17 }.native(), 17);
}

#[test]
fn platform_of_event_loops() {
    assert!(AnyEventLoop::Unix(fresh()).is_unix());
    assert!(!AnyEventLoop::<()>::Other(Backend::X).is_unix());
    assert!(AnyActiveEventLoop::Unix(fresh().window_target).is_unix());
    assert!(!AnyActiveEventLoop::<()>::Other(Backend::Wayland).is_unix());
}
