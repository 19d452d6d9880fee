//! Laws of threads, monitors, and of windows and their attributes.

use vstd::prelude::*;

use crate::event_loop::{ActiveEventLoop, Backend, EventLoop};
use crate::request::{handle_request, WindowAction, WindowContext, WindowRequest};
use crate::thread::{
    is_main_thread, is_main_thread_flag, is_main_thread_id, is_main_thread_name, process_id,
    thread_id,
};
use crate::unix::{
    ActiveEventLoopExtUnix, AnyActiveEventLoop, AnyEventLoop, EventLoopExtUnix, MonitorExtUnix,
    MonitorHandle,
};
use crate::window::{
    AddressedRequest, ApplicationName, PlatformSpecificWindowAttributes, Window, WindowAttributes,
    WindowAttributesExtUnix, WindowExtUnix,
};

verus! {

/// A thread is the main thread exactly if it has the number of the process.
pub proof fn law_main_thread_has_the_number_of_the_process(thread: i32, process: i32, main: bool)
    requires
        call_ensures(is_main_thread_id, (thread, process), main),
    ensures
        main <==> thread == process,
{
}

/// Whether the caller is the main thread is decided by the numbers that the system gives
/// for the thread and for the process, as it is for any two numbers. Both are positive.
pub proof fn law_caller_is_told_by_its_numbers(main: bool)
    requires
        call_ensures(is_main_thread, (), main),
    ensures
        exists|thread: i32, process: i32|
            #[trigger] call_ensures(thread_id, (), thread)
                && #[trigger] call_ensures(process_id, (), process) && thread > 0 && process > 0 && (
            main <==> thread == process),
{
}

/// Only the number one says that the caller is the main thread.
pub proof fn law_flag_of_the_main_thread_is_one(flag: i32, main: bool)
    requires
        call_ensures(is_main_thread_flag, (flag,), main),
    ensures
        main <==> flag == 1,
{
}

/// Only a thread that has a name, and the four letters of `main` for it, is taken for the
/// main thread.
pub proof fn law_main_thread_is_called_main(name: Option<&str>, main: bool)
    requires
        call_ensures(is_main_thread_name, (name,), main),
    ensures
        name is None ==> !main,
        name is Some ==> (main <==> name->0@ == seq!['m', 'a', 'i', 'n']),
{
    reveal_strlit("main");
    assert("main"@ =~= seq!['m', 'a', 'i', 'n']);
}

/// A monitor gives the number under which the system keeps it.
pub proof fn law_monitors_give_their_numbers(monitor: MonitorHandle, number: u32)
    requires
        call_ensures(<MonitorHandle as MonitorExtUnix>::native, (&monitor,), number),
    ensures
        number == monitor.native_identifier,
{
}

/// Event loops of this platform say so, and no others do.
pub proof fn law_event_loops_know_their_platform<T>(
    event_loop: EventLoop<T>,
    active: ActiveEventLoop<T>,
    backend: Backend,
    of_this: bool,
    of_other: bool,
    active_of_this: bool,
    active_of_other: bool,
)
    requires
        call_ensures(
            <AnyEventLoop<T> as EventLoopExtUnix>::is_unix,
            (&AnyEventLoop::Unix(event_loop),),
            of_this,
        ),
        call_ensures(
            <AnyEventLoop<T> as EventLoopExtUnix>::is_unix,
            (&AnyEventLoop::<T>::Other(backend),),
            of_other,
        ),
        call_ensures(
            <AnyActiveEventLoop<T> as ActiveEventLoopExtUnix>::is_unix,
            (&AnyActiveEventLoop::Unix(active),),
            active_of_this,
        ),
        call_ensures(
            <AnyActiveEventLoop<T> as ActiveEventLoopExtUnix>::is_unix,
            (&AnyActiveEventLoop::<T>::Other(backend),),
            active_of_other,
        ),
    ensures
        of_this,
        !of_other,
        active_of_this,
        !active_of_other,
{
}

/// A name keeps its two parts in their places.
pub proof fn law_names_keep_their_parts(general: String, instance: String, name: ApplicationName)
    requires
        call_ensures(ApplicationName::new, (general, instance), name),
    ensures
        name.general == general,
        name.instance == instance,
{
}

/// Without further word a window has no name, no token and no parent, is in the task bar,
/// and has everything else switched on.
pub proof fn law_plain_windows_are_painted_by_the_application(
    attributes: PlatformSpecificWindowAttributes,
)
    requires
        call_ensures(<PlatformSpecificWindowAttributes as Default>::default, (), attributes),
    ensures
        attributes.name is None,
        attributes.activation_token is None,
        attributes.parent is None,
        !attributes.skip_taskbar,
        attributes.auto_transparent,
        attributes.double_buffered,
        attributes.rgba_visual,
        attributes.default_vbox,
        attributes.app_paintable,
{
}

/// Naming a window sets its name, both parts in their places, and leaves all other
/// attributes as they are.
pub proof fn law_naming_changes_the_name_alone<A>(
    attributes: WindowAttributes<A>,
    general: String,
    instance: String,
    named: WindowAttributes<A>,
)
    requires
        call_ensures(
            <WindowAttributes<A> as WindowAttributesExtUnix>::with_name,
            (attributes, general, instance),
            named,
        ),
    ensures
        ({
            let before = attributes.platform_specific;
            let after = named.platform_specific;
            &&& after.name matches Some(name) && name.general == general && name.instance
                == instance
            &&& after.activation_token == before.activation_token
            &&& after.parent == before.parent
            &&& after.skip_taskbar == before.skip_taskbar
            &&& after.auto_transparent == before.auto_transparent
            &&& after.double_buffered == before.double_buffered
            &&& after.rgba_visual == before.rgba_visual
            &&& after.default_vbox == before.default_vbox
            &&& after.app_paintable == before.app_paintable
        }),
        named.shared == attributes.shared,
{
}

/// A window that is to leave the task bar, or to come back, asks for itself, and the
/// toolkit is told so for the task bar and for the pager.
pub proof fn law_task_bar_requests_are_carried_out(
    window: Window,
    skip: bool,
    request: AddressedRequest,
    context: WindowContext,
    actions: Vec<WindowAction>,
)
    requires
        call_ensures(<Window as WindowExtUnix>::set_skip_taskbar, (&window, skip), request),
        context.found,
        call_ensures(handle_request, (request.request, context), actions),
    ensures
        request.window_id == window.window_id,
        request.request == WindowRequest::SetSkipTaskbar(skip),
        actions@ == seq![
            WindowAction::SetSkipTaskbarHint(skip),
            WindowAction::SetSkipPagerHint(skip),
        ],
{
}

} // verus!
