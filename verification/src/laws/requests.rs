//! Laws of the requests that the application makes of a window.

use std::rc::Rc;
use std::sync::atomic::AtomicBool;

use vstd::prelude::*;

use crate::request::{
    handle_request, serve_request, wire_up_events, Icon, Rectangle, Service,
    Signal, UserAttentionType, WindowAction, WindowContext, WindowRequest,
};

verus! {

/// A request to show a window that exists is one call, to show it, and one to hide it
/// is one call, to hide it, wherever the pointer is and whether or not the window has
/// a screen or a surface.
pub proof fn law_windows_are_shown_and_hidden_on_request(
    visible: bool,
    context: WindowContext,
    actions: Vec<WindowAction>,
)
    requires
        context.found,
        call_ensures(handle_request, (WindowRequest::Visible(visible), context), actions),
    ensures
        visible ==> actions@ == seq![WindowAction::ShowAll],
        !visible ==> actions@ == seq![WindowAction::Hide],
        actions@.contains(WindowAction::ShowAll) <==> visible,
        actions@.contains(WindowAction::Hide) <==> !visible,
{
    assert(actions@[0] is ShowAll <==> visible);
    assert(actions@[0] is Hide <==> !visible);
}

/// Of a window that exists, a request asks for the same calls whatever the pointer,
/// the screen and the surface of the window are. The two exceptions are to move the
/// window with the pointer and to move the pointer itself, which look at the pointer
/// and at the screen. Making the window report events names the same input, in lists
/// that are equal item by item.
pub proof fn law_requests_do_not_depend_on_the_surroundings(
    request: WindowRequest,
    context: WindowContext,
    elsewhere: WindowContext,
    actions: Vec<WindowAction>,
    actions_elsewhere: Vec<WindowAction>,
)
    requires
        context.found,
        elsewhere.found,
        call_ensures(handle_request, (request, context), actions),
        call_ensures(handle_request, (request, elsewhere), actions_elsewhere),
    ensures
        request !is DragWindow && request !is CursorPosition && request !is WireUpEvents
            ==> actions@ == actions_elsewhere@,
        request is DragWindow && context.pointer == elsewhere.pointer ==> actions@
            == actions_elsewhere@,
        request is CursorPosition && (context.pointer is Some <==> elsewhere.pointer is Some)
            && context.has_screen == elsewhere.has_screen ==> actions@ == actions_elsewhere@,
        request is WireUpEvents ==> {
            &&& actions@.len() == actions_elsewhere@.len()
            &&& actions@.skip(1) == actions_elsewhere@.skip(1)
        },
{
    if let WindowRequest::WireUpEvents { transparent } = request {
        assert forall|i: int| 0 <= i < 17 implies actions@.skip(1)[i] == actions_elsewhere@.skip(
            1,
        )[i] by {
            assert(actions@[i + 1] == actions_elsewhere@[i + 1]);
        }
    }
}

/// A request for a window that does not exist leads to no call at all.
pub proof fn law_requests_for_missing_windows_are_dropped(
    request: WindowRequest,
    context: WindowContext,
    actions: Vec<WindowAction>,
)
    requires
        !context.found,
        call_ensures(handle_request, (request, context), actions),
    ensures
        actions@ == Seq::<WindowAction>::empty(),
        call_requires(handle_request, (request, context)),
        call_requires(serve_request, (request, context)),
{
}

/// The title, the place, the size and the frame of a window are set to what is asked
/// for, by one call each.
pub proof fn law_properties_are_set_to_what_is_asked_for(
    title: String,
    x: i32,
    y: i32,
    flag: bool,
    icon: Icon,
    context: WindowContext,
    request: WindowRequest,
    actions: Vec<WindowAction>,
)
    requires
        context.found,
        call_ensures(handle_request, (request, context), actions),
    ensures
        request == WindowRequest::Title(title) ==> actions@ == seq![WindowAction::SetTitle(title)],
        request == WindowRequest::Position((x, y)) ==> actions@ == seq![WindowAction::MoveTo(x, y)],
        request == WindowRequest::Size((x, y)) ==> actions@ == seq![WindowAction::Resize(x, y)],
        request == WindowRequest::Resizable(flag) ==> actions@ == seq![
            WindowAction::SetResizable(flag),
        ],
        request == WindowRequest::Decorations(flag) ==> actions@ == seq![
            WindowAction::SetDecorated(flag),
        ],
        request == WindowRequest::AlwaysOnBottom(flag) ==> actions@ == seq![
            WindowAction::SetKeepBelow(flag),
        ],
        request == WindowRequest::AlwaysOnTop(flag) ==> actions@ == seq![
            WindowAction::SetKeepAbove(flag),
        ],
        request == WindowRequest::WindowIcon(Some(icon)) ==> actions@ == seq![
            WindowAction::SetIcon(icon),
        ],
        request == WindowRequest::WindowIcon(None) ==> actions@.len() == 0,
        request == WindowRequest::SetSkipTaskbar(flag) ==> actions@ == seq![
            WindowAction::SetSkipTaskbarHint(flag),
            WindowAction::SetSkipPagerHint(flag),
        ],
{
}

/// A window is minimized, maximized and put back by one call each, and it asks for
/// attention for as long as any kind of attention is asked for.
pub proof fn law_states_are_entered_and_left_on_request(
    context: WindowContext,
    request: WindowRequest,
    attention: UserAttentionType,
    actions: Vec<WindowAction>,
)
    requires
        context.found,
        call_ensures(handle_request, (request, context), actions),
    ensures
        request == WindowRequest::Minimized(true) ==> actions@ == seq![WindowAction::Iconify],
        request == WindowRequest::Minimized(false) ==> actions@ == seq![WindowAction::Deiconify],
        request == WindowRequest::Maximized(true) ==> actions@ == seq![WindowAction::Maximize],
        request == WindowRequest::Maximized(false) ==> actions@ == seq![WindowAction::Unmaximize],
        request == WindowRequest::UserAttention(Some(attention)) ==> actions@ == seq![
            WindowAction::SetUrgencyHint(true),
        ],
        request == WindowRequest::UserAttention(None) ==> actions@ == seq![
            WindowAction::SetUrgencyHint(false),
        ],
{
}

/// A window is moved with the pointer from where the pointer is, with the first button
/// and at time zero, if there is a pointer. The pointer is moved to where it is asked
/// to go if there is one and the window is on a screen.
pub proof fn law_pointer_requests_need_a_pointer(
    x: i32,
    y: i32,
    context: WindowContext,
    request: WindowRequest,
    actions: Vec<WindowAction>,
)
    requires
        context.found,
        call_ensures(handle_request, (request, context), actions),
    ensures
        request is DragWindow && context.pointer is None ==> actions@.len() == 0,
        request is DragWindow && context.pointer == Some((x, y)) ==> actions@ == seq![
            WindowAction::BeginMoveDrag { button: 1, x, y, time: 0 },
        ],
        request is CursorPosition && (context.pointer is None || !context.has_screen)
            ==> actions@.len() == 0,
        request == WindowRequest::CursorPosition((x, y)) && context.pointer is Some
            && context.has_screen ==> actions@ == seq![WindowAction::WarpPointer(x, y)],
{
}

/// A window that is to ignore input takes it in a single pixel at its upper left
/// corner, and one that is not takes it everywhere.
pub proof fn law_ignored_input_goes_through(
    context: WindowContext,
    request: WindowRequest,
    actions: Vec<WindowAction>,
)
    requires
        context.found,
        call_ensures(handle_request, (request, context), actions),
    ensures
        request == WindowRequest::CursorIgnoreEvents(true) ==> actions@ == seq![
            WindowAction::LimitInput {
                region: Rectangle { x: 0, y: 0, width: 1, height: 1 },
                offset_x: 0,
                offset_y: 0,
            },
        ],
        request == WindowRequest::CursorIgnoreEvents(false) ==> actions@ == seq![
            WindowAction::UnlimitInput,
        ],
{
}

/// To make a window report events is to listen for seven kinds of input and then to
/// connect seventeen handlers, each in its place. The handler that draws gets the flag
/// of the request.
pub proof fn law_events_are_wired_up_in_order(
    transparent: Rc<AtomicBool>,
    actions: Vec<WindowAction>,
)
    requires
        call_ensures(wire_up_events, (transparent,), actions),
    ensures
        actions@.len() == 18,
        actions@[0] matches WindowAction::AddEvents(mask) && {
            &&& mask@.len() == 7
            &&& mask@[0] is PointerMotion
            &&& mask@[1] is Button1Motion
            &&& mask@[2] is ButtonPress
            &&& mask@[3] is Touch
            &&& mask@[4] is Structure
            &&& mask@[5] is FocusChange
            &&& mask@[6] is Scroll
        },
        actions@[1] == WindowAction::Connect(Signal::MotionForResize),
        actions@[2] == WindowAction::Connect(Signal::Touch),
        actions@[3] == WindowAction::Connect(Signal::Delete),
        actions@[4] == WindowAction::Connect(Signal::Configure),
        actions@[5] == WindowAction::Connect(Signal::FocusIn),
        actions@[6] == WindowAction::Connect(Signal::FocusOut),
        actions@[7] == WindowAction::Connect(Signal::Destroy),
        actions@[8] == WindowAction::Connect(Signal::EnterNotify),
        actions@[9] == WindowAction::Connect(Signal::MotionNotify),
        actions@[10] == WindowAction::Connect(Signal::LeaveNotify),
        actions@[11] == WindowAction::Connect(Signal::ButtonPress),
        actions@[12] == WindowAction::Connect(Signal::ButtonRelease),
        actions@[13] == WindowAction::Connect(Signal::Scroll),
        actions@[14] == WindowAction::Connect(Signal::KeyPress),
        actions@[15] == WindowAction::Connect(Signal::KeyRelease),
        actions@[16] == WindowAction::Connect(Signal::WindowState),
        actions@[17] == WindowAction::Connect(Signal::Draw { transparent }),
{
    let signals = crate::request::wired_signals(transparent);
    assert(actions@[0int + 1] == WindowAction::Connect(signals[0]));
    assert(actions@[1int + 1] == WindowAction::Connect(signals[1]));
    assert(actions@[2int + 1] == WindowAction::Connect(signals[2]));
    assert(actions@[3int + 1] == WindowAction::Connect(signals[3]));
    assert(actions@[4int + 1] == WindowAction::Connect(signals[4]));
    assert(actions@[5int + 1] == WindowAction::Connect(signals[5]));
    assert(actions@[6int + 1] == WindowAction::Connect(signals[6]));
    assert(actions@[7int + 1] == WindowAction::Connect(signals[7]));
    assert(actions@[8int + 1] == WindowAction::Connect(signals[8]));
    assert(actions@[9int + 1] == WindowAction::Connect(signals[9]));
    assert(actions@[10int + 1] == WindowAction::Connect(signals[10]));
    assert(actions@[11int + 1] == WindowAction::Connect(signals[11]));
    assert(actions@[12int + 1] == WindowAction::Connect(signals[12]));
    assert(actions@[13int + 1] == WindowAction::Connect(signals[13]));
    assert(actions@[14int + 1] == WindowAction::Connect(signals[14]));
    assert(actions@[15int + 1] == WindowAction::Connect(signals[15]));
    assert(actions@[16int + 1] == WindowAction::Connect(signals[16]));
}

/// A request to make a window report events is carried out by the calls that wire the
/// events up.
pub proof fn law_wiring_requests_wire_up_events(
    transparent: Rc<AtomicBool>,
    context: WindowContext,
    actions: Vec<WindowAction>,
    wiring: Vec<WindowAction>,
)
    requires
        context.found,
        call_ensures(handle_request, (WindowRequest::WireUpEvents { transparent }, context), actions),
        call_ensures(wire_up_events, (transparent,), wiring),
    ensures
        actions@.len() == wiring@.len(),
        actions@[0] matches WindowAction::AddEvents(mask) && wiring@[0]
            matches WindowAction::AddEvents(wiring_mask) && mask@ == wiring_mask@,
        actions@.skip(1) == wiring@.skip(1),
{
    assert forall|i: int| 0 <= i < 17 implies actions@.skip(1)[i] == wiring@.skip(1)[i] by {
        assert(actions@[i + 1] == wiring@[i + 1]);
    }
}

/// Serving a request means the calls that carry it out, and going on to serve requests.
pub proof fn law_requests_are_served_by_carrying_them_out(
    request: WindowRequest,
    context: WindowContext,
    actions: Vec<WindowAction>,
    answer: (Vec<WindowAction>, Service),
)
    requires
        call_ensures(handle_request, (request, context), actions),
        call_ensures(serve_request, (request, context), answer),
    ensures
        request !is WireUpEvents ==> answer.0@ == actions@,
        answer.0@.len() == actions@.len(),
        answer.0@.skip(1) == actions@.skip(1),
        request is WireUpEvents && context.found ==> {
            answer.0@[0] matches WindowAction::AddEvents(mask) && actions@[0]
                matches WindowAction::AddEvents(same_mask) && mask@ == same_mask@
        },
        answer.1 is Continue,
{
    if request is WireUpEvents && context.found {
        assert forall|i: int| 0 <= i < 17 implies answer.0@.skip(1)[i] == actions@.skip(1)[i] by {
            assert(answer.0@[i + 1] == actions@[i + 1]);
        }
    }
}

/// All requests are supported but four: limits of the size, the focus, the full screen
/// and the shape of the pointer.
pub proof fn law_four_kinds_of_request_are_not_supported(request: WindowRequest, supported: bool)
    requires
        call_ensures(WindowRequest::is_supported, (&request,), supported),
    ensures
        supported <==> !(request is SizeConstraints || request is Focus || request is Fullscreen
            || request is CursorIcon),
{
}

/// A supported request can always be made, except that a window that is to ignore input
/// needs a surface.
pub proof fn law_supported_requests_can_be_made(request: WindowRequest, context: WindowContext)
    requires
        call_ensures(WindowRequest::is_supported, (&request,), true),
        request == WindowRequest::CursorIgnoreEvents(true) ==> context.has_surface,
    ensures
        call_requires(handle_request, (request, context)),
        call_requires(serve_request, (request, context)),
{
}

} // verus!
