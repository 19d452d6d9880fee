//! Requests that the application makes of a window, and the toolkit calls that
//! carry them out.

use std::rc::Rc;
use std::sync::atomic::AtomicBool;

use vstd::prelude::*;

verus! {

/// `dpi::Size`: a size in either kind of pixel, carried from the application unread.
#[verifier::external_type_specification]
#[verifier::external_body]
pub struct ExSize(dpi::Size);

/// `cursor_icon::CursorIcon`: a pointer shape, carried from the application unread.
#[verifier::external_type_specification]
#[verifier::external_body]
pub struct ExCursorIcon(cursor_icon::CursorIcon);

/// An icon: its pixels, four bytes each, row by row.
#[derive(Debug)]
pub struct Icon {
    pub rgba: Vec<u8>,
    pub width: u32,
    pub height: u32,
}

/// How urgently a window asks for the attention of the user.
#[derive(Debug, Clone, Copy, PartialEq, Eq)]
pub enum UserAttentionType {
    Critical,
    Informational,
}

/// How a window fills a monitor.
#[derive(Debug, Clone, Copy, PartialEq, Eq)]
pub enum Fullscreen {
    Exclusive,
    Borderless,
}

/// What the application wants of a window.
#[derive(Debug)]
pub enum WindowRequest {
    Title(String),
    Position((i32, i32)),
    Size((i32, i32)),
    SizeConstraints(Option<dpi::Size>, Option<dpi::Size>),
    Visible(bool),
    Focus,
    Resizable(bool),
    Minimized(bool),
    Maximized(bool),
    DragWindow,
    Fullscreen(Option<Fullscreen>),
    Decorations(bool),
    AlwaysOnBottom(bool),
    AlwaysOnTop(bool),
    WindowIcon(Option<Icon>),
    UserAttention(Option<UserAttentionType>),
    SetSkipTaskbar(bool),
    CursorIcon(Option<cursor_icon::CursorIcon>),
    CursorPosition((i32, i32)),
    CursorIgnoreEvents(bool),
    /// Start to report events. The flag says at any time whether the window is
    /// transparent.
    WireUpEvents { transparent: Rc<AtomicBool> },
}

impl WindowRequest {
    /// The backend knows how to carry the request out.
    pub open spec fn supported(self) -> bool {
        &&& self !is SizeConstraints
        &&& self !is Focus
        &&& self !is Fullscreen
        &&& self !is CursorIcon
    }

    /// Tells whether the backend knows how to carry the request out.
    pub fn is_supported(&self) -> (result: bool)
        ensures
            result == self.supported(),
    {
        match self {
            WindowRequest::SizeConstraints(_, _)
            | WindowRequest::Focus
            | WindowRequest::Fullscreen(_)
            | WindowRequest::CursorIcon(_) => false,
            _ => true,
        }
    }
}

/// A kind of input that a window can listen for.
#[derive(Debug, Clone, Copy, PartialEq, Eq)]
pub enum EventMask {
    PointerMotion,
    Button1Motion,
    ButtonPress,
    Touch,
    Structure,
    FocusChange,
    Scroll,
}

/// A signal of a window, with the part that the backend takes in it.
#[derive(Debug)]
pub enum Signal {
    /// Pointer motion, to show where the window can be resized.
    MotionForResize,
    /// Touch, to resize the window.
    Touch,
    Delete,
    Configure,
    FocusIn,
    FocusOut,
    Destroy,
    EnterNotify,
    /// Pointer motion, to report it.
    MotionNotify,
    LeaveNotify,
    ButtonPress,
    ButtonRelease,
    Scroll,
    KeyPress,
    KeyRelease,
    WindowState,
    Draw { transparent: Rc<AtomicBool> },
}

/// A rectangle on the surface of a window.
#[derive(Debug, Clone, Copy, PartialEq, Eq)]
pub struct Rectangle {
    pub x: i32,
    pub y: i32,
    pub width: i32,
    pub height: i32,
}

/// One call to the toolkit on behalf of a window.
#[derive(Debug)]
pub enum WindowAction {
    SetTitle(String),
    MoveTo(i32, i32),
    Resize(i32, i32),
    ShowAll,
    Hide,
    SetResizable(bool),
    Iconify,
    Deiconify,
    Maximize,
    Unmaximize,
    BeginMoveDrag { button: i32, x: i32, y: i32, time: u32 },
    SetDecorated(bool),
    SetKeepBelow(bool),
    SetKeepAbove(bool),
    SetIcon(Icon),
    SetUrgencyHint(bool),
    SetSkipTaskbarHint(bool),
    SetSkipPagerHint(bool),
    WarpPointer(i32, i32),
    /// Let input through everywhere but in the rectangle, moved by the offset.
    LimitInput { region: Rectangle, offset_x: i32, offset_y: i32 },
    /// Take input everywhere again.
    UnlimitInput,
    AddEvents(Vec<EventMask>),
    Connect(Signal),
}

/// What the toolkit knows about a window at the time of a request.
#[derive(Debug, Clone, Copy, PartialEq, Eq)]
pub struct WindowContext {
    /// The window exists.
    pub found: bool,
    /// Where the pointer is on the screen, if there is one.
    pub pointer: Option<(i32, i32)>,
    /// The window is on a screen.
    pub has_screen: bool,
    /// The window has a surface of its own.
    pub has_surface: bool,
}

/// The input that a window listens for.
pub open spec fn wired_events() -> Seq<EventMask> {
    seq![
        EventMask::PointerMotion,
        EventMask::Button1Motion,
        EventMask::ButtonPress,
        EventMask::Touch,
        EventMask::Structure,
        EventMask::FocusChange,
        EventMask::Scroll,
    ]
}

/// The signals of a window that the backend handles, in the order in which the
/// handlers are connected.
pub open spec fn wired_signals(transparent: Rc<AtomicBool>) -> Seq<Signal> {
    seq![
        Signal::MotionForResize,
        Signal::Touch,
        Signal::Delete,
        Signal::Configure,
        Signal::FocusIn,
        Signal::FocusOut,
        Signal::Destroy,
        Signal::EnterNotify,
        Signal::MotionNotify,
        Signal::LeaveNotify,
        Signal::ButtonPress,
        Signal::ButtonRelease,
        Signal::Scroll,
        Signal::KeyPress,
        Signal::KeyRelease,
        Signal::WindowState,
        Signal::Draw { transparent },
    ]
}

/// The actions that make a window report events: listen for input, then connect
/// every handler.
pub open spec fn wires_up(actions: Seq<WindowAction>, transparent: Rc<AtomicBool>) -> bool {
    &&& actions.len() == 1 + wired_signals(transparent).len()
    &&& actions[0] matches WindowAction::AddEvents(mask) && mask@ =~= wired_events()
    &&& forall|i: int|
        0 <= i < wired_signals(transparent).len() ==> #[trigger] actions[i + 1]
            == WindowAction::Connect(wired_signals(transparent)[i])
}

/// The actions carry the request out in a window that exists.
pub open spec fn carries_out(
    actions: Seq<WindowAction>,
    request: WindowRequest,
    context: WindowContext,
) -> bool {
    match request {
        WindowRequest::Title(title) => actions =~= seq![WindowAction::SetTitle(title)],
        WindowRequest::Position((x, y)) => actions =~= seq![WindowAction::MoveTo(x, y)],
        WindowRequest::Size((x, y)) => actions =~= seq![WindowAction::Resize(x, y)],
        WindowRequest::Visible(visible) => actions =~= seq![
            if visible {
                WindowAction::ShowAll
            } else {
                WindowAction::Hide
            },
        ],
        WindowRequest::Resizable(resizable) => actions =~= seq![
            WindowAction::SetResizable(resizable),
        ],
        WindowRequest::Minimized(minimized) => actions =~= seq![
            if minimized {
                WindowAction::Iconify
            } else {
                WindowAction::Deiconify
            },
        ],
        WindowRequest::Maximized(maximized) => actions =~= seq![
            if maximized {
                WindowAction::Maximize
            } else {
                WindowAction::Unmaximize
            },
        ],
        WindowRequest::DragWindow => actions =~= match context.pointer {
            Some((x, y)) => seq![WindowAction::BeginMoveDrag { button: 1, x, y, time: 0 }],
            None => seq![],
        },
        WindowRequest::Decorations(decorated) => actions =~= seq![
            WindowAction::SetDecorated(decorated),
        ],
        WindowRequest::AlwaysOnBottom(bottom) => actions =~= seq![
            WindowAction::SetKeepBelow(bottom),
        ],
        WindowRequest::AlwaysOnTop(top) => actions =~= seq![WindowAction::SetKeepAbove(top)],
        WindowRequest::WindowIcon(Some(icon)) => actions =~= seq![WindowAction::SetIcon(icon)],
        WindowRequest::WindowIcon(None) => actions =~= Seq::<WindowAction>::empty(),
        WindowRequest::UserAttention(attention) => actions =~= seq![
            WindowAction::SetUrgencyHint(attention is Some),
        ],
        WindowRequest::SetSkipTaskbar(skip) => actions =~= seq![
            WindowAction::SetSkipTaskbarHint(skip),
            WindowAction::SetSkipPagerHint(skip),
        ],
        WindowRequest::CursorPosition((x, y)) => actions =~= if context.pointer is Some
            && context.has_screen {
            seq![WindowAction::WarpPointer(x, y)]
        } else {
            seq![]
        },
        WindowRequest::CursorIgnoreEvents(true) => actions =~= seq![
            WindowAction::LimitInput {
                region: Rectangle { x: 0, y: 0, width: 1, height: 1 },
                offset_x: 0,
                offset_y: 0,
            },
        ],
        WindowRequest::CursorIgnoreEvents(false) => actions =~= seq![WindowAction::UnlimitInput],
        WindowRequest::WireUpEvents { transparent } => wires_up(actions, transparent),
        WindowRequest::SizeConstraints(_, _)
        | WindowRequest::Focus
        | WindowRequest::Fullscreen(_)
        | WindowRequest::CursorIcon(_) => false,
    }
}

/// Lists the toolkit calls that make a window report events.
pub fn wire_up_events(transparent: Rc<AtomicBool>) -> (actions: Vec<WindowAction>)
    ensures
        wires_up(actions@, transparent),
{
    let mask: Vec<EventMask> = vec![
        EventMask::PointerMotion,
        EventMask::Button1Motion,
        EventMask::ButtonPress,
        EventMask::Touch,
        EventMask::Structure,
        EventMask::FocusChange,
        EventMask::Scroll,
    ];
    vec![
        WindowAction::AddEvents(mask),
        WindowAction::Connect(Signal::MotionForResize),
        WindowAction::Connect(Signal::Touch),
        WindowAction::Connect(Signal::Delete),
        WindowAction::Connect(Signal::Configure),
        WindowAction::Connect(Signal::FocusIn),
        WindowAction::Connect(Signal::FocusOut),
        WindowAction::Connect(Signal::Destroy),
        WindowAction::Connect(Signal::EnterNotify),
        WindowAction::Connect(Signal::MotionNotify),
        WindowAction::Connect(Signal::LeaveNotify),
        WindowAction::Connect(Signal::ButtonPress),
        WindowAction::Connect(Signal::ButtonRelease),
        WindowAction::Connect(Signal::Scroll),
        WindowAction::Connect(Signal::KeyPress),
        WindowAction::Connect(Signal::KeyRelease),
        WindowAction::Connect(Signal::WindowState),
        WindowAction::Connect(Signal::Draw { transparent }),
    ]
}

/// Lists the toolkit calls that carry out a request, in order. A request for a
/// window that does not exist is dropped.
pub fn handle_request(request: WindowRequest, context: WindowContext) -> (actions: Vec<
    WindowAction,
>)
    requires
        context.found ==> request.supported(),
        context.found && request == WindowRequest::CursorIgnoreEvents(true) ==> context.has_surface,
    ensures
        context.found ==> carries_out(actions@, request, context),
        !context.found ==> actions@.len() == 0,
{
    if !context.found {
        return Vec::new();
    }
    match request {
        WindowRequest::Title(title) => vec![WindowAction::SetTitle(title)],
        WindowRequest::Position((x, y)) => vec![WindowAction::MoveTo(x, y)],
        WindowRequest::Size((x, y)) => vec![WindowAction::Resize(x, y)],
        WindowRequest::Visible(visible) => {
            if visible {
                vec![WindowAction::ShowAll]
            } else {
                vec![WindowAction::Hide]
            }
        },
        WindowRequest::Resizable(resizable) => vec![WindowAction::SetResizable(resizable)],
        WindowRequest::Minimized(minimized) => {
            if minimized {
                vec![WindowAction::Iconify]
            } else {
                vec![WindowAction::Deiconify]
            }
        },
        WindowRequest::Maximized(maximized) => {
            if maximized {
                vec![WindowAction::Maximize]
            } else {
                vec![WindowAction::Unmaximize]
            }
        },
        WindowRequest::DragWindow => match context.pointer {
            Some((x, y)) => vec![WindowAction::BeginMoveDrag { button: 1, x, y, time: 0 }],
            None => Vec::new(),
        },
        WindowRequest::Decorations(decorated) => vec![WindowAction::SetDecorated(decorated)],
        WindowRequest::AlwaysOnBottom(bottom) => vec![WindowAction::SetKeepBelow(bottom)],
        WindowRequest::AlwaysOnTop(top) => vec![WindowAction::SetKeepAbove(top)],
        WindowRequest::WindowIcon(icon) => match icon {
            Some(icon) => vec![WindowAction::SetIcon(icon)],
            None => Vec::new(),
        },
        WindowRequest::UserAttention(attention) => {
            vec![WindowAction::SetUrgencyHint(attention.is_some())]
        },
        WindowRequest::SetSkipTaskbar(skip) => {
            vec![WindowAction::SetSkipTaskbarHint(skip), WindowAction::SetSkipPagerHint(skip)]
        },
        WindowRequest::CursorPosition((x, y)) => {
            if context.pointer.is_some() && context.has_screen {
                vec![WindowAction::WarpPointer(x, y)]
            } else {
                Vec::new()
            }
        },
        WindowRequest::CursorIgnoreEvents(ignore) => {
            if ignore {
                vec![
                    WindowAction::LimitInput {
                        region: Rectangle { x: 0, y: 0, width: 1, height: 1 },
                        offset_x: 0,
                        offset_y: 0,
                    },
                ]
            } else {
                vec![WindowAction::UnlimitInput]
            }
        },
        WindowRequest::WireUpEvents { transparent } => wire_up_events(transparent),
        WindowRequest::SizeConstraints(_, _)
        | WindowRequest::Focus
        | WindowRequest::Fullscreen(_)
        | WindowRequest::CursorIcon(_) => Vec::new(),
    }
}

/// Whether requests are served after this one.
#[derive(Debug, Clone, Copy, PartialEq, Eq)]
pub enum Service {
    Continue,
    Break,
}

/// Answers a request: with the toolkit calls that carry it out, in order, and with
/// the word that further requests are served, whether or not the window exists.
pub fn serve_request(request: WindowRequest, context: WindowContext) -> (answer: (
    Vec<WindowAction>,
    Service,
))
    requires
        context.found ==> request.supported(),
        context.found && request == WindowRequest::CursorIgnoreEvents(true) ==> context.has_surface,
    ensures
        context.found ==> carries_out(answer.0@, request, context),
        !context.found ==> answer.0@.len() == 0,
        answer.1 == Service::Continue,
{
    (handle_request(request, context), Service::Continue)
}

/// Whether the window has a button in the task bar, and is in the pager, is
/// always decided together.
pub proof fn law_taskbar_and_pager_go_together(
    actions: Seq<WindowAction>,
    request: WindowRequest,
    context: WindowContext,
    hidden: bool,
)
    requires
        carries_out(actions, request, context),
    ensures
        actions.contains(WindowAction::SetSkipTaskbarHint(hidden)) <==> actions.contains(
            WindowAction::SetSkipPagerHint(hidden),
        ),
{
    if let WindowRequest::SetSkipTaskbar(skip) = request {
        assert(actions[0] == WindowAction::SetSkipTaskbarHint(skip));
        assert(actions[1] == WindowAction::SetSkipPagerHint(skip));
    }
    if let WindowRequest::WireUpEvents { transparent } = request {
        assert forall|i: int| 0 <= i < actions.len() implies (actions[i] is AddEvents
            || actions[i] is Connect) by {
            assert(actions[0] is AddEvents);
            if i > 0 {
                assert(actions[(i - 1) + 1] is Connect);
            }
        }
    }
}

/// Only a request to wire up events makes the window report any, and it connects
/// every handler once. The pointer shape is settled before the motion is reported.
pub proof fn law_handlers_are_connected_by_one_request(
    actions: Seq<WindowAction>,
    request: WindowRequest,
    context: WindowContext,
)
    requires
        carries_out(actions, request, context),
    ensures
        request !is WireUpEvents ==> forall|i: int|
            0 <= i < actions.len() ==> (#[trigger] actions[i]) !is Connect,
        request is WireUpEvents ==> forall|i: int, j: int|
            0 <= i < j < actions.len() ==> #[trigger] actions[i] != #[trigger] actions[j],
        request is WireUpEvents ==> exists|i: int, j: int|
            0 <= i < j < actions.len() && #[trigger] actions[i] == WindowAction::Connect(
                Signal::MotionForResize,
            ) && #[trigger] actions[j] == WindowAction::Connect(Signal::MotionNotify),
{
    if let WindowRequest::WireUpEvents { transparent } = request {
        let signals = wired_signals(transparent);
        assert(actions[0int + 1] == WindowAction::Connect(signals[0]));
        assert(actions[8int + 1] == WindowAction::Connect(signals[8]));
        assert forall|i: int, j: int| 0 <= i < j < actions.len() implies #[trigger] actions[i]
            != #[trigger] actions[j] by {
            assert(actions[(j - 1) + 1] == WindowAction::Connect(signals[j - 1]));
            if i > 0 {
                assert(actions[(i - 1) + 1] == WindowAction::Connect(signals[i - 1]));
                assert(signals[i - 1] != signals[j - 1]);
            }
        }
    }
}

} // verus!
