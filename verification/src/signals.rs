//! What the backend does when the toolkit signals something about a window.

use vstd::prelude::*;

use crate::event::{
    ElementState, ModifiersState, MouseButton, MouseScrollDelta, Notification, TouchPhase,
    WindowEvent, WindowId, DEVICE_ID,
};
use crate::geometry::WindowGeometry;
use crate::pointer::{resize_cursor, touch_resize, ResizeDrag, WindowFrame};
use crate::scale::{
    physical_pointer, physical_position, physical_size, physical_size_from_signed,
    LogicalPosition,
};

verus! {

/// Whether the toolkit goes on to further handlers of a signal.
#[derive(Debug, Clone, Copy, PartialEq, Eq)]
pub enum Propagation {
    Proceed,
    Stop,
}

/// The answer to a signal: what to report, in order, and whether the toolkit
/// goes on.
#[derive(Debug)]
pub struct Reaction {
    pub notices: Vec<Notification>,
    pub propagation: Propagation,
}

impl Reaction {
    /// Reports the given events about one window, in order, and nothing else.
    pub open spec fn reports(self, window_id: WindowId, events: Seq<WindowEvent>) -> bool {
        self.notices@ == events.map_values(|event: WindowEvent| Notification { window_id, event })
    }
}

/// A reaction that reports one event.
fn single(window_id: WindowId, event: WindowEvent, propagation: Propagation) -> (reaction: Reaction)
    ensures
        reaction.reports(window_id, seq![event]),
        reaction.propagation == propagation,
{
    let notices: Vec<Notification> = vec![Notification { window_id, event }];
    assert(notices@ =~= seq![event].map_values(
        |event: WindowEvent| Notification { window_id, event },
    ));
    Reaction { notices, propagation }
}

/// A reaction that reports two events.
fn double(
    window_id: WindowId,
    first: WindowEvent,
    second: WindowEvent,
    propagation: Propagation,
) -> (reaction: Reaction)
    ensures
        reaction.reports(window_id, seq![first, second]),
        reaction.propagation == propagation,
{
    let notices: Vec<Notification> = vec![
        Notification { window_id, event: first },
        Notification { window_id, event: second },
    ];
    assert(notices@ =~= seq![first, second].map_values(
        |event: WindowEvent| Notification { window_id, event },
    ));
    Reaction { notices, propagation }
}

/// A reaction that reports nothing.
fn silent(window_id: WindowId, propagation: Propagation) -> (reaction: Reaction)
    ensures
        reaction.reports(window_id, seq![]),
        reaction.propagation == propagation,
{
    let notices: Vec<Notification> = Vec::new();
    assert(notices@ =~= Seq::<WindowEvent>::empty().map_values(
        |event: WindowEvent| Notification { window_id, event },
    ));
    Reaction { notices, propagation }
}

/// The pointer moved over the window to `(cx, cy)` on the screen. Gives the pointer
/// shape to set, if any. The movement goes on to whoever else wants to know of it.
pub fn on_motion_for_resize(
    frame: WindowFrame,
    surface: Option<WindowGeometry>,
    cx: i32,
    cy: i32,
) -> (reaction: (Option<&'static str>, Propagation))
    requires
        frame.resizes_itself() && !frame.maximized && surface is Some
            ==> surface->0.in_range(),
    ensures
        reaction.0 is Some <==> crate::pointer::resize_cursor_for(
            frame,
            surface,
            cx as int,
            cy as int,
        ) is Some,
        reaction.0 matches Some(shape) ==> Some(shape@) == crate::pointer::resize_cursor_for(
            frame,
            surface,
            cx as int,
            cy as int,
        ),
        reaction.1 == Propagation::Proceed,
{
    (resize_cursor(frame, surface, cx, cy), Propagation::Proceed)
}

/// The window was touched. Gives the resize to start, if any. The touch goes on to
/// the window in every case.
pub fn on_touch(
    frame: WindowFrame,
    surface: Option<WindowGeometry>,
    coords: Option<(i32, i32)>,
    has_device: bool,
    time: u32,
) -> (reaction: (Option<ResizeDrag>, Propagation))
    requires
        frame.resizes_itself() && has_device && surface is Some && coords is Some
            ==> surface->0.in_range(),
    ensures
        reaction.0 == crate::pointer::touch_resize_for(frame, surface, coords, has_device, time),
        reaction.1 == Propagation::Proceed,
{
    (touch_resize(frame, surface, coords, has_device, time), Propagation::Proceed)
}

/// The user asked to close the window. The toolkit must not destroy it: that is
/// for the application to decide.
pub fn on_delete(window_id: WindowId) -> (reaction: Reaction)
    ensures
        reaction.reports(window_id, seq![WindowEvent::CloseRequested]),
        reaction.propagation == Propagation::Stop,
{
    single(window_id, WindowEvent::CloseRequested, Propagation::Stop)
}

/// The events that report a new place of a window: its position, then its size,
/// in physical pixels.
pub open spec fn placement(
    x: int,
    y: int,
    width: int,
    height: int,
    scale_factor: int,
) -> Seq<WindowEvent> {
    seq![
        WindowEvent::Moved(crate::scale::scaled_position(x, y, scale_factor)),
        WindowEvent::Resized(crate::scale::scaled_size(width, height, scale_factor)),
    ]
}

/// The window got a new position or size, in logical pixels.
pub fn on_configure(
    window_id: WindowId,
    position: (i32, i32),
    size: (u32, u32),
    scale_factor: i32,
) -> (reaction: Reaction)
    requires
        scale_factor > 0,
    ensures
        reaction.reports(
            window_id,
            placement(
                position.0 as int,
                position.1 as int,
                size.0 as int,
                size.1 as int,
                scale_factor as int,
            ),
        ),
        reaction.propagation == Propagation::Proceed,
{
    double(
        window_id,
        WindowEvent::Moved(physical_position(position.0, position.1, scale_factor)),
        WindowEvent::Resized(physical_size(size.0, size.1, scale_factor)),
        Propagation::Proceed,
    )
}

/// The window got the keyboard focus.
pub fn on_focus_in(window_id: WindowId) -> (reaction: Reaction)
    ensures
        reaction.reports(window_id, seq![WindowEvent::Focused(true)]),
        reaction.propagation == Propagation::Proceed,
{
    single(window_id, WindowEvent::Focused(true), Propagation::Proceed)
}

/// The window lost the keyboard focus.
pub fn on_focus_out(window_id: WindowId) -> (reaction: Reaction)
    ensures
        reaction.reports(window_id, seq![WindowEvent::Focused(false)]),
        reaction.propagation == Propagation::Proceed,
{
    single(window_id, WindowEvent::Focused(false), Propagation::Proceed)
}

/// The window is gone. There is nothing left to propagate.
pub fn on_destroy(window_id: WindowId) -> (notice: Notification)
    ensures
        notice == (Notification { window_id, event: WindowEvent::Destroyed }),
{
    Notification { window_id, event: WindowEvent::Destroyed }
}

/// The pointer came into the window.
pub fn on_enter(window_id: WindowId) -> (reaction: Reaction)
    ensures
        reaction.reports(window_id, seq![WindowEvent::CursorEntered { device_id: DEVICE_ID }]),
        reaction.propagation == Propagation::Proceed,
{
    single(window_id, WindowEvent::CursorEntered { device_id: DEVICE_ID }, Propagation::Proceed)
}

/// The events that report a movement of the pointer: its position in physical
/// pixels, if the device is known.
pub open spec fn pointer_motion(
    pointer: Option<LogicalPosition>,
    scale_factor: int,
) -> Seq<WindowEvent> {
    match pointer {
        Some(position) => seq![
            WindowEvent::CursorMoved {
                position: crate::scale::scaled_pointer(position, scale_factor),
                device_id: DEVICE_ID,
                modifiers: ModifiersState { bits: 0 },
            },
        ],
        None => seq![],
    }
}

/// The pointer moved over the window. `pointer` is where it is within the
/// window, in logical pixels, if the device is known.
pub fn on_motion(
    window_id: WindowId,
    pointer: Option<LogicalPosition>,
    scale_factor: i32,
) -> (reaction: Reaction)
    requires
        pointer is Some ==> scale_factor > 0,
    ensures
        reaction.reports(window_id, pointer_motion(pointer, scale_factor as int)),
        reaction.propagation == Propagation::Proceed,
{
    match pointer {
        Some(position) => single(
            window_id,
            WindowEvent::CursorMoved {
                position: physical_pointer(position, scale_factor),
                device_id: DEVICE_ID,
                modifiers: ModifiersState::empty(),
            },
            Propagation::Proceed,
        ),
        None => silent(window_id, Propagation::Proceed),
    }
}

/// The pointer left the window.
pub fn on_leave(window_id: WindowId) -> (reaction: Reaction)
    ensures
        reaction.reports(window_id, seq![WindowEvent::CursorLeft { device_id: DEVICE_ID }]),
        reaction.propagation == Propagation::Proceed,
{
    single(window_id, WindowEvent::CursorLeft { device_id: DEVICE_ID }, Propagation::Proceed)
}

/// The button with the toolkit's number `button`. Only the low 16 bits of the
/// numbers of further buttons are kept.
pub open spec fn button_of(button: int) -> MouseButton {
    if button == 1 {
        MouseButton::Left
    } else if button == 2 {
        MouseButton::Middle
    } else if button == 3 {
        MouseButton::Right
    } else {
        MouseButton::Other((button % 0x1_0000) as u16)
    }
}

/// Names the mouse button with the toolkit's number `button`.
pub fn mouse_button(button: u32) -> (named: MouseButton)
    ensures
        named == button_of(button as int),
{
    match button {
        1 => MouseButton::Left,
        2 => MouseButton::Middle,
        3 => MouseButton::Right,
        _ => {
            assert(button as u16 == button % 0x1_0000) by (bit_vector);
            MouseButton::Other(button as u16)
        },
    }
}

/// The event that reports a mouse button.
pub open spec fn button_input(button: u32, state: ElementState) -> WindowEvent {
    WindowEvent::MouseInput {
        button: button_of(button as int),
        state,
        device_id: DEVICE_ID,
        modifiers: ModifiersState { bits: 0 },
    }
}

fn on_button(window_id: WindowId, button: u32, state: ElementState) -> (reaction: Reaction)
    ensures
        reaction.reports(window_id, seq![button_input(button, state)]),
        reaction.propagation == Propagation::Proceed,
{
    single(
        window_id,
        WindowEvent::MouseInput {
            button: mouse_button(button),
            state,
            device_id: DEVICE_ID,
            modifiers: ModifiersState::empty(),
        },
        Propagation::Proceed,
    )
}

/// A mouse button was pressed over the window.
pub fn on_button_press(window_id: WindowId, button: u32) -> (reaction: Reaction)
    ensures
        reaction.reports(window_id, seq![button_input(button, ElementState::Pressed)]),
        reaction.propagation == Propagation::Proceed,
{
    on_button(window_id, button, ElementState::Pressed)
}

/// A mouse button was released over the window.
pub fn on_button_release(window_id: WindowId, button: u32) -> (reaction: Reaction)
    ensures
        reaction.reports(window_id, seq![button_input(button, ElementState::Released)]),
        reaction.propagation == Propagation::Proceed,
{
    on_button(window_id, button, ElementState::Released)
}

/// The buttons with numbers below 65536 are all named differently.
pub proof fn law_buttons_stay_apart(a: int, b: int)
    requires
        0 <= a < 0x1_0000,
        0 <= b < 0x1_0000,
        button_of(a) == button_of(b),
    ensures
        a == b,
{
}

#[derive(Debug, Clone, Copy, PartialEq, Eq)]
pub enum ScrollDirection {
    Up,
    Down,
    Left,
    Right,
    Smooth,
    Unknown(i32),
}

/// A scroll step is over at once, except for those of smooth scrolling.
pub open spec fn phase_of(direction: ScrollDirection) -> TouchPhase {
    if direction is Smooth {
        TouchPhase::Moved
    } else {
        TouchPhase::Ended
    }
}

/// The bit pattern of a single-precision number with the other sign.
pub open spec fn opposite(bits: u32) -> u32 {
    bits ^ 0x8000_0000u32
}

/// The wheel was turned over the window.
///
/// `x_bits` and `y_bits` are the bit patterns of the distances that the toolkit
/// gives, in single precision. The toolkit counts the distance in the opposite
/// direction to the events.
pub fn on_scroll(
    window_id: WindowId,
    x_bits: u32,
    y_bits: u32,
    direction: ScrollDirection,
) -> (reaction: Reaction)
    ensures
        reaction.reports(
            window_id,
            seq![
                WindowEvent::MouseWheel {
                    device_id: Some(DEVICE_ID),
                    delta: MouseScrollDelta::LineDelta(opposite(x_bits), opposite(y_bits)),
                    phase: phase_of(direction),
                    modifiers: ModifiersState { bits: 0 },
                },
            ],
        ),
        reaction.propagation == Propagation::Proceed,
{
    let phase = match direction {
        ScrollDirection::Smooth => TouchPhase::Moved,
        _ => TouchPhase::Ended,
    };
    single(
        window_id,
        WindowEvent::MouseWheel {
            device_id: Some(DEVICE_ID),
            delta: MouseScrollDelta::LineDelta(x_bits ^ 0x8000_0000u32, y_bits ^ 0x8000_0000u32),
            phase,
            modifiers: ModifiersState::empty(),
        },
        Propagation::Proceed,
    )
}

/// Reversing a scroll distance changes its sign and nothing else, and doing so
/// twice gives the distance back.
pub proof fn law_scroll_reverses(bits: u32)
    ensures
        opposite(opposite(bits)) == bits,
        opposite(bits) & 0x7fff_ffff == bits & 0x7fff_ffff,
        opposite(bits) >> 31 != bits >> 31,
{
    assert((bits ^ 0x8000_0000u32) ^ 0x8000_0000u32 == bits) by (bit_vector);
    assert((bits ^ 0x8000_0000u32) & 0x7fff_ffff == bits & 0x7fff_ffff) by (bit_vector);
    assert((bits ^ 0x8000_0000u32) >> 31 != bits >> 31) by (bit_vector);
}

/// Keeps track of the modifier keys that were last reported for a window.
#[derive(Debug)]
pub struct ModifiersTracker {
    pub reported: ModifiersState,
}

/// The report that a change of the modifier keys makes due, if it makes any.
pub open spec fn modifiers_change(reported: ModifiersState, current: ModifiersState) -> Option<
    WindowEvent,
> {
    if reported.bits == current.bits {
        None
    } else {
        Some(WindowEvent::ModifiersChanged(current))
    }
}

impl ModifiersTracker {
    /// Starts with no modifier key held down.
    pub fn new() -> (tracker: ModifiersTracker)
        ensures
            tracker.reported == (ModifiersState { bits: 0 }),
    {
        ModifiersTracker { reported: ModifiersState::empty() }
    }

    /// Takes note of the modifier keys that are held down at a key press or
    /// release, and tells what to report if they have changed.
    pub fn update(&mut self, window_id: WindowId, current: ModifiersState) -> (notice: Option<
        Notification,
    >)
        ensures
            final(self).reported == current,
            notice == match modifiers_change(old(self).reported, current) {
                Some(event) => Some(Notification { window_id, event }),
                None => None,
            },
    {
        if current.bits != self.reported.bits {
            self.reported = current;
            Some(Notification { window_id, event: WindowEvent::ModifiersChanged(current) })
        } else {
            None
        }
    }
}

/// The modifier keys after a series of key events, starting from `start`.
pub open spec fn modifiers_after(
    start: ModifiersState,
    states: Seq<ModifiersState>,
) -> ModifiersState {
    if states.len() == 0 {
        start
    } else {
        states.last()
    }
}

/// Everything that is reported over a series of key events, starting from `start`.
pub open spec fn modifiers_reports(
    start: ModifiersState,
    states: Seq<ModifiersState>,
) -> Seq<ModifiersState>
    decreases states.len(),
{
    if states.len() == 0 {
        seq![]
    } else {
        let earlier = modifiers_reports(start, states.drop_last());
        match modifiers_change(modifiers_after(start, states.drop_last()), states.last()) {
            Some(WindowEvent::ModifiersChanged(state)) => earlier.push(state),
            _ => earlier,
        }
    }
}

/// Whoever follows the reports knows the modifier keys at all times, and no
/// report repeats what was known already.
pub proof fn law_reports_keep_up_with_modifiers(
    start: ModifiersState,
    states: Seq<ModifiersState>,
)
    ensures
        modifiers_after(start, modifiers_reports(start, states)) == modifiers_after(start, states),
        modifiers_reports(start, states).len() > 0 ==> modifiers_reports(start, states)[0] != start,
        forall|i: int, j: int|
            #![trigger modifiers_reports(start, states)[i], modifiers_reports(start, states)[j]]
            0 <= i && j == i + 1 && j < modifiers_reports(start, states).len()
                ==> modifiers_reports(start, states)[i] != modifiers_reports(start, states)[j],
    decreases states.len(),
{
    if states.len() > 0 {
        law_reports_keep_up_with_modifiers(start, states.drop_last());
    }
}

/// The window was minimized or maximized, or is no longer so, or another part of
/// its state changed.
///
/// The position and the size are those of the window, in logical pixels. They are
/// reported only if the change may have affected them.
pub fn on_window_state(
    window_id: WindowId,
    iconified_changed: bool,
    maximized_changed: bool,
    position: (i32, i32),
    size: (i32, i32),
    scale_factor: i32,
) -> (reaction: Reaction)
    requires
        iconified_changed || maximized_changed ==> scale_factor > 0,
    ensures
        reaction.reports(
            window_id,
            if iconified_changed || maximized_changed {
                placement(
                    position.0 as int,
                    position.1 as int,
                    size.0 as int,
                    size.1 as int,
                    scale_factor as int,
                )
            } else {
                seq![]
            },
        ),
        reaction.propagation == Propagation::Proceed,
{
    if iconified_changed || maximized_changed {
        double(
            window_id,
            WindowEvent::Moved(physical_position(position.0, position.1, scale_factor)),
            WindowEvent::Resized(physical_size_from_signed(size.0, size.1, scale_factor)),
            Propagation::Proceed,
        )
    } else {
        silent(window_id, Propagation::Proceed)
    }
}

#[derive(Debug, Clone, Copy, PartialEq, Eq)]
pub enum PaintOperator {
    Source,
    Over,
}

/// One step of painting a window.
#[derive(Debug, Clone, Copy, PartialEq, Eq)]
pub enum PaintStep {
    /// Paint with black at zero opacity.
    SetTransparentSource,
    SetOperator(PaintOperator),
    Paint,
}

/// The window is to be drawn. A transparent window is wiped first, and the paint
/// operator is set back for what is drawn next.
pub fn on_draw(transparent: bool) -> (reaction: (Vec<PaintStep>, Propagation))
    ensures
        reaction.0@ == if transparent {
            seq![
                PaintStep::SetTransparentSource,
                PaintStep::SetOperator(PaintOperator::Source),
                PaintStep::Paint,
                PaintStep::SetOperator(PaintOperator::Over),
            ]
        } else {
            seq![]
        },
        reaction.1 == Propagation::Proceed,
{
    let steps: Vec<PaintStep> = if transparent {
        vec![
            PaintStep::SetTransparentSource,
            PaintStep::SetOperator(PaintOperator::Source),
            PaintStep::Paint,
            PaintStep::SetOperator(PaintOperator::Over),
        ]
    } else {
        Vec::new()
    };
    (steps, Propagation::Proceed)
}

} // verus!
