//! Events that the backend reports to the application.

use vstd::prelude::*;

use crate::scale::{PhysicalPosition, PhysicalSize, PointerPosition};

verus! {

/// Identifies a window of the application.
#[derive(Debug, Clone, Copy, PartialEq, Eq, Hash)]
pub struct WindowId {
    pub raw: usize,
}

impl WindowId {
    pub fn from_raw(raw: usize) -> (id: WindowId)
        ensures
            id.raw == raw,
    {
        WindowId { raw }
    }

    pub fn into_raw(self) -> (raw: usize)
        ensures
            raw == self.raw,
    {
        self.raw
    }

    /// The number under which the toolkit keeps the window: the low 32 bits.
    pub open spec fn toolkit_number(self) -> int {
        self.raw as int % 0x1_0000_0000
    }

    /// Gives the number under which the toolkit keeps the window.
    pub fn toolkit_id(self) -> (id: u32)
        ensures
            id == self.toolkit_number(),
    {
        let raw: u64 = self.raw as u64;
        assert(raw as u32 == raw % 0x1_0000_0000) by (bit_vector);
        raw as u32
    }
}

/// Windows whose identifiers fit in 32 bits are kept under numbers of their own.
pub proof fn law_small_ids_do_not_collide(a: WindowId, b: WindowId)
    requires
        a.raw <= u32::MAX,
        b.raw <= u32::MAX,
        a.toolkit_number() == b.toolkit_number(),
    ensures
        a == b,
{
}

/// Identifies an input device within the backend.
#[derive(Debug, Clone, Copy, PartialEq, Eq, PartialOrd, Ord, Hash)]
pub struct DeviceId(pub usize);

impl DeviceId {
    /// A placeholder that stands for no device in particular.
    pub fn dummy() -> (id: DeviceId)
        ensures
            id == DeviceId(0),
            id.0 == DEVICE_ID,
    {
        DeviceId(0)
    }
}

/// The device that every event is attributed to: the toolkit does not tell
/// devices apart.
pub const DEVICE_ID: i64 = 0;

/// The modifier keys that are held down, one bit each.
#[derive(Debug, Clone, Copy, PartialEq, Eq, Hash)]
pub struct ModifiersState {
    pub bits: u32,
}

impl ModifiersState {
    pub fn empty() -> (state: ModifiersState)
        ensures
            state.bits == 0,
    {
        ModifiersState { bits: 0 }
    }
}

#[derive(Debug, Clone, Copy, PartialEq, Eq, Hash)]
pub enum ElementState {
    Pressed,
    Released,
}

#[derive(Debug, Clone, Copy, PartialEq, Eq, Hash)]
pub enum MouseButton {
    Left,
    Right,
    Middle,
    Other(u16),
}

#[derive(Debug, Clone, Copy, PartialEq, Eq, Hash)]
pub enum TouchPhase {
    Moved,
    Ended,
}

/// A scroll distance. Both numbers are bit patterns of single-precision numbers.
#[derive(Debug, Clone, Copy, PartialEq, Eq, Hash)]
pub enum MouseScrollDelta {
    /// Distance in lines, horizontally and vertically.
    LineDelta(u32, u32),
}

/// What happened to a window.
#[derive(Debug, Clone, Copy, PartialEq, Eq)]
#[allow(inconsistent_fields)]
pub enum WindowEvent {
    CloseRequested,
    Moved(PhysicalPosition),
    Resized(PhysicalSize),
    Focused(bool),
    Destroyed,
    CursorEntered { device_id: i64 },
    /// The pointer moved, to a position in physical pixels.
    CursorMoved {
        position: PointerPosition,
        device_id: i64,
        modifiers: ModifiersState,
    },
    CursorLeft { device_id: i64 },
    MouseInput {
        button: MouseButton,
        state: ElementState,
        device_id: i64,
        modifiers: ModifiersState,
    },
    MouseWheel {
        device_id: Option<i64>,
        delta: MouseScrollDelta,
        phase: TouchPhase,
        modifiers: ModifiersState,
    },
    ModifiersChanged(ModifiersState),
}

/// A window event together with the window it is about.
#[derive(Debug, Clone, Copy, PartialEq, Eq)]
pub struct Notification {
    pub window_id: WindowId,
    pub event: WindowEvent,
}

/// An event of the event loop.
///
/// `C` says why new events are due, and `D` what happened to a device. The
/// backend passes both on without looking at them.
#[derive(Debug, PartialEq, Eq)]
#[allow(inconsistent_fields)]
pub enum Event<C, D> {
    NewEvents(C),
    WindowEvent { window_id: WindowId, event: WindowEvent },
    DeviceEvent { device_id: i64, event: D },
    UserWakeUp,
    Suspended,
    Resumed,
    CreateSurfaces,
    AboutToWait,
    LoopExiting,
    MemoryWarning,
}

impl Notification {
    /// Turns the notification into an event of the event loop.
    pub fn into_event<C, D>(self) -> (event: Event<C, D>)
        ensures
            event == (Event::<C, D>::WindowEvent { window_id: self.window_id, event: self.event }),
    {
        Event::WindowEvent { window_id: self.window_id, event: self.event }
    }
}

/// The method of the application that handles an event, with its arguments.
#[derive(Debug, PartialEq, Eq)]
pub enum Callback<C, D> {
    NewEvents(C),
    WindowEvent(WindowId, WindowEvent),
    DeviceEvent(i64, D),
    ProxyWakeUp,
    Suspended,
    Resumed,
    CanCreateSurfaces,
    AboutToWait,
    Exiting,
    MemoryWarning,
}

/// The method of the application that handles the event.
pub open spec fn handler_of<C, D>(event: Event<C, D>) -> Callback<C, D> {
    match event {
        Event::NewEvents(cause) => Callback::NewEvents(cause),
        Event::WindowEvent { window_id, event } => Callback::WindowEvent(window_id, event),
        Event::DeviceEvent { device_id, event } => Callback::DeviceEvent(device_id, event),
        Event::UserWakeUp => Callback::ProxyWakeUp,
        Event::Suspended => Callback::Suspended,
        Event::Resumed => Callback::Resumed,
        Event::CreateSurfaces => Callback::CanCreateSurfaces,
        Event::AboutToWait => Callback::AboutToWait,
        Event::LoopExiting => Callback::Exiting,
        Event::MemoryWarning => Callback::MemoryWarning,
    }
}

/// Picks the method of the application that handles the event.
pub fn callback_for<C, D>(event: Event<C, D>) -> (callback: Callback<C, D>)
    ensures
        callback == handler_of(event),
{
    match event {
        Event::NewEvents(cause) => Callback::NewEvents(cause),
        Event::WindowEvent { window_id, event } => Callback::WindowEvent(window_id, event),
        Event::DeviceEvent { device_id, event } => Callback::DeviceEvent(device_id, event),
        Event::UserWakeUp => Callback::ProxyWakeUp,
        Event::Suspended => Callback::Suspended,
        Event::Resumed => Callback::Resumed,
        Event::CreateSurfaces => Callback::CanCreateSurfaces,
        Event::AboutToWait => Callback::AboutToWait,
        Event::LoopExiting => Callback::Exiting,
        Event::MemoryWarning => Callback::MemoryWarning,
    }
}

/// No two events lead to the same call: the application can tell them all apart.
pub proof fn law_events_stay_apart<C, D>(a: Event<C, D>, b: Event<C, D>)
    requires
        handler_of(a) == handler_of(b),
    ensures
        a == b,
{
}

} // verus!
