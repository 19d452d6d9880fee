//! Laws of identifiers, events and the callbacks that handle them.

use vstd::prelude::*;

use crate::event::{
    callback_for, Callback, DeviceId, Event, ModifiersState, Notification, WindowEvent, WindowId,
    DEVICE_ID,
};

verus! {

/// A number that becomes an identifier can be had back from it, and the identifier
/// from the number.
pub proof fn law_identifiers_and_numbers_convert_back(
    raw: usize,
    id: WindowId,
    id_of_raw: WindowId,
    raw_of_id: usize,
    raw_again: usize,
    id_again: WindowId,
)
    requires
        call_ensures(WindowId::from_raw, (raw,), id_of_raw),
        call_ensures(WindowId::into_raw, (id_of_raw,), raw_again),
        call_ensures(WindowId::into_raw, (id,), raw_of_id),
        call_ensures(WindowId::from_raw, (raw_of_id,), id_again),
    ensures
        raw_again == raw,
        id_again == id,
        id_of_raw.raw == raw,
        raw_of_id == id.raw,
{
}

/// The toolkit keeps a window under the number of its identifier, less as many
/// times two to the 32nd as it takes for 32 bits.
pub proof fn law_toolkit_keeps_the_low_bits(id: WindowId, number: u32)
    requires
        call_ensures(WindowId::toolkit_id, (id,), number),
    ensures
        id.raw < 0x1_0000_0000 ==> number == id.raw,
        (id.raw - number) % 0x1_0000_0000 == 0,
{
}

/// Two windows are kept under the same number exactly if their identifiers are a
/// multiple of two to the 32nd apart.
pub proof fn law_numbers_collide_only_across_the_word(
    a: WindowId,
    b: WindowId,
    number_a: u32,
    number_b: u32,
)
    requires
        call_ensures(WindowId::toolkit_id, (a,), number_a),
        call_ensures(WindowId::toolkit_id, (b,), number_b),
    ensures
        number_a == number_b <==> (a.raw - b.raw) % 0x1_0000_0000 == 0,
{
}

/// The placeholder is device number zero, as is the device of every event, and an
/// empty set of modifier keys has no bit.
pub proof fn law_placeholders_are_zero(device: DeviceId, modifiers: ModifiersState)
    requires
        call_ensures(DeviceId::dummy, (), device),
        call_ensures(ModifiersState::empty, (), modifiers),
    ensures
        device.0 == 0,
        DEVICE_ID == 0,
        modifiers.bits == 0,
{
}

/// An event of a window is handled by the callback for events of windows, which gets
/// the window and the event as they are, for every window and every event.
pub proof fn law_window_events_arrive_unchanged<C, D>(
    window_id: WindowId,
    event: WindowEvent,
    callback: Callback<C, D>,
)
    requires
        call_ensures(
            callback_for::<C, D>,
            (Event::<C, D>::WindowEvent { window_id, event },),
            callback,
        ),
    ensures
        callback == Callback::<C, D>::WindowEvent(window_id, event),
{
}

/// The cause of new events arrives as it is.
pub proof fn law_causes_arrive_unchanged<C, D>(cause: C, callback: Callback<C, D>)
    requires
        call_ensures(callback_for::<C, D>, (Event::<C, D>::NewEvents(cause),), callback),
    ensures
        callback == Callback::<C, D>::NewEvents(cause),
{
}

/// An event of a device arrives as it is, with its device.
pub proof fn law_device_events_arrive_unchanged<C, D>(
    device_id: i64,
    event: D,
    callback: Callback<C, D>,
)
    requires
        call_ensures(
            callback_for::<C, D>,
            (Event::<C, D>::DeviceEvent { device_id, event },),
            callback,
        ),
    ensures
        callback == Callback::<C, D>::DeviceEvent(device_id, event),
{
}

/// Every callback is called for one kind of event and no other.
pub proof fn law_callbacks_and_events_correspond<C, D>(
    event: Event<C, D>,
    callback: Callback<C, D>,
)
    requires
        call_ensures(callback_for::<C, D>, (event,), callback),
    ensures
        callback is NewEvents <==> event is NewEvents,
        callback is WindowEvent <==> event is WindowEvent,
        callback is DeviceEvent <==> event is DeviceEvent,
        callback is ProxyWakeUp <==> event is UserWakeUp,
        callback is Suspended <==> event is Suspended,
        callback is Resumed <==> event is Resumed,
        callback is CanCreateSurfaces <==> event is CreateSurfaces,
        callback is AboutToWait <==> event is AboutToWait,
        callback is Exiting <==> event is LoopExiting,
        callback is MemoryWarning <==> event is MemoryWarning,
{
}

/// What a notification says of a window is what the application is told of it.
pub proof fn law_notifications_reach_the_application<C, D>(
    notice: Notification,
    event: Event<C, D>,
    callback: Callback<C, D>,
)
    requires
        call_ensures(Notification::into_event::<C, D>, (notice,), event),
        call_ensures(callback_for::<C, D>, (event,), callback),
    ensures
        event == (Event::<C, D>::WindowEvent { window_id: notice.window_id, event: notice.event }),
        callback == Callback::<C, D>::WindowEvent(notice.window_id, notice.event),
{
}

} // verus!
