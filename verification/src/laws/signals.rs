//! Laws of the reactions to signals.

use vstd::prelude::*;

use crate::event::{
    ElementState, ModifiersState, MouseButton, MouseScrollDelta, Notification, WindowEvent,
    WindowId,
};
use crate::scale::LogicalPosition;
use crate::signals::{
    mouse_button, on_button_press, on_button_release, on_configure, on_delete, on_destroy, on_draw,
    on_enter, on_focus_in, on_focus_out, on_leave, on_motion, on_scroll, on_window_state,
    ModifiersTracker, PaintOperator, PaintStep, Propagation, Reaction, ScrollDirection,
};

verus! {

/// A request to close is reported once, and the toolkit goes no further.
pub proof fn law_closing_is_left_to_the_application(window_id: WindowId, reaction: Reaction)
    requires
        call_ensures(on_delete, (window_id,), reaction),
    ensures
        reaction.notices@.len() == 1,
        reaction.notices@[0].window_id == window_id,
        reaction.notices@[0].event is CloseRequested,
        reaction.propagation is Stop,
{
}

/// Getting the focus and losing it are reported once each, for what they are.
pub proof fn law_focus_is_reported_for_what_it_is(
    window_id: WindowId,
    got: Reaction,
    lost: Reaction,
)
    requires
        call_ensures(on_focus_in, (window_id,), got),
        call_ensures(on_focus_out, (window_id,), lost),
    ensures
        got.notices@.len() == 1,
        got.notices@[0].window_id == window_id,
        got.notices@[0].event == WindowEvent::Focused(true),
        got.propagation is Proceed,
        lost.notices@.len() == 1,
        lost.notices@[0].window_id == window_id,
        lost.notices@[0].event == WindowEvent::Focused(false),
        lost.propagation is Proceed,
{
}

/// The end of a window is reported about that window.
pub proof fn law_end_of_a_window_is_reported(window_id: WindowId, notice: Notification)
    requires
        call_ensures(on_destroy, (window_id,), notice),
    ensures
        notice.window_id == window_id,
        notice.event is Destroyed,
{
}

/// The pointer is reported once when it comes and once when it goes, as device
/// number zero.
pub proof fn law_pointer_is_reported_to_come_and_go(
    window_id: WindowId,
    come: Reaction,
    gone: Reaction,
)
    requires
        call_ensures(on_enter, (window_id,), come),
        call_ensures(on_leave, (window_id,), gone),
    ensures
        come.notices@.len() == 1,
        come.notices@[0].window_id == window_id,
        come.notices@[0].event == (WindowEvent::CursorEntered { device_id: 0 }),
        come.propagation is Proceed,
        gone.notices@.len() == 1,
        gone.notices@[0].window_id == window_id,
        gone.notices@[0].event == (WindowEvent::CursorLeft { device_id: 0 }),
        gone.propagation is Proceed,
{
}

/// A movement of a known device is reported once, at the exact product of the
/// position and the scale factor, for every position and every positive factor. One
/// of an unknown device is not reported. The movement always goes on.
pub proof fn law_motion_is_reported_at_the_product(
    window_id: WindowId,
    pointer: Option<LogicalPosition>,
    scale_factor: i32,
    reaction: Reaction,
)
    requires
        call_ensures(on_motion, (window_id, pointer, scale_factor), reaction),
    ensures
        pointer is None ==> reaction.notices@.len() == 0,
        pointer is Some ==> {
            &&& reaction.notices@.len() == 1
            &&& reaction.notices@[0].window_id == window_id
            &&& reaction.notices@[0].event matches WindowEvent::CursorMoved {
                position,
                device_id,
                modifiers,
            } && {
                &&& position.x == pointer->0.x * scale_factor
                &&& position.y == pointer->0.y * scale_factor
                &&& device_id == 0
                &&& modifiers.bits == 0
            }
        },
        reaction.propagation is Proceed,
{
    if let Some(position) = pointer {
        crate::scale::law_pointers_scale_exactly(position, scale_factor);
    }
}

/// Every movement can be reported, and one without a known device at any factor.
pub proof fn law_any_motion_can_be_reported(
    window_id: WindowId,
    position: LogicalPosition,
    scale_factor: i32,
)
    ensures
        scale_factor > 0 ==> call_requires(on_motion, (window_id, Some(position), scale_factor)),
        call_requires(on_motion, (window_id, None::<LogicalPosition>, scale_factor)),
{
}

/// A new place is reported as two events, the position first and then the size. Each
/// number comes out multiplied by the scale factor, or at the end of its range where
/// the product lies beyond it.
pub proof fn law_new_places_are_reported_in_physical_pixels(
    window_id: WindowId,
    position: (i32, i32),
    size: (u32, u32),
    scale_factor: i32,
    reaction: Reaction,
)
    requires
        scale_factor > 0,
        call_ensures(on_configure, (window_id, position, size, scale_factor), reaction),
    ensures
        reaction.notices@.len() == 2,
        reaction.notices@[0].window_id == window_id,
        reaction.notices@[1].window_id == window_id,
        reaction.notices@[0].event matches WindowEvent::Moved(moved) && {
            let x = position.0 * scale_factor;
            let y = position.1 * scale_factor;
            &&& -0x8000_0000 <= x <= 0x7fff_ffff ==> moved.x == x
            &&& x < -0x8000_0000 ==> moved.x == -0x8000_0000
            &&& x > 0x7fff_ffff ==> moved.x == 0x7fff_ffff
            &&& -0x8000_0000 <= y <= 0x7fff_ffff ==> moved.y == y
            &&& y < -0x8000_0000 ==> moved.y == -0x8000_0000
            &&& y > 0x7fff_ffff ==> moved.y == 0x7fff_ffff
        },
        reaction.notices@[1].event matches WindowEvent::Resized(resized) && {
            let width = size.0 * scale_factor;
            let height = size.1 * scale_factor;
            &&& width <= 0xffff_ffff ==> resized.width == width
            &&& width > 0xffff_ffff ==> resized.width == 0xffff_ffff
            &&& height <= 0xffff_ffff ==> resized.height == height
            &&& height > 0xffff_ffff ==> resized.height == 0xffff_ffff
        },
        reaction.propagation is Proceed,
{
    crate::laws::pixels::lemma_positive_factor_keeps_sign(size.0 as int, scale_factor as int);
    crate::laws::pixels::lemma_positive_factor_keeps_sign(size.1 as int, scale_factor as int);
}

/// A change of state is reported exactly if the window was minimized or maximized, or
/// is no longer so, and then as two events, the position first and then the size.
/// Each number comes out multiplied by the scale factor, or at the end of its range
/// where the product lies beyond it. A negative extent comes out as zero.
pub proof fn law_changes_of_state_are_reported_as_new_places(
    window_id: WindowId,
    iconified_changed: bool,
    maximized_changed: bool,
    position: (i32, i32),
    size: (i32, i32),
    scale_factor: i32,
    reaction: Reaction,
)
    requires
        iconified_changed || maximized_changed ==> scale_factor > 0,
        call_ensures(
            on_window_state,
            (window_id, iconified_changed, maximized_changed, position, size, scale_factor),
            reaction,
        ),
    ensures
        !iconified_changed && !maximized_changed ==> reaction.notices@.len() == 0,
        iconified_changed || maximized_changed ==> {
            &&& reaction.notices@.len() == 2
            &&& reaction.notices@[0].window_id == window_id
            &&& reaction.notices@[1].window_id == window_id
            &&& reaction.notices@[0].event matches WindowEvent::Moved(moved) && {
                let x = position.0 * scale_factor;
                let y = position.1 * scale_factor;
                &&& -0x8000_0000 <= x <= 0x7fff_ffff ==> moved.x == x
                &&& x < -0x8000_0000 ==> moved.x == -0x8000_0000
                &&& x > 0x7fff_ffff ==> moved.x == 0x7fff_ffff
                &&& -0x8000_0000 <= y <= 0x7fff_ffff ==> moved.y == y
                &&& y < -0x8000_0000 ==> moved.y == -0x8000_0000
                &&& y > 0x7fff_ffff ==> moved.y == 0x7fff_ffff
            }
            &&& reaction.notices@[1].event matches WindowEvent::Resized(resized) && {
                let width = size.0 * scale_factor;
                let height = size.1 * scale_factor;
                &&& size.0 <= 0 ==> resized.width == 0
                &&& size.0 > 0 && width <= 0xffff_ffff ==> resized.width == width
                &&& width > 0xffff_ffff ==> resized.width == 0xffff_ffff
                &&& size.1 <= 0 ==> resized.height == 0
                &&& size.1 > 0 && height <= 0xffff_ffff ==> resized.height == height
                &&& height > 0xffff_ffff ==> resized.height == 0xffff_ffff
            }
        },
        reaction.propagation is Proceed,
{
    if iconified_changed || maximized_changed {
        crate::laws::pixels::lemma_positive_factor_keeps_sign(size.0 as int, scale_factor as int);
        crate::laws::pixels::lemma_positive_factor_keeps_sign(size.1 as int, scale_factor as int);
    }
}

/// A new place of a window is reported alike, whichever of the two signals brings it.
pub proof fn law_both_signals_report_a_place_alike(
    window_id: WindowId,
    iconified_changed: bool,
    maximized_changed: bool,
    position: (i32, i32),
    size: (u32, u32),
    signed_size: (i32, i32),
    scale_factor: i32,
    configured: Reaction,
    changed: Reaction,
)
    requires
        scale_factor > 0,
        iconified_changed || maximized_changed,
        size.0 == signed_size.0,
        size.1 == signed_size.1,
        call_ensures(on_configure, (window_id, position, size, scale_factor), configured),
        call_ensures(
            on_window_state,
            (window_id, iconified_changed, maximized_changed, position, signed_size, scale_factor),
            changed,
        ),
    ensures
        configured.notices@ == changed.notices@,
        configured.propagation == changed.propagation,
{
}

/// Places can be reported at every positive scale factor, and other changes of state
/// at any.
pub proof fn law_any_place_can_be_reported(
    window_id: WindowId,
    iconified_changed: bool,
    maximized_changed: bool,
    position: (i32, i32),
    size: (u32, u32),
    signed_size: (i32, i32),
    scale_factor: i32,
)
    ensures
        scale_factor > 0 ==> call_requires(on_configure, (window_id, position, size, scale_factor)),
        scale_factor > 0 ==> call_requires(
            on_window_state,
            (window_id, iconified_changed, maximized_changed, position, signed_size, scale_factor),
        ),
        call_requires(
            on_window_state,
            (window_id, false, false, position, signed_size, scale_factor),
        ),
{
}

/// The buttons one, two and three are the left, the middle and the right one. All
/// others keep the low 16 bits of their number.
pub proof fn law_buttons_are_named_by_number(button: u32, named: MouseButton)
    requires
        call_ensures(mouse_button, (button,), named),
    ensures
        named is Left <==> button == 1,
        named is Middle <==> button == 2,
        named is Right <==> button == 3,
        named matches MouseButton::Other(number) ==> {
            &&& button < 0x1_0000 ==> number == button
            &&& (button - number) % 0x1_0000 == 0
        },
{
}

/// Pressing a button and releasing it are reported once each, for what they are, and
/// of the same button: the one that has the number.
pub proof fn law_buttons_are_reported_for_what_they_do(
    window_id: WindowId,
    button: u32,
    named: MouseButton,
    pressed: Reaction,
    released: Reaction,
)
    requires
        call_ensures(mouse_button, (button,), named),
        call_ensures(on_button_press, (window_id, button), pressed),
        call_ensures(on_button_release, (window_id, button), released),
    ensures
        pressed.notices@.len() == 1,
        pressed.notices@[0].window_id == window_id,
        pressed.notices@[0].event == (WindowEvent::MouseInput {
            button: named,
            state: ElementState::Pressed,
            device_id: 0,
            modifiers: ModifiersState { bits: 0 },
        }),
        pressed.propagation is Proceed,
        released.notices@.len() == 1,
        released.notices@[0].window_id == window_id,
        released.notices@[0].event == (WindowEvent::MouseInput {
            button: named,
            state: ElementState::Released,
            device_id: 0,
            modifiers: ModifiersState { bits: 0 },
        }),
        released.propagation is Proceed,
{
}

/// A turn of the wheel is reported once. Each distance changes its sign bit and keeps
/// all other bits. The turn is under way where it is smooth, and over otherwise.
pub proof fn law_wheel_is_reported_with_the_sign_reversed(
    window_id: WindowId,
    x_bits: u32,
    y_bits: u32,
    direction: ScrollDirection,
    reaction: Reaction,
)
    requires
        call_ensures(on_scroll, (window_id, x_bits, y_bits, direction), reaction),
    ensures
        reaction.notices@.len() == 1,
        reaction.notices@[0].window_id == window_id,
        reaction.notices@[0].event matches WindowEvent::MouseWheel {
            device_id,
            delta,
            phase,
            modifiers,
        } && {
            &&& device_id == Some(0i64)
            &&& delta matches MouseScrollDelta::LineDelta(x, y) && {
                &&& x_bits < 0x8000_0000 ==> x == x_bits + 0x8000_0000
                &&& x_bits >= 0x8000_0000 ==> x == x_bits - 0x8000_0000
                &&& y_bits < 0x8000_0000 ==> y == y_bits + 0x8000_0000
                &&& y_bits >= 0x8000_0000 ==> y == y_bits - 0x8000_0000
            }
            &&& phase is Moved <==> direction is Smooth
            &&& phase is Ended <==> direction !is Smooth
            &&& modifiers.bits == 0
        },
        reaction.propagation is Proceed,
{
    assert(x_bits < 0x8000_0000 ==> x_bits ^ 0x8000_0000u32 == x_bits + 0x8000_0000)
        by (bit_vector);
    assert(x_bits >= 0x8000_0000 ==> x_bits ^ 0x8000_0000u32 == x_bits - 0x8000_0000)
        by (bit_vector);
    assert(y_bits < 0x8000_0000 ==> y_bits ^ 0x8000_0000u32 == y_bits + 0x8000_0000)
        by (bit_vector);
    assert(y_bits >= 0x8000_0000 ==> y_bits ^ 0x8000_0000u32 == y_bits - 0x8000_0000)
        by (bit_vector);
}

/// At the start no modifier key counts as held down. After that the keys are reported
/// exactly when they are not the ones that were last reported, and those at hand are
/// then the last reported.
pub proof fn law_modifiers_are_reported_when_they_change(
    start: ModifiersTracker,
    tracker: &mut ModifiersTracker,
    window_id: WindowId,
    current: ModifiersState,
    notice: Option<Notification>,
)
    requires
        call_ensures(ModifiersTracker::new, (), start),
        call_ensures(ModifiersTracker::update, (tracker, window_id, current), notice),
    ensures
        start.reported.bits == 0,
        notice is Some <==> old(tracker).reported.bits != current.bits,
        notice is Some ==> notice->0.window_id == window_id && notice->0.event
            == WindowEvent::ModifiersChanged(current),
        final(tracker).reported == current,
{
}

/// Over a series of key events one report is made for each event at which the keys are
/// not those of the event before.
pub proof fn law_every_change_of_modifiers_is_reported(
    start: ModifiersState,
    states: Seq<ModifiersState>,
    next: ModifiersState,
)
    ensures
        ({
            let before = crate::signals::modifiers_reports(start, states);
            let after = crate::signals::modifiers_reports(start, states.push(next));
            let held = if states.len() == 0 {
                start
            } else {
                states.last()
            };
            after == if held == next {
                before
            } else {
                before.push(next)
            }
        }),
        crate::signals::modifiers_reports(start, Seq::empty()).len() == 0,
{
    assert(states.push(next).drop_last() =~= states);
}

/// A transparent window is wiped in four steps, after which what is drawn goes over
/// what is there again. Any other window is left as it is. Drawing always goes on.
pub proof fn law_transparent_windows_are_wiped(
    transparent: bool,
    reaction: (Vec<PaintStep>, Propagation),
)
    requires
        call_ensures(on_draw, (transparent,), reaction),
    ensures
        !transparent ==> reaction.0@.len() == 0,
        transparent ==> {
            &&& reaction.0@.len() == 4
            &&& reaction.0@[0] is SetTransparentSource
            &&& reaction.0@[1] == PaintStep::SetOperator(PaintOperator::Source)
            &&& reaction.0@[2] is Paint
            &&& reaction.0@[3] == PaintStep::SetOperator(PaintOperator::Over)
        },
        reaction.1 is Proceed,
{
}

} // verus!
