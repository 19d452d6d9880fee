use winit_gtk::event::{
    callback_for, Callback, DeviceId, ElementState, Event, ModifiersState, MouseButton,
    MouseScrollDelta, Notification, TouchPhase, WindowEvent, WindowId, DEVICE_ID,
};
use winit_gtk::scale::{
    physical_pointer, physical_size_from_signed, LogicalPosition, PhysicalPosition, PhysicalSize,
    PointerPosition,
};
use winit_gtk::signals::{
    mouse_button, on_button_press, on_button_release, on_configure, on_delete, on_destroy,
    on_draw, on_enter, on_focus_in, on_focus_out, on_leave, on_motion, on_scroll,
    on_window_state, ModifiersTracker, PaintOperator, PaintStep, Propagation, Reaction,
    ScrollDirection,
};

const ID: WindowId = WindowId { raw: 7 };

fn check(reaction: Reaction, events: &[WindowEvent], propagation: Propagation) {
    let expected: Vec<Notification> =
        events.iter().map(|event| Notification { window_id: ID, event: *event }).collect();
    assert_eq!(reaction.notices, expected);
    assert_eq!(reaction.propagation, propagation);
}

#[test]
fn close_button_is_left_to_the_application() {
    check(on_delete(ID), &[WindowEvent::CloseRequested], Propagation::Stop);
}

#[test]
fn configure_reports_position_then_size() {
    check(
        on_configure(ID, (10, -20), (640, 480), 2),
        &[
            WindowEvent::Moved(PhysicalPosition { x: 20, y: -40 }),
            WindowEvent::Resized(PhysicalSize { width: 1280, height: 960 }),
        ],
        Propagation::Proceed,
    );
}

#[test]
fn configure_at_unit_scale_changes_nothing() {
    check(
        on_configure(ID, (i32::MAX, i32::MIN), (u32::MAX, 0), 1),
        &[
            WindowEvent::Moved(PhysicalPosition { x: i32::MAX, y: i32::MIN }),
            WindowEvent::Resized(PhysicalSize { width: u32::MAX, height: 0 }),
        ],
        Propagation::Proceed,
    );
}

#[test]
fn configure_saturates() {
    check(
        on_configure(ID, (i32::MAX, i32::MIN), (u32::MAX, u32::MAX / 2 + 1), i32::MAX),
        &[
            WindowEvent::Moved(PhysicalPosition { x: i32::MAX, y: i32::MIN }),
            WindowEvent::Resized(PhysicalSize { width: u32::MAX, height: u32::MAX }),
        ],
        Propagation::Proceed,
    );
    check(
        on_configure(ID, (1_073_741_823, 1_073_741_824), (2_147_483_647, 2_147_483_648), 2),
        &[
            WindowEvent::Moved(PhysicalPosition { x: 2_147_483_646, y: i32::MAX }),
            WindowEvent::Resized(PhysicalSize { width: 4_294_967_294, height: u32::MAX }),
        ],
        Propagation::Proceed,
    );
}

#[test]
fn scaling_keeps_order() {
    let mut last = PhysicalSize { width: 0, height: 0 };
    for extent in [-5, 0, 1, 2, 1000, 1_431_655_765, 1_431_655_766, i32::MAX] {
        let size = physical_size_from_signed(extent, extent, 3);
        assert!(size.width >= last.width && size.height >= last.height);
        last = size;
    }
    assert_eq!(
        physical_size_from_signed(1_431_655_765, -1, 3),
        PhysicalSize { width: u32::MAX, height: 0 }
    );
    assert_eq!(
        physical_size_from_signed(1_431_655_764, 4, 3),
        PhysicalSize { width: 4_294_967_292, height: 12 }
    );
}

#[test]
fn focus_is_reported() {
    check(on_focus_in(ID), &[WindowEvent::Focused(true)], Propagation::Proceed);
    check(on_focus_out(ID), &[WindowEvent::Focused(false)], Propagation::Proceed);
}

#[test]
fn destruction_is_reported() {
    assert_eq!(on_destroy(ID), Notification { window_id: ID, event: WindowEvent::Destroyed });
}

#[test]
fn pointer_comes_and_goes() {
    check(
        on_enter(ID),
        &[WindowEvent::CursorEntered { device_id: DEVICE_ID }],
        Propagation::Proceed,
    );
    check(on_leave(ID), &[WindowEvent::CursorLeft { device_id: DEVICE_ID }], Propagation::Proceed);
}

#[test]
fn pointer_motion_is_reported_for_known_devices() {
    let position = LogicalPosition { x: 3, y: -4 };
    check(
        on_motion(ID, Some(position), 2),
        &[WindowEvent::CursorMoved {
            position: PointerPosition { x: 6, y: -8 },
            device_id: DEVICE_ID,
            modifiers: ModifiersState { bits: 0 },
        }],
        Propagation::Proceed,
    );
    check(on_motion(ID, None, 2), &[], Propagation::Proceed);
}

#[test]
fn pointer_positions_are_exact_products() {
    let far = LogicalPosition { x: i32::MIN, y: i32::MAX };
    assert_eq!(
        physical_pointer(far, i32::MAX),
        PointerPosition { x: -4_611_686_016_279_904_256, y: 4_611_686_014_132_420_609 }
    );
    for (x, y, scale_factor) in [(3, -4, 2), (i32::MIN, i32::MAX, i32::MAX), (-7, 0, 1)] {
        let pointer = physical_pointer(LogicalPosition { x, y }, scale_factor);
        let scaled: dpi::PhysicalPosition<f64> =
            dpi::LogicalPosition::new(x, y).to_physical(scale_factor as f64);
        assert_eq!((pointer.x as f64, pointer.y as f64), (scaled.x, scaled.y));
    }
}

#[test]
fn pointers_scale_like_windows() {
    let pointer = physical_pointer(LogicalPosition { x: 12, y: -34 }, 3);
    let reaction = on_configure(ID, (12, -34), (1, 1), 3);
    assert_eq!(
        reaction.notices[0].event,
        WindowEvent::Moved(PhysicalPosition { x: pointer.x as i32, y: pointer.y as i32 })
    );
}

#[test]
fn buttons_are_named() {
    assert_eq!(mouse_button(1), MouseButton::Left);
    assert_eq!(mouse_button(2), MouseButton::Middle);
    assert_eq!(mouse_button(3), MouseButton::Right);
    assert_eq!(mouse_button(0), MouseButton::Other(0));
    assert_eq!(mouse_button(8), MouseButton::Other(8));
    assert_eq!(mouse_button(65_535), MouseButton::Other(65_535));
    assert_eq!(mouse_button(65_537), MouseButton::Other(1));
    assert_eq!(mouse_button(u32::MAX), MouseButton::Other(65_535));
}

#[test]
fn buttons_are_reported() {
    let input = |button, state| WindowEvent::MouseInput {
        button,
        state,
        device_id: 0,
        modifiers: ModifiersState { bits: 0 },
    };
    check(
        on_button_press(ID, 3),
        &[input(MouseButton::Right, ElementState::Pressed)],
        Propagation::Proceed,
    );
    check(
        on_button_release(ID, 9),
        &[input(MouseButton::Other(9), ElementState::Released)],
        Propagation::Proceed,
    );
}

#[test]
fn scrolling_is_reversed() {
    let wheel = |x: f32, y: f32, phase| WindowEvent::MouseWheel {
        device_id: Some(0),
        delta: MouseScrollDelta::LineDelta(x.to_bits(), y.to_bits()),
        phase,
        modifiers: ModifiersState { bits: 0 },
    };
    check(
        on_scroll(ID, 1.5f32.to_bits(), (-0.25f32).to_bits(), ScrollDirection::Smooth),
        &[wheel(-1.5, 0.25, TouchPhase::Moved)],
        Propagation::Proceed,
    );
    for direction in [
        ScrollDirection::Up,
        ScrollDirection::Down,
        ScrollDirection::Left,
        ScrollDirection::Right,
        ScrollDirection::Unknown(9),
    ] {
        check(
            on_scroll(ID, 0.0f32.to_bits(), 3.0f32.to_bits(), direction),
            &[wheel(-0.0, -3.0, TouchPhase::Ended)],
            Propagation::Proceed,
        );
    }
}

#[test]
fn modifiers_are_reported_when_they_change() {
    let mut tracker = ModifiersTracker::new();
    let shift = ModifiersState { bits: 4 };
    assert_eq!(tracker.update(ID, ModifiersState::empty()), None);
    let notice = Notification { window_id: ID, event: WindowEvent::ModifiersChanged(shift) };
    assert_eq!(tracker.update(ID, shift), Some(notice));
    assert_eq!(tracker.update(ID, shift), None);
    assert_eq!(tracker.reported, shift);
    let none = ModifiersState { bits: 0 };
    assert_eq!(
        tracker.update(ID, none),
        Some(Notification { window_id: ID, event: WindowEvent::ModifiersChanged(none) })
    );
    assert_eq!(tracker.reported, none);
}

#[test]
fn state_changes_that_move_the_window_are_reported() {
    let placed = [
        WindowEvent::Moved(PhysicalPosition { x: 3, y: 6 }),
        WindowEvent::Resized(PhysicalSize { width: 30, height: 0 }),
    ];
    for (iconified, maximized) in [(true, false), (false, true), (true, true)] {
        check(
            on_window_state(ID, iconified, maximized, (1, 2), (10, -1), 3),
            &placed,
            Propagation::Proceed,
        );
    }
    check(on_window_state(ID, false, false, (1, 2), (10, 5), 3), &[], Propagation::Proceed);
}

#[test]
fn state_changes_report_like_configure() {
    let changed = on_window_state(ID, true, false, (5, 6), (70, 80), 2);
    let configured = on_configure(ID, (5, 6), (70, 80), 2);
    assert_eq!(changed.notices, configured.notices);
}

#[test]
fn transparent_windows_are_wiped() {
    let (steps, propagation) = on_draw(true);
    assert_eq!(
        steps,
        vec![
            PaintStep::SetTransparentSource,
            PaintStep::SetOperator(PaintOperator::Source),
            PaintStep::Paint,
            PaintStep::SetOperator(PaintOperator::Over),
        ]
    );
    assert_eq!(propagation, Propagation::Proceed);
    let (steps, propagation) = on_draw(false);
    assert!(steps.is_empty());
    assert_eq!(propagation, Propagation::Proceed);
}

#[test]
fn window_numbers_keep_32_bits() {
    assert_eq!(WindowId::from_raw(7).toolkit_id(), 7);
    assert_eq!(WindowId::from_raw(0x1_0000_0007).toolkit_id(), 7);
    assert_eq!(WindowId::from_raw(0xffff_ffff).toolkit_id(), u32::MAX);
    assert_eq!(WindowId::from_raw(11).into_raw(), 11);
}

#[test]
fn placeholder_device() {
    assert_eq!(DeviceId::dummy(), DeviceId(0));
    assert_eq!(DEVICE_ID, 0);
}

#[test]
fn events_reach_their_callbacks() {
    let pairs: Vec<(Event<u8, u16>, Callback<u8, u16>)> = vec![
        (Event::NewEvents(5), Callback::NewEvents(5)),
        (
            Notification { window_id: ID, event: WindowEvent::Destroyed }.into_event(),
            Callback::WindowEvent(ID, WindowEvent::Destroyed),
        ),
        (Event::DeviceEvent { device_id: 4, event: 6 }, Callback::DeviceEvent(4, 6)),
        (Event::UserWakeUp, Callback::ProxyWakeUp),
        (Event::Suspended, Callback::Suspended),
        (Event::Resumed, Callback::Resumed),
        (Event::CreateSurfaces, Callback::CanCreateSurfaces),
        (Event::AboutToWait, Callback::AboutToWait),
        (Event::LoopExiting, Callback::Exiting),
        (Event::MemoryWarning, Callback::MemoryWarning),
    ];
    for (event, callback) in pairs {
        assert_eq!(callback_for(event), callback);
    }
}
