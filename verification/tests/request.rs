use std::rc::Rc;
use std::sync::atomic::AtomicBool;

use winit_gtk::event::WindowId;
use winit_gtk::request::{
    handle_request, serve_request, EventMask, Fullscreen, Icon, Rectangle, Service, Signal,
    UserAttentionType, WindowAction, WindowContext, WindowRequest,
};
use winit_gtk::window::{Window, WindowExtUnix};

const PLAIN: WindowContext =
    WindowContext { found: true, pointer: None, has_screen: true, has_surface: true };

fn only(request: WindowRequest, context: WindowContext) -> WindowAction {
    let mut actions = handle_request(request, context);
    assert_eq!(actions.len(), 1);
    actions.remove(0)
}

#[test]
fn title_place_and_size() {
    let action = only(WindowRequest::Title("hello".to_string()), PLAIN);
    assert!(matches!(action, WindowAction::SetTitle(title) if title == "hello"));
    let action = only(WindowRequest::Position((3, -4)), PLAIN);
    assert!(matches!(action, WindowAction::MoveTo(3, -4)));
    let action = only(WindowRequest::Size((30, 40)), PLAIN);
    assert!(matches!(action, WindowAction::Resize(30, 40)));
}

#[test]
fn switches_go_both_ways() {
    assert!(matches!(only(WindowRequest::Visible(true), PLAIN), WindowAction::ShowAll));
    assert!(matches!(only(WindowRequest::Visible(false), PLAIN), WindowAction::Hide));
    assert!(matches!(only(WindowRequest::Minimized(true), PLAIN), WindowAction::Iconify));
    assert!(matches!(only(WindowRequest::Minimized(false), PLAIN), WindowAction::Deiconify));
    assert!(matches!(only(WindowRequest::Maximized(true), PLAIN), WindowAction::Maximize));
    assert!(matches!(only(WindowRequest::Maximized(false), PLAIN), WindowAction::Unmaximize));
    for on in [true, false] {
        let action = only(WindowRequest::Resizable(on), PLAIN);
        assert!(matches!(action, WindowAction::SetResizable(value) if value == on));
        let action = only(WindowRequest::Decorations(on), PLAIN);
        assert!(matches!(action, WindowAction::SetDecorated(value) if value == on));
        let action = only(WindowRequest::AlwaysOnBottom(on), PLAIN);
        assert!(matches!(action, WindowAction::SetKeepBelow(value) if value == on));
        let action = only(WindowRequest::AlwaysOnTop(on), PLAIN);
        assert!(matches!(action, WindowAction::SetKeepAbove(value) if value == on));
    }
}

#[test]
fn drag_starts_at_the_pointer() {
    let context = WindowContext { pointer: Some((11, 12)), ..PLAIN };
    assert!(matches!(
        only(WindowRequest::DragWindow, context),
        WindowAction::BeginMoveDrag { button: 1, x: 11, y: 12, time: 0 }
    ));
    assert!(handle_request(WindowRequest::DragWindow, PLAIN).is_empty());
}

#[test]
fn icon_is_set_but_never_removed() {
    let icon = Icon { rgba: vec![1, 2, 3, 4], width: 1, height: 1 };
    let action = only(WindowRequest::WindowIcon(Some(icon)), PLAIN);
    assert!(matches!(action, WindowAction::SetIcon(icon) if icon.rgba == vec![1, 2, 3, 4]));
    assert!(handle_request(WindowRequest::WindowIcon(None), PLAIN).is_empty());
}

#[test]
fn any_attention_is_urgent() {
    for attention in [UserAttentionType::Critical, UserAttentionType::Informational] {
        let action = only(WindowRequest::UserAttention(Some(attention)), PLAIN);
        assert!(matches!(action, WindowAction::SetUrgencyHint(true)));
    }
    let action = only(WindowRequest::UserAttention(None), PLAIN);
    assert!(matches!(action, WindowAction::SetUrgencyHint(false)));
}

#[test]
fn taskbar_and_pager_go_together() {
    for skip in [true, false] {
        let addressed = Window { window_id: WindowId::from_raw(5) }.set_skip_taskbar(skip);
        assert_eq!(addressed.window_id, WindowId::from_raw(5));
        let actions = handle_request(addressed.request, PLAIN);
        assert_eq!(actions.len(), 2);
        assert!(matches!(actions[0], WindowAction::SetSkipTaskbarHint(value) if value == skip));
        assert!(matches!(actions[1], WindowAction::SetSkipPagerHint(value) if value == skip));
    }
}

#[test]
fn pointer_is_warped_on_a_screen() {
    let context = WindowContext { pointer: Some((0, 0)), ..PLAIN };
    assert!(matches!(
        only(WindowRequest::CursorPosition((8, 9)), context),
        WindowAction::WarpPointer(8, 9)
    ));
    let no_screen = WindowContext { has_screen: false, ..context };
    assert!(handle_request(WindowRequest::CursorPosition((8, 9)), no_screen).is_empty());
    assert!(handle_request(WindowRequest::CursorPosition((8, 9)), PLAIN).is_empty());
}

#[test]
fn input_can_be_let_through() {
    match only(WindowRequest::CursorIgnoreEvents(true), PLAIN) {
        WindowAction::LimitInput { region, offset_x, offset_y } => {
            assert_eq!(region, Rectangle { x: 0, y: 0, width: 1, height: 1 });
            assert_eq!((offset_x, offset_y), (0, 0));
        },
        other => panic!("{:?}", other),
    }
    assert!(matches!(
        only(WindowRequest::CursorIgnoreEvents(false), PLAIN),
        WindowAction::UnlimitInput
    ));
}

#[test]
fn wiring_up_connects_every_handler() {
    let flag = Rc::new(AtomicBool::new(true));
    let request = WindowRequest::WireUpEvents { transparent: flag.clone() };
    let actions = handle_request(request, PLAIN);
    assert_eq!(actions.len(), 18);
    match &actions[0] {
        WindowAction::AddEvents(mask) => assert_eq!(
            *mask,
            vec![
                EventMask::PointerMotion,
                EventMask::Button1Motion,
                EventMask::ButtonPress,
                EventMask::Touch,
                EventMask::Structure,
                EventMask::FocusChange,
                EventMask::Scroll,
            ]
        ),
        other => panic!("{:?}", other),
    }
    assert!(matches!(actions[1], WindowAction::Connect(Signal::MotionForResize)));
    assert!(matches!(actions[2], WindowAction::Connect(Signal::Touch)));
    assert!(matches!(actions[9], WindowAction::Connect(Signal::MotionNotify)));
    match &actions[17] {
        WindowAction::Connect(Signal::Draw { transparent }) => {
            assert!(Rc::ptr_eq(transparent, &flag))
        },
        other => panic!("{:?}", other),
    }
}

#[test]
fn requests_for_missing_windows_are_dropped() {
    let missing = WindowContext { found: false, ..PLAIN };
    assert!(handle_request(WindowRequest::Visible(true), missing).is_empty());
    assert!(handle_request(WindowRequest::Focus, missing).is_empty());
    assert!(handle_request(WindowRequest::CursorIcon(None), missing).is_empty());
}

#[test]
fn requests_are_served_on_and_on() {
    let (actions, service) = serve_request(WindowRequest::Visible(false), PLAIN);
    assert_eq!(actions.len(), 1);
    assert!(matches!(actions[0], WindowAction::Hide));
    assert_eq!(service, Service::Continue);
    let missing = WindowContext { found: false, ..PLAIN };
    for request in [WindowRequest::Focus, WindowRequest::Visible(true), WindowRequest::DragWindow] {
        let (actions, service) = serve_request(request, missing);
        assert!(actions.is_empty());
        assert_eq!(service, Service::Continue);
    }
}

#[test]
fn unsupported_requests_are_known() {
    let size = dpi::Size::Physical(dpi::PhysicalSize::new(4, 5));
    assert!(!WindowRequest::SizeConstraints(Some(size), None).is_supported());
    assert!(!WindowRequest::Focus.is_supported());
    assert!(!WindowRequest::Fullscreen(Some(Fullscreen::Borderless)).is_supported());
    assert!(!WindowRequest::CursorIcon(Some(cursor_icon::CursorIcon::Text)).is_supported());
    assert!(WindowRequest::DragWindow.is_supported());
    assert!(WindowRequest::CursorIgnoreEvents(true).is_supported());
}
