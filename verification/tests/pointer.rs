use winit_gtk::geometry::{WindowEdge, WindowGeometry};
use winit_gtk::pointer::{cursor_name, resize_cursor, touch_resize, ResizeDrag, WindowFrame};
use winit_gtk::signals::{on_motion_for_resize, on_touch, Propagation};

const WINDOW: WindowGeometry =
    WindowGeometry { left: 0, top: 0, width: 200, height: 100, scale_factor: 1 };

const BARE: WindowFrame = WindowFrame { decorated: false, resizable: true, maximized: false };

#[test]
fn every_edge_has_its_cursor() {
    assert_eq!(cursor_name(WindowEdge::North), "n-resize");
    assert_eq!(cursor_name(WindowEdge::South), "s-resize");
    assert_eq!(cursor_name(WindowEdge::East), "e-resize");
    assert_eq!(cursor_name(WindowEdge::West), "w-resize");
    assert_eq!(cursor_name(WindowEdge::NorthWest), "nw-resize");
    assert_eq!(cursor_name(WindowEdge::NorthEast), "ne-resize");
    assert_eq!(cursor_name(WindowEdge::SouthEast), "se-resize");
    assert_eq!(cursor_name(WindowEdge::SouthWest), "sw-resize");
    assert_eq!(cursor_name(WindowEdge::Unknown(8)), "default");
}

#[test]
fn motion_over_a_bare_window_sets_the_cursor() {
    assert_eq!(resize_cursor(BARE, Some(WINDOW), 2, 50), Some("w-resize"));
    assert_eq!(resize_cursor(BARE, Some(WINDOW), 100, 50), Some("default"));
    assert_eq!(resize_cursor(BARE, None, 2, 50), None);
}

#[test]
fn motion_over_other_windows_leaves_the_cursor() {
    for frame in [
        WindowFrame { decorated: true, ..BARE },
        WindowFrame { resizable: false, ..BARE },
        WindowFrame { maximized: true, ..BARE },
    ] {
        assert_eq!(resize_cursor(frame, Some(WINDOW), 2, 50), None);
    }
}

#[test]
fn touch_on_an_edge_starts_a_resize() {
    assert_eq!(
        touch_resize(BARE, Some(WINDOW), Some((199, 99)), true, 77),
        Some(ResizeDrag { edge: WindowEdge::SouthEast, button: 0, x: 199, y: 99, time: 77 })
    );
    assert_eq!(touch_resize(BARE, Some(WINDOW), Some((100, 50)), true, 77), None);
}

#[test]
fn touch_needs_a_surface_coordinates_and_a_device() {
    assert_eq!(touch_resize(BARE, None, Some((0, 0)), true, 1), None);
    assert_eq!(touch_resize(BARE, Some(WINDOW), None, true, 1), None);
    assert_eq!(touch_resize(BARE, Some(WINDOW), Some((0, 0)), false, 1), None);
}

#[test]
fn touch_on_framed_windows_starts_nothing() {
    let decorated = WindowFrame { decorated: true, ..BARE };
    let fixed = WindowFrame { resizable: false, ..BARE };
    assert_eq!(touch_resize(decorated, Some(WINDOW), Some((0, 0)), true, 1), None);
    assert_eq!(touch_resize(fixed, Some(WINDOW), Some((0, 0)), true, 1), None);
}

#[test]
fn touch_resizes_even_a_maximized_window() {
    let maximized = WindowFrame { maximized: true, ..BARE };
    assert_eq!(
        touch_resize(maximized, Some(WINDOW), Some((0, 50)), true, 1),
        Some(ResizeDrag { edge: WindowEdge::West, button: 0, x: 0, y: 50, time: 1 })
    );
}

#[test]
fn motion_and_touch_go_on() {
    let proceed = Propagation::Proceed;
    assert_eq!(on_motion_for_resize(BARE, Some(WINDOW), 2, 50), (Some("w-resize"), proceed));
    assert_eq!(on_motion_for_resize(BARE, Some(WINDOW), 100, 50), (Some("default"), proceed));
    assert_eq!(on_motion_for_resize(BARE, None, 2, 50), (None, proceed));
    let drag = ResizeDrag { edge: WindowEdge::North, button: 0, x: 100, y: 4, time: 6 };
    assert_eq!(on_touch(BARE, Some(WINDOW), Some((100, 4)), true, 6), (Some(drag), proceed));
    assert_eq!(on_touch(BARE, Some(WINDOW), Some((100, 50)), true, 6), (None, proceed));
    assert_eq!(on_touch(BARE, Some(WINDOW), None, true, 6), (None, proceed));
}

#[test]
fn touch_keeps_what_the_cursor_announces() {
    for x in 0..200 {
        for y in [0, 4, 5, 50, 94, 95, 99] {
            let shape = resize_cursor(BARE, Some(WINDOW), x, y).unwrap();
            match touch_resize(BARE, Some(WINDOW), Some((x, y)), true, 0) {
                Some(drag) => assert_eq!(cursor_name(drag.edge), shape),
                None => assert_eq!(shape, "default"),
            }
        }
    }
}
