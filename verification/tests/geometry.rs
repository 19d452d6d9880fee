use winit_gtk::geometry::{hit_test, WindowEdge, WindowGeometry, BORDERLESS_RESIZE_INSET};

const WINDOW: WindowGeometry =
    WindowGeometry { left: 100, top: 50, width: 400, height: 300, scale_factor: 1 };

#[test]
fn inset_is_five_pixels() {
    assert_eq!(BORDERLESS_RESIZE_INSET, 5);
}

#[test]
fn sides_are_hit() {
    assert_eq!(hit_test(&WINDOW, 104, 200), WindowEdge::West);
    assert_eq!(hit_test(&WINDOW, 495, 200), WindowEdge::East);
    assert_eq!(hit_test(&WINDOW, 300, 54), WindowEdge::North);
    assert_eq!(hit_test(&WINDOW, 300, 345), WindowEdge::South);
}

#[test]
fn corners_are_hit() {
    assert_eq!(hit_test(&WINDOW, 100, 50), WindowEdge::NorthWest);
    assert_eq!(hit_test(&WINDOW, 499, 50), WindowEdge::NorthEast);
    assert_eq!(hit_test(&WINDOW, 100, 349), WindowEdge::SouthWest);
    assert_eq!(hit_test(&WINDOW, 499, 349), WindowEdge::SouthEast);
}

#[test]
fn points_outside_count_as_near() {
    assert_eq!(hit_test(&WINDOW, -1000, 200), WindowEdge::West);
    assert_eq!(hit_test(&WINDOW, 5000, 5000), WindowEdge::SouthEast);
}

#[test]
fn inner_limits_of_the_strips() {
    assert_eq!(hit_test(&WINDOW, 105, 200), WindowEdge::Unknown(8));
    assert_eq!(hit_test(&WINDOW, 494, 200), WindowEdge::Unknown(8));
    assert_eq!(hit_test(&WINDOW, 300, 55), WindowEdge::Unknown(8));
    assert_eq!(hit_test(&WINDOW, 300, 344), WindowEdge::Unknown(8));
}

#[test]
fn strips_grow_with_the_scale_factor() {
    let window = WindowGeometry { scale_factor: 2, ..WINDOW };
    assert_eq!(hit_test(&window, 109, 200), WindowEdge::West);
    assert_eq!(hit_test(&window, 110, 200), WindowEdge::Unknown(8));
    assert_eq!(hit_test(&window, 490, 200), WindowEdge::East);
}

#[test]
fn opposite_edges_cancel_out() {
    let narrow = WindowGeometry { width: 8, ..WINDOW };
    assert_eq!(hit_test(&narrow, 104, 200), WindowEdge::Unknown(8));
    assert_eq!(hit_test(&narrow, 104, 50), WindowEdge::Unknown(8));
    assert_eq!(hit_test(&narrow, 102, 200), WindowEdge::West);
    let flat = WindowGeometry { height: 8, ..WINDOW };
    assert_eq!(hit_test(&flat, 100, 54), WindowEdge::Unknown(8));
}

#[test]
fn mirrored_points_hit_mirrored_edges() {
    for cx in 90..110 {
        let mirror = 100 + 500 - 1 - cx;
        let left = hit_test(&WINDOW, cx, 200);
        let right = hit_test(&WINDOW, mirror, 200);
        match left {
            WindowEdge::West => assert_eq!(right, WindowEdge::East),
            _ => assert_eq!(right, WindowEdge::Unknown(8)),
        }
    }
}

#[test]
fn edge_moves_with_the_window() {
    let moved = WindowGeometry { left: 60, top: 80, ..WINDOW };
    for (cx, cy) in [(100, 50), (104, 200), (300, 54), (300, 200), (499, 349)] {
        assert_eq!(hit_test(&moved, cx - 40, cy + 30), hit_test(&WINDOW, cx, cy));
    }
}

#[test]
fn geometry_that_does_not_fit() {
    assert!(WINDOW.fits());
    assert!(!WindowGeometry { left: i32::MAX - 10, ..WINDOW }.fits());
    assert!(!WindowGeometry { scale_factor: i32::MAX, ..WINDOW }.fits());
    assert!(!WindowGeometry { left: i32::MAX - 2, width: 0, ..WINDOW }.fits());
    assert!(!WindowGeometry { top: i32::MIN, height: 2, ..WINDOW }.fits());
    assert!(WindowGeometry { top: i32::MIN, height: 5, ..WINDOW }.fits());
}
