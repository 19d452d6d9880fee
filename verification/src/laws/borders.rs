//! Laws of hit testing, and of resizing by the borders.

use vstd::prelude::*;

use crate::geometry::{hit_test, WindowEdge, WindowGeometry};
use crate::pointer::{cursor_name, resize_cursor, touch_resize, ResizeDrag, WindowFrame};
use crate::signals::{on_motion_for_resize, on_touch, Propagation};

verus! {

/// In a window at least two insets wide and high, the resize border meets in four
/// squares, an inset wide and an inset high. Every pixel of a square is the corner.
pub proof fn law_corners_are_squares(window: WindowGeometry, cx: i32, cy: i32, edge: WindowEdge)
    requires
        call_ensures(hit_test, (&window, cx, cy), edge),
        window.width >= 2 * (5 * window.scale_factor),
        window.height >= 2 * (5 * window.scale_factor),
    ensures
        0 <= cx - window.left < 5 * window.scale_factor && 0 <= cy - window.top < 5
            * window.scale_factor ==> edge is NorthWest,
        0 < window.left + window.width - cx <= 5 * window.scale_factor && 0 <= cy - window.top < 5
            * window.scale_factor ==> edge is NorthEast,
        0 <= cx - window.left < 5 * window.scale_factor && 0 < window.top + window.height - cy <= 5
            * window.scale_factor ==> edge is SouthWest,
        0 < window.left + window.width - cx <= 5 * window.scale_factor && 0 < window.top
            + window.height - cy <= 5 * window.scale_factor ==> edge is SouthEast,
{
}

/// Between the corners the resize border is a strip along each side, an inset wide,
/// and what it surrounds is no edge.
pub proof fn law_sides_are_strips(window: WindowGeometry, cx: i32, cy: i32, edge: WindowEdge)
    requires
        call_ensures(hit_test, (&window, cx, cy), edge),
        window.width >= 2 * (5 * window.scale_factor),
        window.height >= 2 * (5 * window.scale_factor),
    ensures
        5 * window.scale_factor <= cx - window.left < window.width - 5 * window.scale_factor ==> {
            &&& 0 <= cy - window.top < 5 * window.scale_factor ==> edge is North
            &&& 0 < window.top + window.height - cy <= 5 * window.scale_factor ==> edge is South
            &&& 5 * window.scale_factor <= cy - window.top < window.height - 5
                * window.scale_factor ==> edge is Unknown
        },
        5 * window.scale_factor <= cy - window.top < window.height - 5 * window.scale_factor ==> {
            &&& 0 <= cx - window.left < 5 * window.scale_factor ==> edge is West
            &&& 0 < window.left + window.width - cx <= 5 * window.scale_factor ==> edge is East
        },
{
}

/// Each edge is hit at the points that are less than an inset inside of its own
/// borders, or beyond them, and of no other, whatever the size of the window. All
/// other points are no edge, which has the number 8.
pub proof fn law_edges_are_hit_by_their_borders_alone(
    window: WindowGeometry,
    cx: i32,
    cy: i32,
    edge: WindowEdge,
)
    requires
        call_ensures(hit_test, (&window, cx, cy), edge),
    ensures
        ({
            let west = cx - window.left < 5 * window.scale_factor;
            let east = window.left + window.width - cx <= 5 * window.scale_factor;
            let north = cy - window.top < 5 * window.scale_factor;
            let south = window.top + window.height - cy <= 5 * window.scale_factor;
            &&& edge is NorthWest <==> north && west && !south && !east
            &&& edge is North <==> north && !west && !south && !east
            &&& edge is NorthEast <==> north && east && !south && !west
            &&& edge is West <==> west && !north && !south && !east
            &&& edge is East <==> east && !north && !south && !west
            &&& edge is SouthWest <==> south && west && !north && !east
            &&& edge is South <==> south && !west && !north && !east
            &&& edge is SouthEast <==> south && east && !north && !west
            &&& edge matches WindowEdge::Unknown(code) ==> code == 8
        }),
{
}

/// A point on a side stays on it when it goes further out, and one on two sides
/// stays on both.
pub proof fn law_going_out_keeps_the_edge(
    window: WindowGeometry,
    cx: i32,
    cy: i32,
    edge: WindowEdge,
    far_x: i32,
    far_y: i32,
    far_edge: WindowEdge,
)
    requires
        call_ensures(hit_test, (&window, cx, cy), edge),
        call_ensures(hit_test, (&window, far_x, far_y), far_edge),
        edge is West || edge is NorthWest || edge is SouthWest ==> far_x <= cx,
        edge is East || edge is NorthEast || edge is SouthEast ==> far_x >= cx,
        edge is North || edge is NorthWest || edge is NorthEast ==> far_y <= cy,
        edge is South || edge is SouthWest || edge is SouthEast ==> far_y >= cy,
        edge is North || edge is South ==> far_x == cx,
        edge is West || edge is East ==> far_y == cy,
        edge !is Unknown,
    ensures
        far_edge == edge,
{
}

/// A hit test is possible wherever the borders of the window, and the inner limits
/// of the resize border, are 32-bit coordinates. `fits` tells where that is.
pub proof fn law_windows_that_fit_can_be_tested(
    window: WindowGeometry,
    fits: bool,
    cx: i32,
    cy: i32,
)
    requires
        call_ensures(WindowGeometry::fits, (&window,), fits),
    ensures
        fits <==> {
            let inset = 5 * window.scale_factor;
            let right = window.left + window.width;
            let bottom = window.top + window.height;
            &&& -0x8000_0000 <= inset <= 0x7fff_ffff
            &&& -0x8000_0000 <= right <= 0x7fff_ffff
            &&& -0x8000_0000 <= bottom <= 0x7fff_ffff
            &&& -0x8000_0000 <= window.left + inset <= 0x7fff_ffff
            &&& -0x8000_0000 <= right - inset <= 0x7fff_ffff
            &&& -0x8000_0000 <= window.top + inset <= 0x7fff_ffff
            &&& -0x8000_0000 <= bottom - inset <= 0x7fff_ffff
        },
        fits ==> call_requires(hit_test, (&window, cx, cy)),
{
}

/// Each edge has the pointer shape that is named after its side of the sky.
pub proof fn law_shapes_are_named_after_their_edges(edge: WindowEdge, name: &'static str)
    requires
        call_ensures(cursor_name, (edge,), name),
    ensures
        edge is North ==> name@ == "n-resize"@,
        edge is South ==> name@ == "s-resize"@,
        edge is East ==> name@ == "e-resize"@,
        edge is West ==> name@ == "w-resize"@,
        edge is NorthWest ==> name@ == "nw-resize"@,
        edge is NorthEast ==> name@ == "ne-resize"@,
        edge is SouthWest ==> name@ == "sw-resize"@,
        edge is SouthEast ==> name@ == "se-resize"@,
        edge is Unknown ==> name@ == "default"@,
{
}

/// The shape of a corner is called by the letter of its upper or lower side and the
/// name of the other.
pub proof fn law_shapes_of_corners_join_two_sides(
    north: &'static str,
    south: &'static str,
    west: &'static str,
    east: &'static str,
    north_west: &'static str,
    north_east: &'static str,
    south_west: &'static str,
    south_east: &'static str,
)
    requires
        call_ensures(cursor_name, (WindowEdge::North,), north),
        call_ensures(cursor_name, (WindowEdge::South,), south),
        call_ensures(cursor_name, (WindowEdge::West,), west),
        call_ensures(cursor_name, (WindowEdge::East,), east),
        call_ensures(cursor_name, (WindowEdge::NorthWest,), north_west),
        call_ensures(cursor_name, (WindowEdge::NorthEast,), north_east),
        call_ensures(cursor_name, (WindowEdge::SouthWest,), south_west),
        call_ensures(cursor_name, (WindowEdge::SouthEast,), south_east),
    ensures
        north_west@ == seq![north@[0]] + west@,
        north_east@ == seq![north@[0]] + east@,
        south_west@ == seq![south@[0]] + west@,
        south_east@ == seq![south@[0]] + east@,
{
    reveal_strlit("n-resize");
    reveal_strlit("s-resize");
    reveal_strlit("e-resize");
    reveal_strlit("w-resize");
    reveal_strlit("nw-resize");
    reveal_strlit("ne-resize");
    reveal_strlit("se-resize");
    reveal_strlit("sw-resize");
}

/// A movement of the pointer settles its shape exactly over the shown windows that
/// are not decorated, may be resized and are not maximized. The shape is that of
/// the edge under the pointer, and the movement always goes on.
pub proof fn law_shape_is_that_of_the_edge_under_the_pointer(
    frame: WindowFrame,
    surface: Option<WindowGeometry>,
    cx: i32,
    cy: i32,
    name: Option<&'static str>,
    reaction: (Option<&'static str>, Propagation),
    edge: WindowEdge,
    shape: &'static str,
)
    requires
        call_ensures(resize_cursor, (frame, surface, cx, cy), name),
        call_ensures(on_motion_for_resize, (frame, surface, cx, cy), reaction),
        surface is Some ==> call_ensures(hit_test, (&surface->0, cx, cy), edge),
        call_ensures(cursor_name, (edge,), shape),
    ensures
        name is Some <==> !frame.decorated && frame.resizable && !frame.maximized
            && surface is Some,
        name is Some ==> name->0@ == shape@,
        reaction.0 is Some <==> !frame.decorated && frame.resizable && !frame.maximized
            && surface is Some,
        reaction.0 is Some ==> reaction.0->0@ == shape@,
        reaction.1 is Proceed,
{
}

/// A touch resizes a window exactly if the window is shown, is not decorated and may
/// be resized, the place and the device of the touch are known, and there is an edge
/// at the place. The resize is by that edge, and keeps the place and the time of the
/// touch. The touch always goes on.
pub proof fn law_touch_resizes_by_the_edge_under_it(
    frame: WindowFrame,
    surface: Option<WindowGeometry>,
    coords: Option<(i32, i32)>,
    has_device: bool,
    time: u32,
    drag: Option<ResizeDrag>,
    reaction: (Option<ResizeDrag>, Propagation),
    edge: WindowEdge,
)
    requires
        call_ensures(touch_resize, (frame, surface, coords, has_device, time), drag),
        call_ensures(on_touch, (frame, surface, coords, has_device, time), reaction),
        surface is Some && coords is Some ==> call_ensures(
            hit_test,
            (&surface->0, (coords->0).0, (coords->0).1),
            edge,
        ),
    ensures
        drag is Some <==> !frame.decorated && frame.resizable && has_device && surface is Some
            && coords is Some && edge !is Unknown,
        drag is Some ==> {
            &&& drag->0.edge == edge
            &&& drag->0.button == 0
            &&& drag->0.x == (coords->0).0
            &&& drag->0.y == (coords->0).1
            &&& drag->0.time == time
        },
        reaction.0 == drag,
        reaction.1 is Proceed,
{
}

/// Resizing can be decided on wherever the window fits.
pub proof fn law_resizing_can_be_decided_on(
    frame: WindowFrame,
    window: WindowGeometry,
    cx: i32,
    cy: i32,
    has_device: bool,
    time: u32,
)
    requires
        call_ensures(WindowGeometry::fits, (&window,), true),
    ensures
        call_requires(resize_cursor, (frame, Some(window), cx, cy)),
        call_requires(on_motion_for_resize, (frame, Some(window), cx, cy)),
        call_requires(touch_resize, (frame, Some(window), Some((cx, cy)), has_device, time)),
        call_requires(on_touch, (frame, Some(window), Some((cx, cy)), has_device, time)),
        call_requires(resize_cursor, (frame, None::<WindowGeometry>, cx, cy)),
        call_requires(on_motion_for_resize, (frame, None::<WindowGeometry>, cx, cy)),
        call_requires(
            touch_resize,
            (frame, None::<WindowGeometry>, Some((cx, cy)), has_device, time),
        ),
        call_requires(on_touch, (frame, None::<WindowGeometry>, Some((cx, cy)), has_device, time)),
{
}

} // verus!
