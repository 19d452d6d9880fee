//! Resizing undecorated windows with the pointer or by touch.

use vstd::prelude::*;

use crate::geometry::{hit_test, WindowEdge, WindowGeometry};

verus! {

/// How a window is framed.
#[derive(Debug, Clone, Copy, PartialEq, Eq)]
pub struct WindowFrame {
    pub decorated: bool,
    pub resizable: bool,
    pub maximized: bool,
}

impl WindowFrame {
    /// The window has no border of the window manager by which it could be
    /// resized, but may be resized.
    pub open spec fn resizes_itself(self) -> bool {
        !self.decorated && self.resizable
    }
}

/// Name of the pointer shape that announces a resize at the edge.
pub open spec fn cursor_for(edge: WindowEdge) -> Seq<char> {
    match edge {
        WindowEdge::North => "n-resize"@,
        WindowEdge::South => "s-resize"@,
        WindowEdge::East => "e-resize"@,
        WindowEdge::West => "w-resize"@,
        WindowEdge::NorthWest => "nw-resize"@,
        WindowEdge::NorthEast => "ne-resize"@,
        WindowEdge::SouthEast => "se-resize"@,
        WindowEdge::SouthWest => "sw-resize"@,
        WindowEdge::Unknown(_) => "default"@,
    }
}

/// Names the pointer shape that announces a resize at the edge.
pub fn cursor_name(edge: WindowEdge) -> (name: &'static str)
    ensures
        name@ == cursor_for(edge),
{
    match edge {
        WindowEdge::North => "n-resize",
        WindowEdge::South => "s-resize",
        WindowEdge::East => "e-resize",
        WindowEdge::West => "w-resize",
        WindowEdge::NorthWest => "nw-resize",
        WindowEdge::NorthEast => "ne-resize",
        WindowEdge::SouthEast => "se-resize",
        WindowEdge::SouthWest => "sw-resize",
        WindowEdge::Unknown(_) => "default",
    }
}

/// The pointer shape that a movement to `(cx, cy)` calls for, if it calls for any.
pub open spec fn resize_cursor_for(
    frame: WindowFrame,
    surface: Option<WindowGeometry>,
    cx: int,
    cy: int,
) -> Option<Seq<char>> {
    match surface {
        Some(window) if frame.resizes_itself() && !frame.maximized => Some(
            cursor_for(window.edge_at(cx, cy)),
        ),
        _ => None,
    }
}

/// Decides on the pointer shape after a movement of the pointer to `(cx, cy)`.
///
/// `surface` is where the window is shown, if it is. The shape stays as it is
/// over decorated, fixed-size and maximized windows.
pub fn resize_cursor(
    frame: WindowFrame,
    surface: Option<WindowGeometry>,
    cx: i32,
    cy: i32,
) -> (name: Option<&'static str>)
    requires
        frame.resizes_itself() && !frame.maximized && surface is Some
            ==> surface->0.in_range(),
    ensures
        name is Some <==> resize_cursor_for(frame, surface, cx as int, cy as int) is Some,
        name matches Some(shape) ==> Some(shape@) == resize_cursor_for(
            frame,
            surface,
            cx as int,
            cy as int,
        ),
{
    if !frame.decorated && frame.resizable && !frame.maximized {
        match surface {
            Some(window) => Some(cursor_name(hit_test(&window, cx, cy))),
            None => None,
        }
    } else {
        None
    }
}

/// A resize that the window manager is asked to carry out.
#[derive(Debug, Clone, Copy, PartialEq, Eq)]
pub struct ResizeDrag {
    pub edge: WindowEdge,
    pub button: i32,
    pub x: i32,
    pub y: i32,
    pub time: u32,
}

/// The resize that a touch starts, if it starts any.
pub open spec fn touch_resize_for(
    frame: WindowFrame,
    surface: Option<WindowGeometry>,
    coords: Option<(i32, i32)>,
    has_device: bool,
    time: u32,
) -> Option<ResizeDrag> {
    if frame.resizes_itself() && has_device {
        match (surface, coords) {
            (Some(window), Some((x, y))) => {
                let edge = window.edge_at(x as int, y as int);
                if edge is Unknown {
                    None
                } else {
                    Some(ResizeDrag { edge, button: 0, x, y, time })
                }
            },
            _ => None,
        }
    } else {
        None
    }
}

/// Decides whether a touch starts a resize.
///
/// `coords` is where on the screen the touch is, and `has_device` whether the
/// device that made it is known. A touch off the edges is left to the window.
pub fn touch_resize(
    frame: WindowFrame,
    surface: Option<WindowGeometry>,
    coords: Option<(i32, i32)>,
    has_device: bool,
    time: u32,
) -> (drag: Option<ResizeDrag>)
    requires
        frame.resizes_itself() && has_device && surface is Some && coords is Some
            ==> surface->0.in_range(),
    ensures
        drag == touch_resize_for(frame, surface, coords, has_device, time),
{
    if !frame.decorated && frame.resizable {
        if let Some(window) = surface {
            if let Some((x, y)) = coords {
                if has_device {
                    let edge = hit_test(&window, x, y);
                    return match edge {
                        WindowEdge::Unknown(_) => None,
                        _ => Some(ResizeDrag { edge, button: 0, x, y, time }),
                    };
                }
            }
        }
    }
    None
}

/// Different edges have different pointer shapes.
pub proof fn law_shapes_are_distinct(a: WindowEdge, b: WindowEdge)
    requires
        cursor_for(a) == cursor_for(b),
    ensures
        a == b || (a is Unknown && b is Unknown),
{
    reveal_strlit("n-resize");
    reveal_strlit("s-resize");
    reveal_strlit("e-resize");
    reveal_strlit("w-resize");
    reveal_strlit("nw-resize");
    reveal_strlit("ne-resize");
    reveal_strlit("se-resize");
    reveal_strlit("sw-resize");
    reveal_strlit("default");
    let shape = cursor_for(a);
    assert(shape[0] == cursor_for(b)[0] && shape[1] == cursor_for(b)[1]);
}

/// Where the pointer shape announces a resize, a touch starts that very resize.
pub proof fn law_touch_keeps_what_the_shape_announces(
    frame: WindowFrame,
    window: WindowGeometry,
    x: i32,
    y: i32,
    time: u32,
)
    requires
        frame.resizes_itself(),
        !frame.maximized,
    ensures
        ({
            let shape = resize_cursor_for(frame, Some(window), x as int, y as int);
            let drag = touch_resize_for(frame, Some(window), Some((x, y)), true, time);
            &&& drag is Some <==> shape != Some("default"@)
            &&& drag is Some ==> shape == Some(cursor_for(drag->0.edge))
        }),
{
    let edge = window.edge_at(x as int, y as int);
    if cursor_for(edge) == "default"@ {
        law_shapes_are_distinct(edge, WindowEdge::Unknown(8));
    }
}

/// A decorated or fixed-size window is never resized from within.
pub proof fn law_framed_windows_are_left_alone(
    frame: WindowFrame,
    surface: Option<WindowGeometry>,
    coords: Option<(i32, i32)>,
    x: i32,
    y: i32,
    has_device: bool,
    time: u32,
)
    requires
        frame.decorated || !frame.resizable,
    ensures
        resize_cursor_for(frame, surface, x as int, y as int) is None,
        touch_resize_for(frame, surface, coords, has_device, time) is None,
{
}

} // verus!
