//! Hit testing on the borders of undecorated windows.

use vstd::prelude::*;

verus! {

/// Width of the resize border of an undecorated window, in unscaled pixels.
pub const BORDERLESS_RESIZE_INSET: i32 = 5;

const LEFT: i32 = 0b0001;

const RIGHT: i32 = 0b0010;

const TOP: i32 = 0b0100;

const BOTTOM: i32 = 0b1000;

const TOPLEFT: i32 = 0b0101;

const TOPRIGHT: i32 = 0b0110;

const BOTTOMLEFT: i32 = 0b1001;

const BOTTOMRIGHT: i32 = 0b1010;

/// The edge of a window by which it can be resized.
#[derive(Debug, Clone, Copy, PartialEq, Eq)]
pub enum WindowEdge {
    NorthWest,
    North,
    NorthEast,
    West,
    East,
    SouthWest,
    South,
    SouthEast,
    /// No edge. The number keeps the value apart from the numbered edges.
    Unknown(i32),
}

impl WindowEdge {
    /// The number by which the toolkit knows the edge.
    pub open spec fn code(self) -> int {
        match self {
            WindowEdge::NorthWest => 0,
            WindowEdge::North => 1,
            WindowEdge::NorthEast => 2,
            WindowEdge::West => 3,
            WindowEdge::East => 4,
            WindowEdge::SouthWest => 5,
            WindowEdge::South => 6,
            WindowEdge::SouthEast => 7,
            WindowEdge::Unknown(code) => code as int,
        }
    }
}

/// Place and size of a window on the screen, with its scale factor.
#[derive(Debug, Clone, Copy, PartialEq, Eq)]
pub struct WindowGeometry {
    pub left: i32,
    pub top: i32,
    pub width: i32,
    pub height: i32,
    pub scale_factor: i32,
}

pub open spec fn is_i32(n: int) -> bool {
    i32::MIN <= n <= i32::MAX
}

impl WindowGeometry {
    /// Width of the resize border in scaled pixels.
    pub open spec fn inset(self) -> int {
        BORDERLESS_RESIZE_INSET * self.scale_factor
    }

    /// The x coordinate just behind the right border.
    pub open spec fn right(self) -> int {
        self.left + self.width
    }

    /// The y coordinate just below the bottom border.
    pub open spec fn bottom(self) -> int {
        self.top + self.height
    }

    /// All four borders, and the inner limits of their resize strips, are `i32`
    /// coordinates.
    pub open spec fn in_range(self) -> bool {
        &&& is_i32(self.inset())
        &&& is_i32(self.right())
        &&& is_i32(self.bottom())
        &&& is_i32(self.left + self.inset())
        &&& is_i32(self.right() - self.inset())
        &&& is_i32(self.top + self.inset())
        &&& is_i32(self.bottom() - self.inset())
    }

    pub open spec fn near_left(self, cx: int) -> bool {
        cx < self.left + self.inset()
    }

    pub open spec fn near_right(self, cx: int) -> bool {
        cx >= self.right() - self.inset()
    }

    pub open spec fn near_top(self, cy: int) -> bool {
        cy < self.top + self.inset()
    }

    pub open spec fn near_bottom(self, cy: int) -> bool {
        cy >= self.bottom() - self.inset()
    }

    /// The edge under the point: named by the one or two borders it is near, and
    /// no edge where it is near none or near two opposite ones.
    pub open spec fn edge_at(self, cx: int, cy: int) -> WindowEdge {
        let left = self.near_left(cx);
        let right = self.near_right(cx);
        let top = self.near_top(cy);
        let bottom = self.near_bottom(cy);
        if (left && right) || (top && bottom) {
            WindowEdge::Unknown(8)
        } else if top {
            if left {
                WindowEdge::NorthWest
            } else if right {
                WindowEdge::NorthEast
            } else {
                WindowEdge::North
            }
        } else if bottom {
            if left {
                WindowEdge::SouthWest
            } else if right {
                WindowEdge::SouthEast
            } else {
                WindowEdge::South
            }
        } else if left {
            WindowEdge::West
        } else if right {
            WindowEdge::East
        } else {
            WindowEdge::Unknown(8)
        }
    }

    /// Tells whether every coordinate that a hit test computes fits.
    pub fn fits(&self) -> (result: bool)
        ensures
            result == self.in_range(),
    {
        let inset: i64 = BORDERLESS_RESIZE_INSET as i64 * self.scale_factor as i64;
        let right: i64 = self.left as i64 + self.width as i64;
        let bottom: i64 = self.top as i64 + self.height as i64;
        fits_i32(inset) && fits_i32(right) && fits_i32(bottom)
            && fits_i32(self.left as i64 + inset) && fits_i32(right - inset)
            && fits_i32(self.top as i64 + inset) && fits_i32(bottom - inset)
    }
}

fn fits_i32(n: i64) -> (result: bool)
    ensures
        result == is_i32(n as int),
{
    i32::MIN as i64 <= n && n <= i32::MAX as i64
}

/// Finds the edge of the window that the point `(cx, cy)` is on.
pub fn hit_test(window: &WindowGeometry, cx: i32, cy: i32) -> (edge: WindowEdge)
    requires
        window.in_range(),
    ensures
        edge == window.edge_at(cx as int, cy as int),
{
    let (left, top) = (window.left, window.top);
    let (right, bottom) = (left + window.width, top + window.height);
    let inset: i32 = BORDERLESS_RESIZE_INSET * window.scale_factor;
    let west: i32 = if cx < left + inset { LEFT } else { 0 };
    let east: i32 = if cx >= right - inset { RIGHT } else { 0 };
    let north: i32 = if cy < top + inset { TOP } else { 0 };
    let south: i32 = if cy >= bottom - inset { BOTTOM } else { 0 };
    let result: i32 = west | east | north | south;
    proof {
        lemma_flags(west, east, north, south);
    }
    if result == LEFT {
        WindowEdge::West
    } else if result == TOP {
        WindowEdge::North
    } else if result == RIGHT {
        WindowEdge::East
    } else if result == BOTTOM {
        WindowEdge::South
    } else if result == TOPLEFT {
        WindowEdge::NorthWest
    } else if result == TOPRIGHT {
        WindowEdge::NorthEast
    } else if result == BOTTOMLEFT {
        WindowEdge::SouthWest
    } else if result == BOTTOMRIGHT {
        WindowEdge::SouthEast
    } else {
        // Eight is behind the numbers of the eight named edges.
        WindowEdge::Unknown(8)
    }
}

/// A hit test off every edge gives number 8, and a hit on an edge gives a
/// smaller one: the two cannot be taken for each other.
pub proof fn law_no_edge_has_its_own_number(window: WindowGeometry, cx: int, cy: int)
    ensures
        window.edge_at(cx, cy) is Unknown <==> window.edge_at(cx, cy).code() == 8,
        window.edge_at(cx, cy) !is Unknown <==> 0 <= window.edge_at(cx, cy).code() < 8,
{
}

/// In a window at least two insets wide and high, the points on no edge are
/// those inside all four resize strips.
pub proof fn law_interior_is_no_edge(window: WindowGeometry, cx: int, cy: int)
    requires
        window.width >= 2 * window.inset(),
        window.height >= 2 * window.inset(),
    ensures
        window.edge_at(cx, cy) is Unknown <==> {
            &&& window.left + window.inset() <= cx < window.right() - window.inset()
            &&& window.top + window.inset() <= cy < window.bottom() - window.inset()
        },
{
}

/// Moving a window and the pointer by the same amount keeps the edge.
pub proof fn law_edge_moves_with_window(
    window: WindowGeometry,
    moved: WindowGeometry,
    cx: int,
    cy: int,
    dx: int,
    dy: int,
)
    requires
        moved.left == window.left + dx,
        moved.top == window.top + dy,
        moved.width == window.width,
        moved.height == window.height,
        moved.scale_factor == window.scale_factor,
    ensures
        moved.edge_at(cx + dx, cy + dy) == window.edge_at(cx, cy),
{
}

/// The edge on the other side, left and right exchanged.
pub open spec fn mirrored(edge: WindowEdge) -> WindowEdge {
    match edge {
        WindowEdge::NorthWest => WindowEdge::NorthEast,
        WindowEdge::NorthEast => WindowEdge::NorthWest,
        WindowEdge::West => WindowEdge::East,
        WindowEdge::East => WindowEdge::West,
        WindowEdge::SouthWest => WindowEdge::SouthEast,
        WindowEdge::SouthEast => WindowEdge::SouthWest,
        _ => edge,
    }
}

/// The edge on the other side, top and bottom exchanged.
pub open spec fn flipped(edge: WindowEdge) -> WindowEdge {
    match edge {
        WindowEdge::NorthWest => WindowEdge::SouthWest,
        WindowEdge::North => WindowEdge::South,
        WindowEdge::NorthEast => WindowEdge::SouthEast,
        WindowEdge::SouthWest => WindowEdge::NorthWest,
        WindowEdge::South => WindowEdge::North,
        WindowEdge::SouthEast => WindowEdge::NorthEast,
        _ => edge,
    }
}

/// All four sides have strips of the same width: the pixel that mirrors a point
/// in the window is on the mirrored edge.
pub proof fn law_strips_are_symmetric(window: WindowGeometry, cx: int, cy: int)
    ensures
        window.edge_at(window.left + window.right() - 1 - cx, cy) == mirrored(
            window.edge_at(cx, cy),
        ),
        window.edge_at(cx, window.top + window.bottom() - 1 - cy) == flipped(
            window.edge_at(cx, cy),
        ),
{
}

/// Joining flags that occupy different bits adds them up.
proof fn lemma_flags(west: i32, east: i32, north: i32, south: i32)
    by (bit_vector)
    requires
        west == 0 || west == 1,
        east == 0 || east == 2,
        north == 0 || north == 4,
        south == 0 || south == 8,
    ensures
        west | east | north | south == west + east + north + south,
{
}

} // verus!
