//! From logical to physical pixels.

use vstd::prelude::*;

verus! {

/// A position in physical pixels.
#[derive(Debug, Clone, Copy, PartialEq, Eq)]
pub struct PhysicalPosition {
    pub x: i32,
    pub y: i32,
}

/// A size in physical pixels.
#[derive(Debug, Clone, Copy, PartialEq, Eq)]
pub struct PhysicalSize {
    pub width: u32,
    pub height: u32,
}

/// A position in logical pixels.
#[derive(Debug, Clone, Copy, PartialEq, Eq)]
pub struct LogicalPosition {
    pub x: i32,
    pub y: i32,
}

/// A pointer position in physical pixels, of any magnitude that scaling can give.
#[derive(Debug, Clone, Copy, PartialEq, Eq)]
pub struct PointerPosition {
    pub x: i64,
    pub y: i64,
}

/// The number nearest to `n` that lies between `low` and `high`.
pub open spec fn clamped(n: int, low: int, high: int) -> int {
    if n < low {
        low
    } else if n > high {
        high
    } else {
        n
    }
}

/// The physical position of a logical one: multiplied by the scale factor, and
/// held at the ends of the `i32` range.
pub open spec fn scaled_position(x: int, y: int, scale_factor: int) -> PhysicalPosition {
    PhysicalPosition {
        x: clamped(x * scale_factor, i32::MIN as int, i32::MAX as int) as i32,
        y: clamped(y * scale_factor, i32::MIN as int, i32::MAX as int) as i32,
    }
}

/// The physical size of a logical one: multiplied by the scale factor, and held
/// at the ends of the `u32` range.
pub open spec fn scaled_size(width: int, height: int, scale_factor: int) -> PhysicalSize {
    PhysicalSize {
        width: clamped(width * scale_factor, 0, u32::MAX as int) as u32,
        height: clamped(height * scale_factor, 0, u32::MAX as int) as u32,
    }
}

/// Converts a position to physical pixels with
/// `dpi::LogicalPosition::<i32>::to_physical::<i32>`.
///
/// It multiplies each coordinate by the scale factor in double precision, rounds
/// and converts with saturation. A product within the `i32` range is far below
/// the 53 bits that a double holds exactly, so it comes out unchanged, and one
/// outside the range stays outside and saturates. The function panics unless the
/// scale factor is positive.
#[verifier::external_body]
pub(crate) fn physical_position(x: i32, y: i32, scale_factor: i32) -> (position: PhysicalPosition)
    requires
        scale_factor > 0,
    ensures
        position == scaled_position(x as int, y as int, scale_factor as int),
{
    let position: dpi::PhysicalPosition<i32> =
        dpi::LogicalPosition::<i32>::new(x, y).to_physical(scale_factor.into());
    PhysicalPosition { x: position.x, y: position.y }
}

/// Converts a size to physical pixels with
/// `dpi::LogicalSize::<u32>::to_physical::<u32>`.
///
/// It multiplies each extent by the scale factor in double precision, rounds and
/// converts with saturation. A product within the `u32` range is far below the 53
/// bits that a double holds exactly, so it comes out unchanged, and a larger one
/// stays outside the range and saturates. The function panics unless the scale
/// factor is positive.
#[verifier::external_body]
pub(crate) fn physical_size(width: u32, height: u32, scale_factor: i32) -> (size: PhysicalSize)
    requires
        scale_factor > 0,
    ensures
        size == scaled_size(width as int, height as int, scale_factor as int),
{
    let size: dpi::PhysicalSize<u32> =
        dpi::LogicalSize::<u32>::new(width, height).to_physical(scale_factor.into());
    PhysicalSize { width: size.width, height: size.height }
}

/// Converts a window size that was given as signed numbers to physical pixels.
/// Negative extents come out as zero.
pub fn physical_size_from_signed(width: i32, height: i32, scale_factor: i32) -> (size: PhysicalSize)
    requires
        scale_factor > 0,
    ensures
        size == scaled_size(width as int, height as int, scale_factor as int),
{
    let positive_width: u32 = if width > 0 { width as u32 } else { 0 };
    let positive_height: u32 = if height > 0 { height as u32 } else { 0 };
    proof {
        assert(width <= 0 ==> width * scale_factor <= 0) by (nonlinear_arith)
            requires
                scale_factor > 0,
        ;
        assert(height <= 0 ==> height * scale_factor <= 0) by (nonlinear_arith)
            requires
                scale_factor > 0,
        ;
    }
    physical_size(positive_width, positive_height, scale_factor)
}

/// The physical position of a pointer: the logical one multiplied by the scale
/// factor, exactly.
pub open spec fn scaled_pointer(position: LogicalPosition, scale_factor: int) -> PointerPosition {
    PointerPosition {
        x: (position.x * scale_factor) as i64,
        y: (position.y * scale_factor) as i64,
    }
}

/// Converts the position of a pointer to physical pixels.
pub fn physical_pointer(position: LogicalPosition, scale_factor: i32) -> (pointer: PointerPosition)
    ensures
        pointer.x == position.x * scale_factor,
        pointer.y == position.y * scale_factor,
        pointer == scaled_pointer(position, scale_factor as int),
{
    proof {
        lemma_product_fits(position.x, scale_factor);
        lemma_product_fits(position.y, scale_factor);
        law_pointers_scale_exactly(position, scale_factor);
    }
    PointerPosition {
        x: position.x as i64 * scale_factor as i64,
        y: position.y as i64 * scale_factor as i64,
    }
}

/// The product of two 32-bit numbers is a 64-bit number.
proof fn lemma_product_fits(a: i32, b: i32)
    ensures
        i64::MIN <= a * b <= i64::MAX,
{
    assert(-0x4000_0000_0000_0000 <= a * b <= 0x4000_0000_0000_0000) by (nonlinear_arith)
        requires
            -0x8000_0000 <= a <= 0x7fff_ffff,
            -0x8000_0000 <= b <= 0x7fff_ffff,
    ;
}

/// No pointer position is lost or rounded by scaling.
pub proof fn law_pointers_scale_exactly(position: LogicalPosition, scale_factor: i32)
    ensures
        scaled_pointer(position, scale_factor as int).x == position.x * scale_factor,
        scaled_pointer(position, scale_factor as int).y == position.y * scale_factor,
{
    lemma_product_fits(position.x, scale_factor);
    lemma_product_fits(position.y, scale_factor);
}

/// Where a pointer is in the range of window positions, it is scaled as they are.
pub proof fn law_pointers_scale_like_windows(position: LogicalPosition, scale_factor: i32)
    requires
        i32::MIN <= position.x * scale_factor <= i32::MAX,
        i32::MIN <= position.y * scale_factor <= i32::MAX,
    ensures
        scaled_pointer(position, scale_factor as int).x == scaled_position(
            position.x as int,
            position.y as int,
            scale_factor as int,
        ).x,
        scaled_pointer(position, scale_factor as int).y == scaled_position(
            position.x as int,
            position.y as int,
            scale_factor as int,
        ).y,
{
}

/// At scale factor 1 a logical pixel is a physical one.
pub proof fn law_unit_scale_changes_nothing(x: i32, y: i32, width: u32, height: u32)
    ensures
        scaled_position(x as int, y as int, 1) == (PhysicalPosition { x, y }),
        scaled_size(width as int, height as int, 1) == (PhysicalSize { width, height }),
{
}

/// Scaling keeps the order of positions and of sizes.
pub proof fn law_scaling_keeps_order(a: int, b: int, scale_factor: int)
    requires
        a <= b,
        scale_factor > 0,
    ensures
        scaled_position(a, a, scale_factor).x <= scaled_position(b, b, scale_factor).x,
        scaled_position(a, a, scale_factor).y <= scaled_position(b, b, scale_factor).y,
        scaled_size(a, a, scale_factor).width <= scaled_size(b, b, scale_factor).width,
        scaled_size(a, a, scale_factor).height <= scaled_size(b, b, scale_factor).height,
{
    assert(a * scale_factor <= b * scale_factor) by (nonlinear_arith)
        requires
            a <= b,
            scale_factor > 0,
    ;
}

/// Scaling never brings a position closer to the origin: a physical coordinate
/// has the sign of the logical one and at least its magnitude.
pub proof fn law_scaling_never_shrinks(x: i32, scale_factor: int)
    requires
        scale_factor > 0,
    ensures
        x >= 0 ==> scaled_position(x as int, x as int, scale_factor).x >= x,
        x <= 0 ==> scaled_position(x as int, x as int, scale_factor).x <= x,
{
    assert(x >= 0 ==> x * scale_factor >= x) by (nonlinear_arith)
        requires
            scale_factor > 0,
    ;
    assert(x <= 0 ==> x * scale_factor <= x) by (nonlinear_arith)
        requires
            scale_factor > 0,
    ;
}

} // verus!
