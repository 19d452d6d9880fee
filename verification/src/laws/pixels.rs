//! Laws of scaling.

use vstd::prelude::*;

use crate::scale::{
    physical_pointer, physical_size_from_signed, LogicalPosition, PhysicalSize, PointerPosition,
};

verus! {

/// A product with a positive factor has the sign of the other factor.
pub(crate) proof fn lemma_positive_factor_keeps_sign(n: int, scale_factor: int)
    requires
        scale_factor > 0,
    ensures
        n <= 0 ==> n * scale_factor <= 0,
        n > 0 ==> n * scale_factor >= n,
{
    assert(n <= 0 ==> n * scale_factor <= 0) by (nonlinear_arith)
        requires
            scale_factor > 0,
    ;
    assert(n > 0 ==> n * scale_factor >= n) by (nonlinear_arith)
        requires
            scale_factor > 0,
    ;
}

/// An extent comes out multiplied by the scale factor where the product is a 32-bit
/// number, as the largest such number where it is larger, and as zero where the
/// extent is negative. Width and height go by the same rule.
pub proof fn law_signed_sizes_scale_and_saturate(
    width: i32,
    height: i32,
    scale_factor: i32,
    size: PhysicalSize,
)
    requires
        scale_factor > 0,
        call_ensures(physical_size_from_signed, (width, height, scale_factor), size),
    ensures
        width <= 0 ==> size.width == 0,
        width > 0 && width * scale_factor <= 0xffff_ffff ==> size.width == width * scale_factor,
        width * scale_factor > 0xffff_ffff ==> size.width == 0xffff_ffff,
        height <= 0 ==> size.height == 0,
        height > 0 && height * scale_factor <= 0xffff_ffff ==> size.height == height
            * scale_factor,
        height * scale_factor > 0xffff_ffff ==> size.height == 0xffff_ffff,
{
    lemma_positive_factor_keeps_sign(width as int, scale_factor as int);
    lemma_positive_factor_keeps_sign(height as int, scale_factor as int);
}

/// Every size and every positive scale factor can be scaled.
pub proof fn law_any_size_can_be_scaled(width: i32, height: i32, scale_factor: i32)
    requires
        scale_factor > 0,
    ensures
        call_requires(physical_size_from_signed, (width, height, scale_factor)),
{
}

/// A pointer comes out at the exact product of its position and the scale factor,
/// whatever the two are.
pub proof fn law_pointers_come_out_at_the_product(
    position: LogicalPosition,
    scale_factor: i32,
    pointer: PointerPosition,
)
    requires
        call_ensures(physical_pointer, (position, scale_factor), pointer),
    ensures
        pointer.x == position.x * scale_factor,
        pointer.y == position.y * scale_factor,
{
}

/// Two pointers are as far apart in physical pixels as in logical ones, times the
/// scale factor.
pub proof fn law_distances_of_pointers_scale(
    from: LogicalPosition,
    to: LogicalPosition,
    scale_factor: i32,
    physical_from: PointerPosition,
    physical_to: PointerPosition,
)
    requires
        call_ensures(physical_pointer, (from, scale_factor), physical_from),
        call_ensures(physical_pointer, (to, scale_factor), physical_to),
    ensures
        physical_to.x - physical_from.x == (to.x - from.x) * scale_factor,
        physical_to.y - physical_from.y == (to.y - from.y) * scale_factor,
{
    assert((to.x - from.x) * scale_factor == to.x * scale_factor - from.x * scale_factor)
        by (nonlinear_arith);
    assert((to.y - from.y) * scale_factor == to.y * scale_factor - from.y * scale_factor)
        by (nonlinear_arith);
}

} // verus!
