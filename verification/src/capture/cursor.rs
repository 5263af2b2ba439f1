//! Where to draw the cursor.
use crate::types::geometry::{as_signed, to_signed};
use crate::types::Point;
use vstd::prelude::*;

verus! {

/// The flag of a texture that can be drawn onto.
pub const RESOURCE_MISC_GDI_COMPATIBLE: u32 = 0x200;

/// The flag of a cursor that can be seen.
pub const CURSOR_SHOWING: u32 = 1;

/// Whether all bits of a mask are set.
pub open spec fn has_bits(flags: u32, mask: u32) -> bool {
    flags & mask == mask
}

/// Whether the cursor can be drawn onto a texture with these flags.
pub fn is_gdi_compatible(misc_flags: u32) -> (r: bool)
    ensures
        r == has_bits(misc_flags, 0x200),
{
    misc_flags & RESOURCE_MISC_GDI_COMPATIBLE == RESOURCE_MISC_GDI_COMPATIBLE
}

/// What is known of the cursor.
#[derive(Debug, Clone, Copy, PartialEq, Eq, Structural)]
pub struct CursorInfo {
    /// The flags that tell whether it can be seen.
    pub flags: u32,
    /// The point on the desktop that it points at.
    pub position: Point,
}

/// Whether there is a cursor to draw.
pub fn is_cursor_visible(cursor: Option<CursorInfo>) -> (r: bool)
    ensures
        r == (cursor matches Some(c) && has_bits(c.flags, 1)),
{
    match cursor {
        Some(c) => c.flags & CURSOR_SHOWING == CURSOR_SHOWING,
        None => false,
    }
}

/// Where the picture of the cursor goes: its hot spot, counted from the corner
/// of the picture, comes to lie on the point that the cursor points at.
pub fn cursor_origin(position: Point, hotspot_x: u32, hotspot_y: u32) -> (r: Point)
    requires
        i32::MIN <= position.x - as_signed(hotspot_x) <= i32::MAX,
        i32::MIN <= position.y - as_signed(hotspot_y) <= i32::MAX,
    ensures
        r.x == position.x - as_signed(hotspot_x),
        r.y == position.y - as_signed(hotspot_y),
{
    Point { x: position.x - to_signed(hotspot_x), y: position.y - to_signed(hotspot_y) }
}

/// The flags tell by one bit each whether a texture can be drawn onto, and whether
/// the cursor can be seen.
pub proof fn flags_are_single_bits(flags: u32)
    ensures
        has_bits(flags, 0x200) <==> flags / 512 % 2 == 1,
        has_bits(flags, 1) <==> flags % 2 == 1,
{
    assert(flags & 0x200 == 0x200 <==> flags / 512 % 2 == 1) by (bit_vector);
    assert(flags & 1 == 1 <==> flags % 2 == 1) by (bit_vector);
}

} // verus!
