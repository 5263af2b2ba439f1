//! The resolution of monitors.
use crate::types::Rect;
use vstd::prelude::*;

verus! {

/// The width that is taken for granted where the monitor does not tell.
pub const DEFAULT_WIDTH: u32 = 1920;

/// The height that is taken for granted where the monitor does not tell.
pub const DEFAULT_HEIGHT: u32 = 1080;

/// The width and the height of a monitor, if they are known.
pub open spec fn resolution(monitor: Option<Rect>) -> Option<(int, int)> {
    match monitor {
        Some(rect) => Some(rect.dimensions()),
        None => None,
    }
}

/// The resolution of the primary monitor, from the rectangle that it covers;
/// 1920 by 1080 where that is not known.
pub fn get_primary_monitor_resolution(primary: Option<Rect>) -> (r: (u32, u32))
    requires
        primary matches Some(rect) ==> rect.extents_fit(),
    ensures
        (r.0 as int, r.1 as int) == match resolution(primary) {
            Some(size) => size,
            None => (1920, 1080),
        },
{
    match primary {
        Some(rect) => rect.size(),
        None => (DEFAULT_WIDTH, DEFAULT_HEIGHT),
    }
}

/// The resolution of the monitor that a window is on: that of the primary
/// monitor where it is not known, and 1920 by 1080 where neither is.
pub open spec fn window_resolution(monitor: Option<Rect>, primary: Option<Rect>) -> (int, int) {
    match (resolution(monitor), resolution(primary)) {
        (Some(size), _) => size,
        (None, Some(size)) => size,
        (None, None) => (1920, 1080),
    }
}

/// Whether the monitor that counts has extents that fit in a coordinate.
pub open spec fn resolution_fits(monitor: Option<Rect>, primary: Option<Rect>) -> bool {
    match (monitor, primary) {
        (Some(rect), _) => rect.extents_fit(),
        (None, Some(rect)) => rect.extents_fit(),
        (None, None) => true,
    }
}

/// Computes `resolution_fits`.
pub fn has_resolution(monitor: &Option<Rect>, primary: &Option<Rect>) -> (r: bool)
    ensures
        r == resolution_fits(*monitor, *primary),
{
    match (monitor, primary) {
        (Some(rect), _) => rect.has_extents(),
        (None, Some(rect)) => rect.has_extents(),
        (None, None) => true,
    }
}

/// The resolution of the monitor that a window is on, from the rectangle that
/// the monitor covers; that of the primary monitor where it is not known.
pub fn get_window_monitor_resolution(monitor: Option<Rect>, primary: Option<Rect>) -> (r: (
    u32,
    u32,
))
    requires
        resolution_fits(monitor, primary),
    ensures
        (r.0 as int, r.1 as int) == window_resolution(monitor, primary),
{
    match monitor {
        Some(rect) => rect.size(),
        None => get_primary_monitor_resolution(primary),
    }
}

/// The resolution is that of the monitor of the window where it is known, else
/// that of the primary monitor, and else 1920 by 1080.
pub proof fn resolution_is_what_the_monitor_covers(
    own: Rect,
    monitor: Option<Rect>,
    primary: Option<Rect>,
)
    requires
        own.left <= own.right,
        own.top <= own.bottom,
    ensures
        monitor == Some(own) || monitor is None && primary == Some(own) ==> window_resolution(
            monitor,
            primary,
        ) == (own.right - own.left, own.bottom - own.top),
        monitor is None && primary is None ==> window_resolution(monitor, primary) == (1920int, 1080int),
{
}

} // verus!
