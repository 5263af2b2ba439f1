//! The window that is being recorded, and where it is.
use crate::capture::window::{find_window, window_named, WindowCandidate, WindowHandle};
use crate::types::Duration;
use vstd::prelude::*;

verus! {

/// Keeps track of the window that is being recorded.
///
/// All instants are spans of time since one origin.
#[derive(Debug)]
pub struct WindowTracker {
    /// The window.
    pub hwnd: WindowHandle,
    /// The name to search for once the window is gone.
    pub process_name: String,
    /// When the window was last checked.
    pub last_check: Duration,
    /// The time between two checks.
    pub check_interval: Duration,
    /// Whether the window has had the focus at some time.
    pub ever_focused: bool,
    /// Whether the whole title must match.
    pub use_exact_match: bool,
    /// The place of the window, if it is known.
    pub position: Option<(i32, i32)>,
    /// The size of the window, if it is known.
    pub size: Option<(u32, u32)>,
    /// When the place of the window was last asked for.
    pub last_rect_check: Duration,
    /// The time between two such questions.
    pub rect_check_interval: Duration,
}

/// A place and a size: left edge, top edge, width and height.
pub type WindowRect = (i32, i32, u32, u32);

/// The place in a rectangle.
pub open spec fn place_in(rect: Option<WindowRect>) -> Option<(i32, i32)> {
    match rect {
        Some(rect) => Some((rect.0, rect.1)),
        None => None,
    }
}

/// The size in a rectangle.
pub open spec fn size_in(rect: Option<WindowRect>) -> Option<(u32, u32)> {
    match rect {
        Some(rect) => Some((rect.2, rect.3)),
        None => None,
    }
}

/// Whether at least `interval` has gone by since `last`.
pub open spec fn is_due(now: Duration, last: Duration, interval: Duration) -> bool {
    interval@ == 0 || now@ >= last@ + interval@
}

/// Computes `is_due`.
fn due(now: Duration, last: Duration, interval: Duration) -> (r: bool)
    ensures
        r == is_due(now, last, interval),
{
    now.duration_since(last).nanos >= interval.nanos
}

impl WindowTracker {
    /// Whether this is the tracker of a window that was just found.
    pub open spec fn is_fresh(
        self,
        hwnd: WindowHandle,
        process_name: Seq<char>,
        use_exact_match: bool,
        now: Duration,
        rect: Option<WindowRect>,
    ) -> bool {
        &&& self.hwnd == hwnd
        &&& self.process_name@ == process_name
        &&& self.last_check == now
        &&& self.check_interval@ == 2_000_000_000
        &&& !self.ever_focused
        &&& self.use_exact_match == use_exact_match
        &&& self.position == place_in(rect)
        &&& self.size == size_in(rect)
        &&& self.last_rect_check == now
        &&& self.rect_check_interval@ == 500_000_000
    }

    /// Tracks a window whose title holds a name.
    pub fn new(
        hwnd: WindowHandle,
        process_name: &str,
        now: Duration,
        rect: Option<WindowRect>,
    ) -> (r: Self)
        ensures
            r.is_fresh(hwnd, process_name@, false, now, rect),
    {
        WindowTracker::new_with_exact_match(hwnd, process_name, false, now, rect)
    }

    /// Tracks a window whose title holds a name, or is that name.
    pub fn new_with_exact_match(
        hwnd: WindowHandle,
        process_name: &str,
        use_exact_match: bool,
        now: Duration,
        rect: Option<WindowRect>,
    ) -> (r: Self)
        ensures
            r.is_fresh(hwnd, process_name@, use_exact_match, now, rect),
    {
        let (position, size) = match rect {
            Some((x, y, width, height)) => (Some((x, y)), Some((width, height))),
            None => (None, None),
        };
        WindowTracker {
            hwnd,
            process_name: process_name.to_owned(),
            last_check: now,
            check_interval: Duration::from_secs(2),
            ever_focused: false,
            use_exact_match,
            position,
            size,
            last_rect_check: now,
            rect_check_interval: Duration::from_millis(500),
        }
    }

    /// Whether to ask for the place of the window now. The question counts as
    /// asked from here on.
    pub fn update_window_rect(&mut self, now: Duration) -> (r: bool)
        ensures
            r == is_due(now, old(self).last_rect_check, old(self).rect_check_interval),
            *final(self) == (WindowTracker {
                last_rect_check: if r {
                    now
                } else {
                    old(self).last_rect_check
                },
                ..*old(self)
            }),
    {
        if due(now, self.last_rect_check, self.rect_check_interval) {
            self.last_rect_check = now;
            true
        } else {
            false
        }
    }

    /// Takes note of where the window is. Where that could not be found out,
    /// the window counts as unmoved.
    pub fn set_window_rect(&mut self, rect: Option<WindowRect>)
        ensures
            *final(self) == (WindowTracker {
                position: if rect is Some {
                    place_in(rect)
                } else {
                    old(self).position
                },
                size: if rect is Some {
                    size_in(rect)
                } else {
                    old(self).size
                },
                ..*old(self)
            }),
    {
        match rect {
            Some((x, y, width, height)) => {
                self.position = Some((x, y));
                self.size = Some((width, height));
            },
            None => {},
        }
    }

    /// The place of the window, if it is known.
    pub fn get_position(&self) -> (r: Option<(i32, i32)>)
        ensures
            r == self.position,
    {
        self.position
    }

    /// The size of the window, if it is known.
    pub fn get_size(&self) -> (r: Option<(u32, u32)>)
        ensures
            r == self.size,
    {
        self.size
    }

    /// Whether the window has the focus, and takes note of it.
    pub fn is_focused(&mut self, foreground: WindowHandle) -> (r: bool)
        ensures
            r == (foreground == old(self).hwnd),
            *final(self) == (WindowTracker {
                ever_focused: old(self).ever_focused || r,
                ..*old(self)
            }),
    {
        let focused = foreground == self.hwnd;
        if focused {
            self.ever_focused = true;
        }
        focused
    }

    /// Whether the window counts as valid without a check. Otherwise a check
    /// is due, and counts as made from here on.
    pub fn ensure_valid_window(&mut self, now: Duration) -> (r: bool)
        ensures
            r == !is_due(now, old(self).last_check, old(self).check_interval),
            *final(self) == (WindowTracker {
                last_check: if r {
                    old(self).last_check
                } else {
                    now
                },
                ..*old(self)
            }),
    {
        if due(now, self.last_check, self.check_interval) {
            self.last_check = now;
            false
        } else {
            true
        }
    }

    /// Searches for the name among the windows on the desktop.
    pub fn find(&self, candidates: &Vec<WindowCandidate>) -> (r: Option<WindowHandle>)
        ensures
            r == window_named(candidates@, self.process_name@, self.use_exact_match),
    {
        find_window(self.process_name.as_str(), self.use_exact_match, candidates)
    }

    /// Goes on with the window that a search for the name has found, if any.
    pub fn adopt(&mut self, found: Option<WindowHandle>) -> (r: bool)
        ensures
            r == (found is Some),
            *final(self) == (WindowTracker {
                hwnd: match found {
                    Some(hwnd) => hwnd,
                    None => old(self).hwnd,
                },
                ..*old(self)
            }),
    {
        match found {
            Some(hwnd) => {
                self.hwnd = hwnd;
                true
            },
            None => false,
        }
    }

    /// The tracker of a window that was just found, by the same name.
    pub open spec fn restarted(
        self,
        hwnd: WindowHandle,
        now: Duration,
        rect: Option<WindowRect>,
    ) -> WindowTracker {
        WindowTracker {
            hwnd,
            process_name: self.process_name,
            last_check: now,
            check_interval: Duration { nanos: 2_000_000_000 },
            ever_focused: false,
            use_exact_match: self.use_exact_match,
            position: place_in(rect),
            size: size_in(rect),
            last_rect_check: now,
            rect_check_interval: Duration { nanos: 500_000_000 },
        }
    }

    /// Starts again with a window that was just found by the same name.
    pub fn restart(&mut self, hwnd: WindowHandle, now: Duration, rect: Option<WindowRect>)
        ensures
            *final(self) == old(self).restarted(hwnd, now, rect),
            final(self).is_fresh(
                hwnd,
                old(self).process_name@,
                old(self).use_exact_match,
                now,
                rect,
            ),
    {
        self.hwnd = hwnd;
        self.last_check = now;
        self.check_interval = Duration::from_secs(2);
        self.ever_focused = false;
        self.position = None;
        self.size = None;
        self.set_window_rect(rect);
        self.last_rect_check = now;
        self.rect_check_interval = Duration::from_millis(500);
    }
}

/// Something is due exactly where as much time as the interval, or more, has gone
/// by since it was last done. Something that was done later than now is due only
/// where there is no interval.
pub proof fn due_once_the_interval_is_over(now: Duration, last: Duration, interval: Duration)
    ensures
        now@ >= last@ ==> (is_due(now, last, interval) <==> now@ - last@ >= interval@),
        now@ < last@ ==> (is_due(now, last, interval) <==> interval@ == 0),
{
}

/// A tracker that was just started knows the window and the name, is to check the
/// window two seconds from now and its place half a second from now, and has the
/// place and the size of the window, if they are known.
pub proof fn fresh_tracker_waits_for_its_intervals(
    tracker: WindowTracker,
    hwnd: WindowHandle,
    name: Seq<char>,
    exact: bool,
    now: Duration,
    rect: Option<WindowRect>,
    later: Duration,
)
    requires
        tracker.is_fresh(hwnd, name, exact, now, rect),
        later@ >= now@,
    ensures
        tracker.hwnd == hwnd,
        tracker.process_name@ == name,
        tracker.use_exact_match == exact,
        !tracker.ever_focused,
        is_due(later, tracker.last_check, tracker.check_interval) <==> later@ - now@
            >= 2_000_000_000,
        is_due(later, tracker.last_rect_check, tracker.rect_check_interval) <==> later@ - now@
            >= 500_000_000,
        match rect {
            Some((x, y, width, height)) => tracker.position == Some((x, y)) && tracker.size == Some(
                (width, height),
            ),
            None => tracker.position is None && tracker.size is None,
        },
{
}

} // verus!
