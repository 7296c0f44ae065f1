//! Fullscreen detection: does the foreground window fill the work area?

use vstd::prelude::*;

verus! {

/// A rectangle in screen coordinates.
#[derive(Clone, Copy, Debug, PartialEq, Eq, Structural)]
pub struct Rect {
    pub left: i32,
    pub top: i32,
    pub right: i32,
    pub bottom: i32,
}

/// Slack, in pixels, that absorbs the window manager's rounding.
pub const FULLSCREEN_TOLERANCE_PX: i32 = 2;

/// The window reaches every edge of the work area, give or take the
/// tolerance.
pub open spec fn covers(window: Rect, work: Rect) -> bool {
    &&& window.left <= work.left + FULLSCREEN_TOLERANCE_PX
    &&& window.top <= work.top + FULLSCREEN_TOLERANCE_PX
    &&& window.right >= work.right - FULLSCREEN_TOLERANCE_PX
    &&& window.bottom >= work.bottom - FULLSCREEN_TOLERANCE_PX
}

/// Whether a foreground window hides the overlay. `None` stands for no
/// foreground window, the overlay itself, or a window whose bounds cannot be
/// had: none of them counts as fullscreen.
pub open spec fn fills(foreground: Option<Rect>, work: Rect) -> bool {
    match foreground {
        Some(window) => covers(window, work),
        None => false,
    }
}

fn at_most(a: i32, b: i32, slack: i32) -> (r: bool)
    ensures
        r == (a <= b + slack),
{
    let wide_a: i64 = a as i64;
    let wide_b: i64 = b as i64;
    let wide_slack: i64 = slack as i64;
    wide_a <= wide_b + wide_slack
}

pub fn covers_work_area(window: Rect, work: Rect) -> (r: bool)
    ensures
        r == covers(window, work),
{
    at_most(window.left, work.left, FULLSCREEN_TOLERANCE_PX) && at_most(
        window.top,
        work.top,
        FULLSCREEN_TOLERANCE_PX,
    ) && at_most(work.right, window.right, FULLSCREEN_TOLERANCE_PX) && at_most(
        work.bottom,
        window.bottom,
        FULLSCREEN_TOLERANCE_PX,
    )
}

pub fn is_foreground_fullscreen(foreground: Option<Rect>, work: Rect) -> (r: bool)
    ensures
        r == fills(foreground, work),
{
    match foreground {
        Some(window) => covers_work_area(window, work),
        None => false,
    }
}

/// A window that covers the work area still covers it when it grows, and a
/// window exactly as large as the work area covers it.
pub proof fn lemma_covers_is_monotone(window: Rect, larger: Rect, work: Rect)
    requires
        larger.left <= window.left,
        larger.top <= window.top,
        larger.right >= window.right,
        larger.bottom >= window.bottom,
    ensures
        covers(window, work) ==> covers(larger, work),
        covers(work, work),
{
}

} // verus!
