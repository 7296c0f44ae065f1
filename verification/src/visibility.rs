//! The visibility policy: three independent hide reasons folded into one
//! show/hide decision.

use vstd::prelude::*;

verus! {

/// The overlay is shown exactly when the user wants it and neither the
/// accessibility/session state nor a fullscreen foreground window hides it.
pub open spec fn visible(
    user_visible: bool,
    hidden_by_accessibility: bool,
    hidden_for_fullscreen: bool,
) -> bool {
    user_visible && !hidden_by_accessibility && !hidden_for_fullscreen
}

/// What has to be done to the overlay window when the policy's answer moves
/// from one value to another.
#[derive(Clone, Copy, Debug, PartialEq, Eq, Structural)]
pub enum VisibilityChange {
    /// The answer did not move: nothing to do.
    Unchanged,
    /// Visible before, hidden now.
    Hide,
    /// Hidden before, visible now: show and put the window back on top.
    ShowTopmost,
}

pub open spec fn change_between(before: bool, after: bool) -> VisibilityChange {
    if before == after {
        VisibilityChange::Unchanged
    } else if after {
        VisibilityChange::ShowTopmost
    } else {
        VisibilityChange::Hide
    }
}

/// The flag of the platform's high-contrast record that says the mode is on.
pub const HIGH_CONTRAST_ON: u32 = 1;

/// Whether high-contrast mode is active, from the platform's answer: the
/// query's success and the record's flags. A failed query counts as inactive.
pub fn is_high_contrast(query_ok: bool, flags: u32) -> (r: bool)
    ensures
        r == (query_ok && flags & HIGH_CONTRAST_ON != 0),
{
    query_ok && flags & HIGH_CONTRAST_ON != 0
}

/// Decides whether the overlay is shown.
pub fn should_show(
    user_visible: bool,
    hidden_by_accessibility: bool,
    hidden_for_fullscreen: bool,
) -> (show: bool)
    ensures
        show == visible(user_visible, hidden_by_accessibility, hidden_for_fullscreen),
        show <==> (user_visible, hidden_by_accessibility, hidden_for_fullscreen) == (
            true,
            false,
            false,
        ),
{
    user_visible && !hidden_by_accessibility && !hidden_for_fullscreen
}

/// The window command that takes the overlay from `before` to `after`.
pub fn visibility_change(before: bool, after: bool) -> (change: VisibilityChange)
    ensures
        change == change_between(before, after),
{
    if before == after {
        VisibilityChange::Unchanged
    } else if after {
        VisibilityChange::ShowTopmost
    } else {
        VisibilityChange::Hide
    }
}

/// Any single hide reason is enough to hide the overlay, and lifting one
/// reason shows it only if no other reason remains.
pub proof fn lemma_hide_reasons_are_independent(
    user_visible: bool,
    hidden_by_accessibility: bool,
    hidden_for_fullscreen: bool,
)
    ensures
        !user_visible ==> !visible(user_visible, hidden_by_accessibility, hidden_for_fullscreen),
        hidden_by_accessibility ==> !visible(
            user_visible,
            hidden_by_accessibility,
            hidden_for_fullscreen,
        ),
        hidden_for_fullscreen ==> !visible(
            user_visible,
            hidden_by_accessibility,
            hidden_for_fullscreen,
        ),
        visible(user_visible, hidden_by_accessibility, hidden_for_fullscreen) <==> (user_visible
            && !hidden_by_accessibility && !hidden_for_fullscreen),
{
}

} // verus!
