use mddskmgr::geometry::{covers_work_area, is_foreground_fullscreen, Rect};
use mddskmgr::visibility::{is_high_contrast, should_show, visibility_change, VisibilityChange};

#[test]
fn visible_only_when_wanted_and_nothing_hides() {
    for user_visible in [false, true] {
        for accessibility in [false, true] {
            for fullscreen in [false, true] {
                let expected = user_visible && !accessibility && !fullscreen;
                assert_eq!(should_show(user_visible, accessibility, fullscreen), expected);
            }
        }
    }
    assert!(should_show(true, false, false));
    assert!(!should_show(false, false, false));
    assert!(!should_show(true, true, false));
    assert!(!should_show(true, false, true));
    assert!(!should_show(true, true, true));
}

#[test]
fn window_changes_only_on_an_edge() {
    assert_eq!(visibility_change(true, true), VisibilityChange::Unchanged);
    assert_eq!(visibility_change(false, false), VisibilityChange::Unchanged);
    assert_eq!(visibility_change(true, false), VisibilityChange::Hide);
    assert_eq!(visibility_change(false, true), VisibilityChange::ShowTopmost);
}

#[test]
fn high_contrast_needs_a_successful_query_and_the_flag() {
    assert!(is_high_contrast(true, 1));
    assert!(is_high_contrast(true, 0x41));
    assert!(!is_high_contrast(true, 0));
    assert!(!is_high_contrast(true, 0x40));
    assert!(!is_high_contrast(false, 1));
}

fn rect(left: i32, top: i32, right: i32, bottom: i32) -> Rect {
    Rect { left, top, right, bottom }
}

#[test]
fn fullscreen_tolerates_two_pixels() {
    let work = rect(0, 0, 1920, 1040);
    assert!(covers_work_area(work, work));
    assert!(covers_work_area(rect(2, 2, 1918, 1038), work));
    assert!(covers_work_area(rect(-8, -8, 1928, 1048), work));
    assert!(!covers_work_area(rect(3, 0, 1920, 1040), work));
    assert!(!covers_work_area(rect(0, 3, 1920, 1040), work));
    assert!(!covers_work_area(rect(0, 0, 1917, 1040), work));
    assert!(!covers_work_area(rect(0, 0, 1920, 1037), work));
}

#[test]
fn fullscreen_at_the_limits_of_the_coordinates() {
    let work = rect(i32::MAX, i32::MAX, i32::MIN, i32::MIN);
    assert!(covers_work_area(rect(i32::MAX, i32::MAX, i32::MIN, i32::MIN), work));
    let wide = rect(i32::MIN, i32::MIN, i32::MAX, i32::MAX);
    assert!(covers_work_area(wide, wide));
    assert!(!covers_work_area(rect(i32::MIN + 3, i32::MIN, i32::MAX, i32::MAX), wide));
}

#[test]
fn no_foreground_window_is_not_fullscreen() {
    let work = rect(0, 0, 800, 600);
    assert!(!is_foreground_fullscreen(None, work));
    assert!(is_foreground_fullscreen(Some(rect(0, 0, 800, 600)), work));
    assert!(!is_foreground_fullscreen(Some(rect(100, 100, 400, 300)), work));
}
