use mpsgu::selection::{
    calculate_crop_area, confirm_bounds, drag_edge, end_drag, grab_edge, is_crop_area_invalid,
    motion_cursor_name, pointer_near_edge, reset_corners, select_side, visible_rect, SIDE_BOTTOM, SIDE_LEFT,
    SIDE_NONE, SIDE_RIGHT, SIDE_TOP,
};
use mpsgu::utility::CropArea;

fn area(sx: i64, sy: i64, ex: i64, ey: i64) -> CropArea {
    CropArea::new_with_params(sx, sy, ex, ey)
}

#[test]
fn new_area_is_all_zero() {
    let a = CropArea::new();
    assert_eq!(a, area(0, 0, 0, 0));
    assert_eq!(a.get_new_end_y(), 0);
}

#[test]
fn new_with_params_sets_pending_too() {
    let a = area(1, 2, 3, 4);
    assert_eq!(
        (a.get_start_x(), a.get_start_y(), a.get_end_x(), a.get_end_y()),
        (1, 2, 3, 4)
    );
    assert_eq!(
        (a.get_new_start_x(), a.get_new_start_y(), a.get_new_end_x(), a.get_new_end_y()),
        (1, 2, 3, 4)
    );
}

#[test]
fn setters_change_one_field() {
    let mut a = area(1, 2, 3, 4);
    a.set_start_x(10);
    a.set_new_end_y(40);
    assert_eq!(a.get_start_x(), 10);
    assert_eq!(a.get_new_start_x(), 1);
    assert_eq!(a.get_new_end_y(), 40);
    assert_eq!(a.get_end_y(), 4);
    a.set_start_y(5);
    a.set_end_x(6);
    a.set_end_y(7);
    a.set_new_start_x(8);
    a.set_new_start_y(9);
    a.set_new_end_x(11);
    assert_eq!((a.start_y, a.end_x, a.end_y), (5, 6, 7));
    assert_eq!((a.new_start_x, a.new_start_y, a.new_end_x), (8, 9, 11));
}

#[test]
fn crop_area_starts_as_whole_picture() {
    let a = calculate_crop_area(100, 0, 1000, 600);
    assert_eq!(a, area(100, 0, 900, 600));
}

#[test]
fn invalid_areas() {
    assert!(is_crop_area_invalid(&CropArea::new()));
    assert!(is_crop_area_invalid(&area(5, 1, 5, 9)));
    assert!(is_crop_area_invalid(&area(1, 5, 9, 5)));
    assert!(!is_crop_area_invalid(&area(0, 0, 10, 10)));
    assert!(!is_crop_area_invalid(&area(10, 10, 0, 0)));
}

#[test]
fn pointer_near_edge_uses_distance_below_ten() {
    assert!(pointer_near_edge(109, 100, 500, 300, 0, 600));
    assert!(!pointer_near_edge(110, 100, 500, 300, 0, 600));
    assert!(pointer_near_edge(300, 100, 500, 591, 0, 600));
    assert!(!pointer_near_edge(300, 100, 500, 300, 0, 600));
}

#[test]
fn select_side_priority() {
    let a = area(100, 200, 500, 600);
    assert_eq!(select_side(95, 300, &a), SIDE_LEFT);
    assert_eq!(select_side(505, 300, &a), SIDE_RIGHT);
    assert_eq!(select_side(300, 195, &a), SIDE_TOP);
    assert_eq!(select_side(300, 605, &a), SIDE_BOTTOM);
    assert_eq!(select_side(300, 300, &a), SIDE_NONE);
    // Near both left and top: left wins.
    assert_eq!(select_side(101, 201, &a), SIDE_LEFT);
}

#[test]
fn grab_near_edge_restarts_pending() {
    let mut a = area(100, 200, 500, 600);
    a.set_new_start_x(1);
    a.set_new_end_y(2);
    let side = grab_edge(&mut a, 498, 400);
    assert_eq!(side, SIDE_RIGHT);
    assert_eq!(
        (a.new_start_x, a.new_start_y, a.new_end_x, a.new_end_y),
        (100, 200, 500, 600)
    );
}

#[test]
fn grab_elsewhere_changes_nothing() {
    let mut a = area(100, 200, 500, 600);
    a.set_new_start_x(1);
    let before = a;
    let side = grab_edge(&mut a, 300, 400);
    assert_eq!(side, SIDE_NONE);
    assert_eq!(a, before);
}

#[test]
fn click_without_drag_keeps_selection() {
    let mut a = area(100, 200, 500, 600);
    a.set_new_end_x(-7);
    grab_edge(&mut a, 102, 400);
    assert_eq!(end_drag(&a), area(100, 200, 500, 600));
}

#[test]
fn drag_left_edge_is_clamped_to_picture() {
    let mut a = area(100, 50, 500, 400);
    assert!(drag_edge(&mut a, true, SIDE_LEFT, 20, 10, 640, 480, -500, 0));
    assert_eq!(a.new_start_x, 20);
    assert_eq!(a.start_x, 100);
    let mut b = area(100, 50, 500, 400);
    assert!(drag_edge(&mut b, true, SIDE_LEFT, 20, 10, 640, 480, 30, 99));
    assert_eq!(b.new_start_x, 130);
    assert_eq!((b.new_start_y, b.new_end_x, b.new_end_y), (50, 500, 400));
}

#[test]
fn drag_each_edge() {
    let mut a = area(100, 50, 500, 400);
    assert!(drag_edge(&mut a, true, SIDE_RIGHT, 20, 10, 640, 480, 1000, 0));
    assert_eq!(a.new_end_x, 620);
    assert!(drag_edge(&mut a, true, SIDE_TOP, 20, 10, 640, 480, 0, -5));
    assert_eq!(a.new_start_y, 45);
    assert!(drag_edge(&mut a, true, SIDE_BOTTOM, 20, 10, 640, 480, 0, 200));
    assert_eq!(a.new_end_y, 470);
    assert_eq!(end_drag(&a), area(100, 45, 620, 470));
}

#[test]
fn drag_ignored_outside_crop_mode_or_without_edge() {
    let mut a = area(100, 50, 500, 400);
    let before = a;
    assert!(!drag_edge(&mut a, false, SIDE_LEFT, 20, 10, 640, 480, 30, 0));
    assert_eq!(a, before);
    assert!(!drag_edge(&mut a, true, SIDE_NONE, 20, 10, 640, 480, 30, 0));
    assert_eq!(a, before);
    // The start corner lies off the picture.
    let mut c = area(5, 50, 500, 400);
    let before_c = c;
    assert!(!drag_edge(&mut c, true, SIDE_LEFT, 20, 10, 640, 480, 30, 0));
    assert_eq!(c, before_c);
}

#[test]
fn confirm_orders_corners_and_removes_offset() {
    let a = area(500, 400, 100, 50);
    assert_eq!(confirm_bounds(&a, true, 20, 10), Some((80, 40, 480, 390)));
}

#[test]
fn confirm_cuts_nothing_without_size_or_crop_mode() {
    assert_eq!(confirm_bounds(&area(100, 50, 100, 400), true, 0, 0), None);
    assert_eq!(confirm_bounds(&area(100, 50, 300, 50), true, 0, 0), None);
    assert_eq!(confirm_bounds(&area(100, 50, 300, 400), false, 0, 0), None);
}

#[test]
fn visible_rect_committed_or_pending() {
    let mut a = area(100, 50, 500, 400);
    assert_eq!(visible_rect(&a, SIDE_NONE), (100, 50, 400, 350));
    a.set_new_start_x(150);
    assert_eq!(visible_rect(&a, SIDE_LEFT), (150, 50, 350, 350));
    assert_eq!(visible_rect(&a, SIDE_NONE), (100, 50, 400, 350));
}

#[test]
fn cursor_names() {
    assert_eq!(motion_cursor_name(SIDE_NONE), "grab");
    assert_eq!(motion_cursor_name(SIDE_TOP), "grabbing");
}

#[test]
fn confirm_ignores_corner_order() {
    let expected = Some((80, 40, 480, 390));
    assert_eq!(confirm_bounds(&area(100, 50, 500, 400), true, 20, 10), expected);
    assert_eq!(confirm_bounds(&area(500, 50, 100, 400), true, 20, 10), expected);
    assert_eq!(confirm_bounds(&area(100, 400, 500, 50), true, 20, 10), expected);
    assert_eq!(confirm_bounds(&area(500, 400, 100, 50), true, 20, 10), expected);
}

#[test]
fn reset_corners_keeps_pending() {
    let mut a = area(100, 50, 500, 400);
    a.set_new_end_x(450);
    reset_corners(&mut a);
    assert_eq!((a.start_x, a.start_y, a.end_x, a.end_y), (0, 0, 0, 0));
    assert_eq!((a.new_start_x, a.new_start_y, a.new_end_x, a.new_end_y), (100, 50, 450, 400));
    assert!(is_crop_area_invalid(&a));
}
