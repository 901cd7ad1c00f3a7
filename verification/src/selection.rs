//! How the crop selection reacts to the pointer: which edge a press grabs,
//! how a drag moves that edge inside the picture, what a finished drag
//! commits, and which rectangle a confirmed selection cuts out.

use vstd::prelude::*;
use crate::utility::CropArea;

verus! {

/// No edge is grabbed.
pub const SIDE_NONE: i8 = -1;
/// The left edge (`start_x`).
pub const SIDE_LEFT: i8 = 0;
/// The right edge (`end_x`).
pub const SIDE_RIGHT: i8 = 1;
/// The top edge (`start_y`).
pub const SIDE_TOP: i8 = 2;
/// The bottom edge (`end_y`).
pub const SIDE_BOTTOM: i8 = 3;

/// How close, in pixels, the pointer must be to an edge to grab it.
pub const GRAB_DISTANCE: i64 = 10;

pub open spec fn fits_i64(v: int) -> bool {
    i64::MIN <= v <= i64::MAX
}

pub open spec fn min_int(a: int, b: int) -> int {
    if a <= b { a } else { b }
}

pub open spec fn max_int(a: int, b: int) -> int {
    if a >= b { a } else { b }
}

/// `|a - b| < 10`.
pub open spec fn near(a: int, b: int) -> bool {
    -GRAB_DISTANCE < a - b < GRAB_DISTANCE
}

/// `(a - b).abs()` can be computed in `i64` without overflow.
pub open spec fn distance_defined(a: int, b: int) -> bool {
    i64::MIN < a - b <= i64::MAX
}

/// The pointer is near one of the four edges.
pub open spec fn spec_near_edge(px: int, x_start: int, x_end: int, py: int, y_start: int, y_end: int) -> bool {
    near(px, x_start) || near(px, x_end) || near(py, y_start) || near(py, y_end)
}

/// Each distance that the edge tests compute, left to right with the
/// later ones only where the earlier ones failed, fits in `i64`.
pub open spec fn edge_tests_defined(px: int, x_start: int, x_end: int, py: int, y_start: int, y_end: int) -> bool {
    &&& distance_defined(px, x_start)
    &&& !near(px, x_start) ==> distance_defined(px, x_end)
    &&& !near(px, x_start) && !near(px, x_end) ==> distance_defined(py, y_start)
    &&& !near(px, x_start) && !near(px, x_end) && !near(py, y_start) ==> distance_defined(py, y_end)
}

/// The edge that a press at (px, py) grabs: the first of left, right, top,
/// bottom that the pointer is near, else none.
pub open spec fn spec_side(px: int, py: int, area: CropArea) -> i8 {
    if near(px, area.start_x as int) {
        SIDE_LEFT
    } else if near(px, area.end_x as int) {
        SIDE_RIGHT
    } else if near(py, area.start_y as int) {
        SIDE_TOP
    } else if near(py, area.end_y as int) {
        SIDE_BOTTOM
    } else {
        SIDE_NONE
    }
}

pub open spec fn area_tests_defined(px: int, py: int, area: CropArea) -> bool {
    edge_tests_defined(px, area.start_x as int, area.end_x as int, py, area.start_y as int, area.end_y as int)
}

pub open spec fn area_near_edge(px: int, py: int, area: CropArea) -> bool {
    spec_near_edge(px, area.start_x as int, area.end_x as int, py, area.start_y as int, area.end_y as int)
}

/// The area after a press at (px, py): near an edge, the pending rectangle
/// restarts from the committed corners; elsewhere nothing changes.
pub open spec fn grabbed(area: CropArea, px: int, py: int) -> CropArea {
    if area_near_edge(px, py, area) {
        CropArea::spec_with_corners(area.start_x, area.start_y, area.end_x, area.end_y)
    } else {
        area
    }
}

/// Whether a drag reshapes the selection: crop mode is on and the
/// selection's start corner lies inside the picture, which the drawing
/// area shows between `offset` and `size - offset` on each axis.
pub open spec fn drag_applies(
    area: CropArea,
    crop_mode_active: bool,
    offset_x: int,
    offset_y: int,
    image_width: int,
    image_height: int,
) -> bool {
    &&& crop_mode_active
    &&& area.start_x >= offset_x
    &&& area.start_y >= offset_y
    &&& area.start_x <= image_width - offset_x
    &&& area.start_y <= image_height - offset_y
}

/// Each sum and difference that a drag computes, in the order it computes
/// them, fits in `i64`.
pub open spec fn drag_defined(
    area: CropArea,
    crop_mode_active: bool,
    side: i8,
    offset_x: int,
    offset_y: int,
    image_width: int,
    image_height: int,
    dx: int,
    dy: int,
) -> bool {
    crop_mode_active && area.start_x >= offset_x && area.start_y >= offset_y ==> {
        &&& fits_i64(image_width - offset_x)
        &&& area.start_x <= image_width - offset_x ==> {
            &&& fits_i64(image_height - offset_y)
            &&& area.start_y <= image_height - offset_y ==> {
                &&& side == SIDE_LEFT ==> fits_i64(area.start_x + dx)
                &&& side == SIDE_RIGHT ==> fits_i64(area.end_x + dx)
                &&& side == SIDE_TOP ==> fits_i64(area.start_y + dy)
                &&& side == SIDE_BOTTOM ==> fits_i64(area.end_y + dy)
            }
        }
    }
}

/// The area after a drag by (dx, dy) from where the press grabbed `side`:
/// the grabbed edge of the pending rectangle moves to the committed edge
/// plus the drag, held inside the picture; everything else stays.
pub open spec fn dragged(
    area: CropArea,
    crop_mode_active: bool,
    side: i8,
    offset_x: int,
    offset_y: int,
    image_width: int,
    image_height: int,
    dx: int,
    dy: int,
) -> CropArea {
    if drag_applies(area, crop_mode_active, offset_x, offset_y, image_width, image_height) {
        if side == SIDE_LEFT {
            CropArea {
                new_start_x: min_int(max_int(area.start_x + dx, offset_x), image_width - offset_x) as i64,
                ..area
            }
        } else if side == SIDE_RIGHT {
            CropArea {
                new_end_x: max_int(min_int(area.end_x + dx, image_width - offset_x), offset_x) as i64,
                ..area
            }
        } else if side == SIDE_TOP {
            CropArea {
                new_start_y: min_int(max_int(area.start_y + dy, offset_y), image_height - offset_y) as i64,
                ..area
            }
        } else if side == SIDE_BOTTOM {
            CropArea {
                new_end_y: max_int(min_int(area.end_y + dy, image_height - offset_y), offset_y) as i64,
                ..area
            }
        } else {
            area
        }
    } else {
        area
    }
}

/// `|a - b| < 10`, with the difference taken in `i64`.
fn near_exec(a: i64, b: i64) -> (r: bool)
    requires
        distance_defined(a as int, b as int),
    ensures
        r == near(a as int, b as int),
{
    let d = a - b;
    -GRAB_DISTANCE < d && d < GRAB_DISTANCE
}

fn min_i64(a: i64, b: i64) -> (r: i64)
    ensures
        r == min_int(a as int, b as int),
{
    if a <= b { a } else { b }
}

fn max_i64(a: i64, b: i64) -> (r: i64)
    ensures
        r == max_int(a as int, b as int),
{
    if a >= b { a } else { b }
}

/// Whether the pointer at (px, py) is within grabbing distance of one of
/// the edges of the rectangle; the cursor shows a hand exactly then.
pub fn pointer_near_edge(px: i64, x_start: i64, x_end: i64, py: i64, y_start: i64, y_end: i64) -> (r: bool)
    requires
        edge_tests_defined(px as int, x_start as int, x_end as int, py as int, y_start as int, y_end as int),
    ensures
        r == spec_near_edge(px as int, x_start as int, x_end as int, py as int, y_start as int, y_end as int),
{
    near_exec(px, x_start) || near_exec(px, x_end) || near_exec(py, y_start) || near_exec(py, y_end)
}

/// The edge of `area` that a press at (px, py) grabs.
pub fn select_side(px: i64, py: i64, area: &CropArea) -> (r: i8)
    requires
        area_tests_defined(px as int, py as int, *area),
    ensures
        r == spec_side(px as int, py as int, *area),
{
    if near_exec(px, area.start_x) {
        SIDE_LEFT
    } else if near_exec(px, area.end_x) {
        SIDE_RIGHT
    } else if near_exec(py, area.start_y) {
        SIDE_TOP
    } else if near_exec(py, area.end_y) {
        SIDE_BOTTOM
    } else {
        SIDE_NONE
    }
}

/// A press at (px, py): returns the grabbed edge and, where the press is
/// near an edge, restarts the pending rectangle from the committed corners.
pub fn grab_edge(area: &mut CropArea, px: i64, py: i64) -> (side: i8)
    requires
        area_tests_defined(px as int, py as int, *old(area)),
    ensures
        side == spec_side(px as int, py as int, *old(area)),
        *final(area) == grabbed(*old(area), px as int, py as int),
{
    let side = select_side(px, py, area);
    if pointer_near_edge(px, area.start_x, area.end_x, py, area.start_y, area.end_y) {
        area.new_start_x = area.start_x;
        area.new_start_y = area.start_y;
        area.new_end_x = area.end_x;
        area.new_end_y = area.end_y;
    }
    side
}

/// A drag update by (dx, dy) since the press that grabbed `side`. Returns
/// whether the pending rectangle was reshaped, so that it is drawn again.
pub fn drag_edge(
    area: &mut CropArea,
    crop_mode_active: bool,
    side: i8,
    offset_x: i64,
    offset_y: i64,
    image_width: i64,
    image_height: i64,
    dx: i64,
    dy: i64,
) -> (redraw: bool)
    requires
        drag_defined(*old(area), crop_mode_active, side, offset_x as int, offset_y as int,
            image_width as int, image_height as int, dx as int, dy as int),
    ensures
        *final(area) == dragged(*old(area), crop_mode_active, side, offset_x as int, offset_y as int,
            image_width as int, image_height as int, dx as int, dy as int),
        redraw == (drag_applies(*old(area), crop_mode_active, offset_x as int, offset_y as int,
            image_width as int, image_height as int) && SIDE_LEFT <= side <= SIDE_BOTTOM),
{
    if crop_mode_active && area.start_x >= offset_x && area.start_y >= offset_y
        && area.start_x <= image_width - offset_x && area.start_y <= image_height - offset_y
    {
        if side == SIDE_LEFT {
            let start_x = min_i64(max_i64(area.start_x + dx, offset_x), image_width - offset_x);
            area.new_start_x = start_x;
            true
        } else if side == SIDE_RIGHT {
            let end_x = max_i64(min_i64(area.end_x + dx, image_width - offset_x), offset_x);
            area.new_end_x = end_x;
            true
        } else if side == SIDE_TOP {
            let start_y = min_i64(max_i64(area.start_y + dy, offset_y), image_height - offset_y);
            area.new_start_y = start_y;
            true
        } else if side == SIDE_BOTTOM {
            let end_y = max_i64(min_i64(area.end_y + dy, image_height - offset_y), offset_y);
            area.new_end_y = end_y;
            true
        } else {
            false
        }
    } else {
        false
    }
}

/// The area that a finished drag commits: the pending rectangle becomes
/// the committed one.
pub open spec fn committed(area: CropArea) -> CropArea {
    CropArea::spec_with_corners(area.new_start_x, area.new_start_y, area.new_end_x, area.new_end_y)
}

/// When the drag ends, the selection becomes the pending rectangle.
pub fn end_drag(area: &CropArea) -> (r: CropArea)
    ensures
        r == committed(*area),
{
    CropArea::new_with_params(area.new_start_x, area.new_start_y, area.new_end_x, area.new_end_y)
}

/// Whether a confirm cuts anything: crop mode is on and the selection has
/// a width and a height.
pub open spec fn confirm_applies(area: CropArea, crop_mode_active: bool) -> bool {
    crop_mode_active && area.start_x != area.end_x && area.start_y != area.end_y
}

/// The differences that a confirm computes fit in `i64`.
pub open spec fn confirm_defined(area: CropArea, crop_mode_active: bool, offset_x: int, offset_y: int) -> bool {
    confirm_applies(area, crop_mode_active) ==> {
        &&& fits_i64(min_int(area.start_x as int, area.end_x as int) - offset_x)
        &&& fits_i64(min_int(area.start_y as int, area.end_y as int) - offset_y)
        &&& fits_i64(max_int(area.start_x as int, area.end_x as int) - offset_x)
        &&& fits_i64(max_int(area.start_y as int, area.end_y as int) - offset_y)
    }
}

/// The selection in picture coordinates, left, top, right, bottom, with
/// the corners put in order; `None` where a confirm cuts nothing.
pub open spec fn spec_confirm_bounds(area: CropArea, crop_mode_active: bool, offset_x: int, offset_y: int)
    -> Option<(int, int, int, int)>
{
    if confirm_applies(area, crop_mode_active) {
        Some((
            min_int(area.start_x as int, area.end_x as int) - offset_x,
            min_int(area.start_y as int, area.end_y as int) - offset_y,
            max_int(area.start_x as int, area.end_x as int) - offset_x,
            max_int(area.start_y as int, area.end_y as int) - offset_y,
        ))
    } else {
        None
    }
}

/// What a confirm cuts out of the picture, in the coordinates of the
/// picture as drawn: (left, top, right, bottom). `None` where crop mode is
/// off or the selection has no width or no height.
pub fn confirm_bounds(area: &CropArea, crop_mode_active: bool, offset_x: i64, offset_y: i64)
    -> (r: Option<(i64, i64, i64, i64)>)
    requires
        confirm_defined(*area, crop_mode_active, offset_x as int, offset_y as int),
    ensures
        match r {
            Some(b) => spec_confirm_bounds(*area, crop_mode_active, offset_x as int, offset_y as int)
                == Some((b.0 as int, b.1 as int, b.2 as int, b.3 as int)),
            None => spec_confirm_bounds(*area, crop_mode_active, offset_x as int, offset_y as int) is None,
        },
{
    if crop_mode_active && area.start_x != area.end_x && area.start_y != area.end_y {
        let x_start = min_i64(area.start_x, area.end_x) - offset_x;
        let y_start = min_i64(area.start_y, area.end_y) - offset_y;
        let x_end = max_i64(area.start_x, area.end_x) - offset_x;
        let y_end = max_i64(area.start_y, area.end_y) - offset_y;
        Some((x_start, y_start, x_end, y_end))
    } else {
        None
    }
}

/// The widths and heights that the drawing computes fit in `i64`.
pub open spec fn visible_rect_defined(area: CropArea, side: i8) -> bool {
    if side == SIDE_NONE {
        fits_i64(area.end_x - area.start_x) && fits_i64(area.end_y - area.start_y)
    } else {
        fits_i64(area.new_end_x - area.new_start_x) && fits_i64(area.new_end_y - area.new_start_y)
    }
}

/// The rectangle drawn over the picture, as (x, y, width, height): the
/// committed one, or while an edge is grabbed the pending one.
pub fn visible_rect(area: &CropArea, side: i8) -> (r: (i64, i64, i64, i64))
    requires
        visible_rect_defined(*area, side),
    ensures
        side == SIDE_NONE ==> r == (area.start_x, area.start_y,
            (area.end_x - area.start_x) as i64, (area.end_y - area.start_y) as i64),
        side != SIDE_NONE ==> r == (area.new_start_x, area.new_start_y,
            (area.new_end_x - area.new_start_x) as i64, (area.new_end_y - area.new_start_y) as i64),
{
    if side == SIDE_NONE {
        (area.start_x, area.start_y, area.end_x - area.start_x, area.end_y - area.start_y)
    } else {
        (area.new_start_x, area.new_start_y, area.new_end_x - area.new_start_x, area.new_end_y - area.new_start_y)
    }
}

/// The selection that crop mode starts with: the whole picture, which the
/// drawing area of the given size shows inset by the offsets.
pub fn calculate_crop_area(x_offset: i64, y_offset: i64, width_image: i64, height_image: i64) -> (r: CropArea)
    requires
        fits_i64(width_image - x_offset),
        fits_i64(height_image - y_offset),
    ensures
        r == CropArea::spec_with_corners(x_offset, y_offset,
            (width_image - x_offset) as i64, (height_image - y_offset) as i64),
{
    CropArea::new_with_params(x_offset, y_offset, width_image - x_offset, height_image - y_offset)
}

pub open spec fn spec_crop_area_invalid(area: CropArea) -> bool {
    ||| area.start_x == area.end_x
    ||| area.start_y == area.end_y
    ||| (area.start_x == 0 && area.start_y == 0 && area.end_x == 0 && area.end_y == 0)
}

/// Whether the selection cannot be confirmed: it has no width, no height,
/// or is the reset selection at the origin.
pub fn is_crop_area_invalid(crop_area: &CropArea) -> (r: bool)
    ensures
        r == spec_crop_area_invalid(*crop_area),
{
    crop_area.start_x == crop_area.end_x || crop_area.start_y == crop_area.end_y || (crop_area.start_x
        == 0 && crop_area.start_y == 0 && crop_area.end_x == 0 && crop_area.end_y == 0)
}

/// The cursor shown while the pointer moves near an edge: an open hand,
/// or a closed one while an edge is held.
pub fn motion_cursor_name(side_selected: i8) -> (r: &'static str)
    ensures
        side_selected == SIDE_NONE ==> r@ == "grab"@,
        side_selected != SIDE_NONE ==> r@ == "grabbing"@,
{
    if side_selected == SIDE_NONE {
        "grab"
    } else {
        "grabbing"
    }
}

/// A press near an edge grabs an edge, and a press elsewhere grabs none.
pub proof fn law_grabbed_side_iff_near_edge(area: CropArea, px: int, py: int)
    ensures
        (spec_side(px, py, area) != SIDE_NONE) == area_near_edge(px, py, area),
        SIDE_NONE <= spec_side(px, py, area) <= SIDE_BOTTOM,
{
}

/// A press near an edge followed by the end of the drag, with no drag
/// update between them, leaves the selection as it was.
pub proof fn law_click_without_drag_keeps_selection(area: CropArea, px: int, py: int)
    requires
        area_near_edge(px, py, area),
    ensures
        committed(grabbed(area, px, py)) == CropArea::spec_with_corners(
            area.start_x, area.start_y, area.end_x, area.end_y),
{
}

/// A press never moves the committed corners.
pub proof fn law_press_keeps_corners(area: CropArea, px: int, py: int)
    ensures
        grabbed(area, px, py).same_corners(area),
{
}

/// A drag moves only the grabbed edge of the pending rectangle; the
/// committed corners and the other three pending edges stay.
pub proof fn law_drag_moves_only_grabbed_edge(
    area: CropArea,
    crop_mode_active: bool,
    side: i8,
    offset_x: int,
    offset_y: int,
    image_width: int,
    image_height: int,
    dx: int,
    dy: int,
)
    ensures
        ({
            let d = dragged(area, crop_mode_active, side, offset_x, offset_y, image_width, image_height, dx, dy);
            &&& d.same_corners(area)
            &&& side != SIDE_LEFT ==> d.new_start_x == area.new_start_x
            &&& side != SIDE_RIGHT ==> d.new_end_x == area.new_end_x
            &&& side != SIDE_TOP ==> d.new_start_y == area.new_start_y
            &&& side != SIDE_BOTTOM ==> d.new_end_y == area.new_end_y
        }),
{
}

/// Where the picture is drawn between `offset` and `size - offset`, a
/// dragged edge ends up on the picture: between those two bounds.
pub proof fn law_drag_keeps_edge_on_picture(
    area: CropArea,
    crop_mode_active: bool,
    side: i8,
    offset_x: int,
    offset_y: int,
    image_width: int,
    image_height: int,
    dx: int,
    dy: int,
)
    requires
        drag_applies(area, crop_mode_active, offset_x, offset_y, image_width, image_height),
        fits_i64(offset_x),
        fits_i64(offset_y),
        fits_i64(image_width - offset_x),
        fits_i64(image_height - offset_y),
        offset_x <= image_width - offset_x,
        offset_y <= image_height - offset_y,
    ensures
        ({
            let d = dragged(area, crop_mode_active, side, offset_x, offset_y, image_width, image_height, dx, dy);
            &&& side == SIDE_LEFT ==> offset_x <= d.new_start_x <= image_width - offset_x
            &&& side == SIDE_RIGHT ==> offset_x <= d.new_end_x <= image_width - offset_x
            &&& side == SIDE_TOP ==> offset_y <= d.new_start_y <= image_height - offset_y
            &&& side == SIDE_BOTTOM ==> offset_y <= d.new_end_y <= image_height - offset_y
        }),
{
}

/// A confirmed cut has a positive width and height: its corners come out
/// in order whichever way the selection was drawn.
pub proof fn law_confirmed_bounds_ordered(area: CropArea, crop_mode_active: bool, offset_x: int, offset_y: int)
    ensures
        spec_confirm_bounds(area, crop_mode_active, offset_x, offset_y) matches Some(b) ==> b.0 < b.2 && b.1 < b.3,
        spec_confirm_bounds(area, crop_mode_active, offset_x, offset_y) matches Some(b) ==> b.2 - b.0 == (
            area.end_x - area.start_x) || b.2 - b.0 == (area.start_x - area.end_x),
{
}

/// A selection with no width or no height is invalid, and a confirm cuts
/// nothing from it.
pub proof fn law_invalid_selection_cuts_nothing(area: CropArea, crop_mode_active: bool, offset_x: int, offset_y: int)
    requires
        area.start_x == area.end_x || area.start_y == area.end_y,
    ensures
        spec_crop_area_invalid(area),
        spec_confirm_bounds(area, crop_mode_active, offset_x, offset_y) is None,
{
}

/// The reset selection cannot be confirmed.
pub proof fn law_reset_selection_invalid()
    ensures
        spec_crop_area_invalid(CropArea::spec_with_corners(0, 0, 0, 0)),
{
}

/// Ending a drag on an area whose pending rectangle equals its corners
/// gives back the same area.
pub proof fn law_commit_is_identity_when_nothing_pending(area: CropArea)
    requires
        area.pending_matches_corners(),
    ensures
        committed(area) == area,
{
}

/// After a confirm the committed corners go back to the origin; the
/// pending rectangle stays as it was.
pub fn reset_corners(area: &mut CropArea)
    ensures
        *final(area) == (CropArea { start_x: 0, start_y: 0, end_x: 0, end_y: 0, ..*old(area) }),
{
    area.start_x = 0;
    area.start_y = 0;
    area.end_x = 0;
    area.end_y = 0;
}

/// The area with its x corners, its y corners, or both exchanged.
pub open spec fn swap_corners(area: CropArea, swap_x: bool, swap_y: bool) -> CropArea {
    CropArea {
        start_x: if swap_x { area.end_x } else { area.start_x },
        end_x: if swap_x { area.start_x } else { area.end_x },
        start_y: if swap_y { area.end_y } else { area.start_y },
        end_y: if swap_y { area.start_y } else { area.end_y },
        ..area
    }
}

/// What a confirm cuts does not depend on the corner the selection was
/// drawn from: exchanging the x corners, the y corners or both gives the
/// same cut, and the same answer on whether there is one.
pub proof fn law_confirm_ignores_corner_order(
    area: CropArea,
    crop_mode_active: bool,
    offset_x: int,
    offset_y: int,
    swap_x: bool,
    swap_y: bool,
)
    ensures
        spec_confirm_bounds(swap_corners(area, swap_x, swap_y), crop_mode_active, offset_x, offset_y)
            == spec_confirm_bounds(area, crop_mode_active, offset_x, offset_y),
        confirm_defined(swap_corners(area, swap_x, swap_y), crop_mode_active, offset_x, offset_y)
            == confirm_defined(area, crop_mode_active, offset_x, offset_y),
{
}

/// A press grabs an edge only within 10 pixels of it: the side returned
/// names an edge whose distance to the pointer is below 10, and where no
/// edge is returned every edge is 10 pixels away or more.
pub proof fn law_grab_only_within_ten_pixels(area: CropArea, px: int, py: int)
    ensures
        spec_side(px, py, area) == SIDE_LEFT ==> -10 < px - area.start_x < 10,
        spec_side(px, py, area) == SIDE_RIGHT ==> -10 < px - area.end_x < 10,
        spec_side(px, py, area) == SIDE_TOP ==> -10 < py - area.start_y < 10,
        spec_side(px, py, area) == SIDE_BOTTOM ==> -10 < py - area.end_y < 10,
        spec_side(px, py, area) == SIDE_NONE ==> {
            &&& (px - area.start_x <= -10 || px - area.start_x >= 10)
            &&& (px - area.end_x <= -10 || px - area.end_x >= 10)
            &&& (py - area.start_y <= -10 || py - area.start_y >= 10)
            &&& (py - area.end_y <= -10 || py - area.end_y >= 10)
        },
        spec_side(px, py, area) == SIDE_LEFT || spec_side(px, py, area) == SIDE_RIGHT
            || spec_side(px, py, area) == SIDE_TOP || spec_side(px, py, area) == SIDE_BOTTOM
            || spec_side(px, py, area) == SIDE_NONE,
{
}

/// The pointer counts as near the rectangle exactly when its distance to
/// one of the four edges is below 10 pixels.
pub proof fn law_near_edge_is_distance_below_ten(px: int, x_start: int, x_end: int, py: int, y_start: int, y_end: int)
    ensures
        spec_near_edge(px, x_start, x_end, py, y_start, y_end) == (
            (-10 < px - x_start < 10) || (-10 < px - x_end < 10)
            || (-10 < py - y_start < 10) || (-10 < py - y_end < 10)),
{
}

/// Where a drag applies (crop mode on, the start corner on the picture),
/// the grabbed edge of the pending rectangle moves to the committed edge
/// plus the drag, in either direction, as long as that stays on the
/// picture; past the picture's border it stops at the border.
pub proof fn law_drag_moves_edge_by_offset(
    area: CropArea,
    side: i8,
    offset_x: i64,
    offset_y: i64,
    image_width: i64,
    image_height: i64,
    dx: int,
    dy: int,
)
    requires
        area.start_x >= offset_x,
        area.start_y >= offset_y,
        area.start_x <= image_width - offset_x,
        area.start_y <= image_height - offset_y,
        fits_i64(image_width - offset_x),
        fits_i64(image_height - offset_y),
    ensures
        ({
            let d = dragged(area, true, side, offset_x as int, offset_y as int, image_width as int,
                image_height as int, dx, dy);
            let lx = offset_x as int;
            let hx = image_width - offset_x;
            let ly = offset_y as int;
            let hy = image_height - offset_y;
            &&& side == SIDE_LEFT ==> {
                &&& lx <= area.start_x + dx <= hx ==> d.new_start_x == area.start_x + dx
                &&& area.start_x + dx < lx ==> d.new_start_x == lx
                &&& area.start_x + dx > hx ==> d.new_start_x == hx
            }
            &&& side == SIDE_RIGHT ==> {
                &&& lx <= area.end_x + dx <= hx ==> d.new_end_x == area.end_x + dx
                &&& area.end_x + dx < lx ==> d.new_end_x == lx
                &&& area.end_x + dx > hx && lx <= hx ==> d.new_end_x == hx
            }
            &&& side == SIDE_TOP ==> {
                &&& ly <= area.start_y + dy <= hy ==> d.new_start_y == area.start_y + dy
                &&& area.start_y + dy < ly ==> d.new_start_y == ly
                &&& area.start_y + dy > hy ==> d.new_start_y == hy
            }
            &&& side == SIDE_BOTTOM ==> {
                &&& ly <= area.end_y + dy <= hy ==> d.new_end_y == area.end_y + dy
                &&& area.end_y + dy < ly ==> d.new_end_y == ly
                &&& area.end_y + dy > hy && ly <= hy ==> d.new_end_y == hy
            }
        }),
{
}

/// Outside crop mode, or with the selection's start corner off the
/// picture, a drag changes nothing.
pub proof fn law_drag_ignored_off_picture(
    area: CropArea,
    crop_mode_active: bool,
    side: i8,
    offset_x: int,
    offset_y: int,
    image_width: int,
    image_height: int,
    dx: int,
    dy: int,
)
    requires
        !crop_mode_active || area.start_x < offset_x || area.start_y < offset_y
            || area.start_x > image_width - offset_x || area.start_y > image_height - offset_y,
    ensures
        dragged(area, crop_mode_active, side, offset_x, offset_y, image_width, image_height, dx, dy) == area,
{
}

/// Ending a drag commits the pending rectangle: the new corners are the
/// pending edges of the area, whatever its committed corners were, and
/// nothing is left pending.
pub proof fn law_end_drag_commits_pending(area: CropArea)
    ensures
        committed(area).start_x == area.new_start_x,
        committed(area).start_y == area.new_start_y,
        committed(area).end_x == area.new_end_x,
        committed(area).end_y == area.new_end_y,
        committed(area).pending_matches_corners(),
{
}

/// A confirm cuts exactly when crop mode is on and the selection has a
/// width and a height. The cut's left and right edges, plus the horizontal
/// offset, are the selection's two x corners, left one first; likewise
/// for the top and bottom edges.
pub proof fn law_confirm_cuts_selection(area: CropArea, crop_mode_active: bool, offset_x: int, offset_y: int)
    ensures
        (spec_confirm_bounds(area, crop_mode_active, offset_x, offset_y) is Some) == (crop_mode_active
            && area.start_x != area.end_x && area.start_y != area.end_y),
        spec_confirm_bounds(area, crop_mode_active, offset_x, offset_y) matches Some(b) ==> {
            &&& b.0 < b.2
            &&& b.1 < b.3
            &&& ((b.0 + offset_x == area.start_x && b.2 + offset_x == area.end_x)
                || (b.0 + offset_x == area.end_x && b.2 + offset_x == area.start_x))
            &&& ((b.1 + offset_y == area.start_y && b.3 + offset_y == area.end_y)
                || (b.1 + offset_y == area.end_y && b.3 + offset_y == area.start_y))
        },
{
}

/// Confirm is disabled exactly for the selections that a confirm in crop
/// mode would cut nothing from, and the answer does not depend on the
/// corner the selection was drawn from.
pub proof fn law_invalid_iff_nothing_to_cut(
    area: CropArea,
    offset_x: int,
    offset_y: int,
    swap_x: bool,
    swap_y: bool,
)
    ensures
        spec_crop_area_invalid(area) == (spec_confirm_bounds(area, true, offset_x, offset_y) is None),
        spec_crop_area_invalid(area) == (area.start_x == area.end_x || area.start_y == area.end_y),
        spec_crop_area_invalid(swap_corners(area, swap_x, swap_y)) == spec_crop_area_invalid(area),
{
}

} // verus!
