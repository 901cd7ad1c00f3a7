//! Texts and entries of the menus: the screenshot delay label and the
//! monitor choices.

use vstd::prelude::*;

verus! {

/// The label shown for a screenshot delay, in seconds.
pub fn delay_label(delay: u64) -> (r: &'static str)
    ensures
        delay == 0 ==> r@ == "No delay"@,
        delay == 3 ==> r@ == "3 second delay"@,
        delay == 5 ==> r@ == "5 second delay"@,
        delay == 10 ==> r@ == "10 second delay"@,
        delay != 0 && delay != 3 && delay != 5 && delay != 10 ==> r@ == "unknown delay"@,
{
    match delay {
        0 => "No delay",
        3 => "3 second delay",
        5 => "5 second delay",
        10 => "10 second delay",
        _ => "unknown delay",
    }
}

/// The entries of the monitor menu: each monitor's name with its index,
/// which is what choosing the entry selects. With one monitor or none there
/// is nothing to choose and the menu is hidden: `None`.
pub fn monitors_menu_entries(monitors: &Vec<String>) -> (r: Option<Vec<(String, u32)>>)
    ensures
        r is None <==> monitors.len() <= 1,
        r matches Some(entries) ==> {
            &&& entries.len() == monitors.len()
            &&& forall|i: int| 0 <= i < entries.len() ==> (#[trigger] entries@[i]).0@ == monitors@[i]@
                && entries@[i].1 == i as u32
        },
{
    if monitors.len() > 1 {
        let mut entries: Vec<(String, u32)> = Vec::new();
        let mut index: usize = 0;
        while index < monitors.len()
            invariant
                index <= monitors.len(),
                entries.len() == index,
                forall|i: int| 0 <= i < index ==> (#[trigger] entries@[i]).0@ == monitors@[i]@
                    && entries@[i].1 == i as u32,
            decreases monitors.len() - index,
        {
            let name = monitors[index].clone();
            entries.push((name, index as u32));
            index = index + 1;
        }
        Some(entries)
    } else {
        None
    }
}

/// The layout of an RGBA picture with 8 bits per channel, as a pixel
/// buffer takes it: (width, height, bytes per row).
pub fn rgba_layout(width: u32, height: u32) -> (r: (i32, i32, i32))
    requires
        i32::MIN <= (width as i32) * 4 <= i32::MAX,
    ensures
        r.0 == width as i32,
        r.1 == height as i32,
        r.2 == (width as i32) * 4,
{
    let w = width as i32;
    let h = height as i32;
    (w, h, w * 4)
}

} // verus!
