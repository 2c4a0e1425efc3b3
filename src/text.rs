use vstd::prelude::*;

verus! {

/// The left edge at which a line `text_width` pixels wide is centered in an
/// area `area_width` pixels wide: half the area less half the line, each
/// half rounded down. A line wider than the area starts left of it.
pub open spec fn centered_x(area_width: u32, text_width: u32) -> int {
    area_width as int / 2 - text_width as int / 2
}

/// Computes where a line of text `text_width` pixels wide starts so that it
/// is centered in an area `area_width` pixels wide.
pub fn text_center_x(area_width: u32, text_width: u32) -> (r: i32)
    ensures
        r == centered_x(area_width, text_width),
{
    let half_area: i64 = (area_width / 2) as i64;
    let half_text: i64 = (text_width / 2) as i64;
    (half_area - half_text) as i32
}

} // verus!
