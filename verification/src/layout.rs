//! Where the error popup goes.

use vstd::prelude::*;

verus! {

/// A rectangle of the screen, in cells.
#[derive(Debug, Clone, Copy, PartialEq, Eq, Structural)]
pub struct Area {
    pub x: u16,
    pub y: u16,
    pub width: u16,
    pub height: u16,
}

/// An area that ends on the screen: its right and lower edge can be counted.
pub open spec fn fits(area: Area) -> bool {
    area.x + area.width <= u16::MAX && area.y + area.height <= u16::MAX
}

/// The area of the popup in `area`: half as wide and half as high, rounded
/// down, and in the middle of it.
pub open spec fn centered_half(area: Area) -> Area {
    Area {
        x: (area.x + (area.width - area.width / 2) / 2) as u16,
        y: (area.y + (area.height - area.height / 2) / 2) as u16,
        width: area.width / 2,
        height: area.height / 2,
    }
}

/// The area of the error popup in `area`.
pub fn popup_area(area: Area) -> (r: Area)
    requires
        fits(area),
    ensures
        r == centered_half(area),
        fits(r),
        area.x <= r.x && r.x + r.width <= area.x + area.width,
        area.y <= r.y && r.y + r.height <= area.y + area.height,
{
    let width = area.width / 2;
    let height = area.height / 2;
    Area {
        x: area.x + (area.width - width) / 2,
        y: area.y + (area.height - height) / 2,
        width,
        height,
    }
}

} // verus!
