//! Where a popup goes: the middle of the screen, by percentages.

use ratatui::layout::{Constraint, Direction, Layout, Rect};
use vstd::prelude::*;

verus! {

/// A rectangle of terminal cells: its top left cell and its extent.
#[derive(Clone, Copy, Debug, PartialEq, Eq, Structural)]
pub struct Area {
    pub x: u16,
    pub y: u16,
    pub width: u16,
    pub height: u16,
}

/// The direction in which an area is cut into parts.
#[derive(Clone, Copy, Debug, PartialEq, Eq, Structural)]
pub enum Axis {
    /// Parts side by side.
    Horizontal,
    /// Parts one above the other.
    Vertical,
}

impl Area {
    /// `inner` lies within this area: no cell of it is left of, above,
    /// right of or below this area.
    pub open spec fn encloses(self, inner: Area) -> bool {
        &&& self.x <= inner.x
        &&& inner.x + inner.width <= self.x + self.width
        &&& self.y <= inner.y
        &&& inner.y + inner.height <= self.y + self.height
    }

    /// `part` is a part of this area cut along `axis`: across the cut it
    /// has the extent of the area, along the cut it lies within the area.
    pub open spec fn has_part(self, axis: Axis, part: Area) -> bool {
        match axis {
            Axis::Vertical => {
                &&& part.x == self.x
                &&& part.width == self.width
                &&& self.y <= part.y
                &&& part.y + part.height <= self.y + self.height
            },
            Axis::Horizontal => {
                &&& part.y == self.y
                &&& part.height == self.height
                &&& self.x <= part.x
                &&& part.x + part.width <= self.x + self.width
            },
        }
    }
}

/// `Layout::split` on `area`, cut along `axis` by three percentage
/// constraints; the second of the three parts is returned. The part keeps
/// the area's extent across the cut, which the crate copies from the area,
/// and lies within the area along the cut, where the crate requires of its
/// solver that every cut lie between the two ends of the area. Where between
/// them the solver puts the cuts is not stated.
#[verifier::external_body]
fn middle_part(axis: Axis, before: u16, middle: u16, after: u16, area: Area) -> (part: Area)
    ensures
        area.has_part(axis, part),
{
    let direction = match axis {
        Axis::Horizontal => Direction::Horizontal,
        Axis::Vertical => Direction::Vertical,
    };
    let constraints = [
        Constraint::Percentage(before),
        Constraint::Percentage(middle),
        Constraint::Percentage(after),
    ];
    let whole = Rect { x: area.x, y: area.y, width: area.width, height: area.height };
    let part = Layout::default().direction(direction).constraints(constraints).split(whole)[1];
    Area { x: part.x, y: part.y, width: part.width, height: part.height }
}

/// The three percentages that leave `percent` in the middle and share the
/// rest evenly before and after it.
pub open spec fn centered_percentages(percent: u16) -> (u16, u16, u16) {
    (((100 - percent) / 2) as u16, percent, ((100 - percent) / 2) as u16)
}

/// The percentages that centre a part of `percent` percent.
pub fn centered_split(percent: u16) -> (parts: (u16, u16, u16))
    requires
        percent <= 100,
    ensures
        parts == centered_percentages(percent),
        parts.0 + parts.1 + parts.2 <= 100,
        parts.0 + parts.1 + parts.2 >= 99,
{
    let margin = (100 - percent) / 2;
    (margin, percent, margin)
}

/// A part of a part lies within the whole, whichever way each was cut.
pub proof fn lemma_part_of_part_is_enclosed(
    whole: Area,
    first: Axis,
    band: Area,
    second: Axis,
    part: Area,
)
    requires
        whole.has_part(first, band),
        band.has_part(second, part),
    ensures
        whole.encloses(band),
        whole.encloses(part),
{
}

/// The area of a popup that takes `percent_x` percent of the width and
/// `percent_y` percent of the height of `r`, in the middle of it: `r` is cut
/// into three bands one above the other, and the middle band into three parts
/// side by side. The popup is the middle part of the middle band, and so
/// lies within `r`.
pub fn centered_rect(percent_x: u16, percent_y: u16, r: Area) -> (popup: Area)
    requires
        percent_x <= 100,
        percent_y <= 100,
    ensures
        r.encloses(popup),
{
    let rows = centered_split(percent_y);
    let band = middle_part(Axis::Vertical, rows.0, rows.1, rows.2, r);
    let columns = centered_split(percent_x);
    let popup = middle_part(Axis::Horizontal, columns.0, columns.1, columns.2, band);
    proof {
        lemma_part_of_part_is_enclosed(r, Axis::Vertical, band, Axis::Horizontal, popup);
    }
    popup
}

} // verus!
