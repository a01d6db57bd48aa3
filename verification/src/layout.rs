use ratatui::layout::{Constraint, Layout, Rect};
use vstd::prelude::*;

verus! {

/// A rectangle of the screen, in character cells.
#[derive(Clone, Copy, Debug, PartialEq, Eq, Structural)]
pub struct Area {
    pub x: u16,
    pub y: u16,
    pub width: u16,
    pub height: u16,
}

impl Area {
    /// This area takes up rows of `outer` only, at its full width.
    pub open spec fn is_band_of(self, outer: Area) -> bool {
        &&& self.x == outer.x
        &&& self.width == outer.width
        &&& outer.y + outer.height <= u16::MAX ==> {
            &&& outer.y <= self.y
            &&& self.y + self.height <= outer.y + outer.height
        }
    }
}

/// Three bands of `outer`, one below the other, that leave no row over: the
/// first has `top` rows and the last has `bottom` rows.
pub open spec fn are_stacked(
    outer: Area,
    top: u16,
    bottom: u16,
    bands: (Area, Area, Area),
) -> bool {
    &&& bands.0.y == outer.y
    &&& bands.0.height == top
    &&& bands.1.y == outer.y + top
    &&& bands.1.height == outer.height - top - bottom
    &&& bands.2.y == outer.y + outer.height - bottom
    &&& bands.2.height == bottom
}

/// Three bands of `outer`, one below the other, where it has not the rows for
/// all: the middle one has its `middle` rows as far as there are any, and what
/// is left goes to the others, up to `top` and `bottom` rows.
pub open spec fn are_squeezed(
    outer: Area,
    top: u16,
    middle: u16,
    bottom: u16,
    bands: (Area, Area, Area),
) -> bool {
    &&& bands.0.y == outer.y
    &&& bands.1.y == bands.0.y + bands.0.height
    &&& bands.2.y == bands.1.y + bands.1.height
    &&& bands.2.y + bands.2.height == outer.y + outer.height
    &&& bands.1.height == if middle <= outer.height {
        middle
    } else {
        outer.height
    }
    &&& bands.0.height <= top
    &&& bands.2.height <= bottom
}

/// Splits an area into three bands with `Layout::vertical` and
/// `Layout::areas` of ratatui: a band of `top` rows, one of at least `middle`
/// rows that takes what is left, and one of `bottom` rows.
///
/// Each band has the width of the area and lies within it. Where the area has
/// the rows for all three, the outer bands have just the rows asked for. Where
/// it has not, the bands still touch and leave no row over, and the middle one
/// comes first. How the other two then share what is left is not said: all
/// ways cost the same to the solver behind the call, which walks hash maps.
#[verifier::external_body]
fn split_rows(area: Area, top: u16, middle: u16, bottom: u16) -> (bands: (Area, Area, Area))
    ensures
        bands.0.is_band_of(area),
        bands.1.is_band_of(area),
        bands.2.is_band_of(area),
        area.y + area.height <= u16::MAX && middle <= i16::MAX && top + middle + bottom
            <= area.height ==> are_stacked(area, top, bottom, bands),
        area.y + area.height <= u16::MAX && middle <= i16::MAX && top + middle + bottom
            > area.height ==> are_squeezed(area, top, middle, bottom, bands),
{
    let rows = [Constraint::Length(top), Constraint::Min(middle), Constraint::Length(bottom)];
    let Area { x, y, width, height } = area;
    let [a, b, c] = Layout::vertical(rows).areas(Rect { x, y, width, height });
    (
        Area { x: a.x, y: a.y, width: a.width, height: a.height },
        Area { x: b.x, y: b.y, width: b.width, height: b.height },
        Area { x: c.x, y: c.y, width: c.width, height: c.height },
    )
}

/// The parts of the screen.
#[derive(Clone, Copy, Debug, PartialEq, Eq, Structural)]
pub struct ScreenAreas {
    pub header: Area,
    pub list: Area,
    pub footer: Area,
}

impl ScreenAreas {
    /// The parts lie within the screen at its full width; a screen of twelve
    /// rows or more has four for the header, four for the footer, and the rest
    /// for the list. On a lower one the list has four rows as far as there are
    /// any, and the header and the footer share what is left.
    pub open spec fn fit(self, screen: Area) -> bool {
        &&& self.header.is_band_of(screen)
        &&& self.list.is_band_of(screen)
        &&& self.footer.is_band_of(screen)
        &&& screen.height >= 12 && screen.y + screen.height <= u16::MAX ==> are_stacked(
            screen,
            4,
            4,
            (self.header, self.list, self.footer),
        )
        &&& screen.height < 12 && screen.y + screen.height <= u16::MAX ==> are_squeezed(
            screen,
            4,
            4,
            4,
            (self.header, self.list, self.footer),
        )
    }
}

/// Shares the screen out between the header, the list and the footer.
pub fn screen_areas(screen: Area) -> (areas: ScreenAreas)
    ensures
        areas.fit(screen),
{
    let (header, list, footer) = split_rows(screen, 4, 4, 4);
    ScreenAreas { header, list, footer }
}

} // verus!
