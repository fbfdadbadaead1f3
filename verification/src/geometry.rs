//! Axis-aligned bounding regions used both as layout constraints and as
//! computed layout results.

use vstd::prelude::*;

verus! {

/// An axis-aligned region described by four signed extents.
///
/// `left`/`top` are the low edges, `right`/`down` the high edges.  A box is
/// ordinarily non-inverted (`left <= right`, `top <= down`), but the type does
/// not force that: an inverted box simply has zero size (see [`AreaBox::to_size`]).
#[derive(Debug, Clone, Copy, PartialEq, Eq, Structural)]
pub struct AreaBox {
    pub left: isize,
    pub right: isize,
    pub top: isize,
    pub down: isize,
}

impl AreaBox {
    /// The box with all four extents zero.
    pub fn zero() -> (r: AreaBox)
        ensures
            r.left == 0 && r.right == 0 && r.top == 0 && r.down == 0,
    {
        AreaBox { left: 0, right: 0, top: 0, down: 0 }
    }

    /// The box spanning the whole representable range.
    pub fn max_box() -> (r: AreaBox)
        ensures
            r.left == isize::MIN && r.right == isize::MAX,
            r.top == isize::MIN && r.down == isize::MAX,
    {
        AreaBox { left: isize::MIN, right: isize::MAX, top: isize::MIN, down: isize::MAX }
    }

    /// Translates all four extents uniformly by `offset`.
    pub fn expand(self, offset: isize) -> (r: Self)
        requires
            isize::MIN <= self.left + offset <= isize::MAX,
            isize::MIN <= self.right + offset <= isize::MAX,
            isize::MIN <= self.top + offset <= isize::MAX,
            isize::MIN <= self.down + offset <= isize::MAX,
        ensures
            r.left == self.left + offset,
            r.right == self.right + offset,
            r.top == self.top + offset,
            r.down == self.down + offset,
    {
        Self {
            left: self.left + offset,
            right: self.right + offset,
            top: self.top + offset,
            down: self.down + offset,
        }
    }

    /// Widens `self` to the union of the two regions: the minimum of the low
    /// edges and the maximum of the high edges.  Used to accumulate bounding
    /// regions.
    pub fn fit_in(self, area_box: &AreaBox) -> (r: Self)
        ensures
            r.left == if self.left <= area_box.left { self.left } else { area_box.left },
            r.right == if self.right >= area_box.right { self.right } else { area_box.right },
            r.top == if self.top <= area_box.top { self.top } else { area_box.top },
            r.down == if self.down >= area_box.down { self.down } else { area_box.down },
    {
        Self {
            left: if self.left <= area_box.left { self.left } else { area_box.left },
            right: if self.right >= area_box.right { self.right } else { area_box.right },
            top: if self.top <= area_box.top { self.top } else { area_box.top },
            down: if self.down >= area_box.down { self.down } else { area_box.down },
        }
    }

    /// The width spanned by the box, an inverted box counting as zero wide.
    pub open spec fn spec_width(self) -> int {
        if self.right >= self.left {
            self.right - self.left
        } else {
            0
        }
    }

    /// The height spanned by the box, an inverted box counting as zero tall.
    pub open spec fn spec_height(self) -> int {
        if self.down >= self.top {
            self.down - self.top
        } else {
            0
        }
    }

    /// Derives `(width, height)` as `(right - left, down - top)`.  A negative
    /// extent difference means the box is inverted, which is a caller error;
    /// it is clamped to zero rather than propagated as a negative dimension.
    pub fn to_size(&self) -> (r: (u64, u64))
        ensures
            r.0 == self.spec_width(),
            r.1 == self.spec_height(),
    {
        let w: i128 = self.right as i128 - self.left as i128;
        let h: i128 = self.down as i128 - self.top as i128;
        (
            if w >= 0 { w as u64 } else { 0 },
            if h >= 0 { h as u64 } else { 0 },
        )
    }
}

/// Whether the point `(px, py)` lies in the closed rectangle whose corner is
/// `(x, y)` and whose extent is `(w, h)`.
pub fn is_in_area(px: i32, py: i32, x: i32, y: i32, w: i32, h: i32) -> (r: bool)
    requires
        i32::MIN <= x + w <= i32::MAX,
        i32::MIN <= y + h <= i32::MAX,
    ensures
        r == (x <= px <= x + w && y <= py <= y + h),
{
    (px >= x) && (px <= x + w) && (py >= y) && (py <= y + h)
}

} // verus!
