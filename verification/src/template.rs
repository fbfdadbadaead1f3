//! A do-nothing widget kept as the scaffold for writing new controls: every
//! capability method is the safe default.

use vstd::prelude::*;
use crate::button::COORD_CAP;
use crate::button::spec_coords_ok;
use crate::geometry::AreaBox;

verus! {

/// The abstract state of a template widget, for use in contracts.
pub struct TemplateView {
    pub pos: (i32, i32),
    pub g_pos: (i32, i32),
    pub size: (u32, u32),
    pub need_update: bool,
}

pub struct TemplateControl {
    /// Position relative to the parent.
    pub pos: (i32, i32),
    /// Global position, written by the parent on every re-propagation.
    pub g_pos: (i32, i32),
    /// Extent `(width, height)`.
    pub size: (u32, u32),
    /// The self-dirty flag; nothing sets it after construction.
    pub need_update: bool,
}

impl View for TemplateControl {
    type V = TemplateView;

    open spec fn view(&self) -> TemplateView {
        TemplateView {
            pos: self.pos,
            g_pos: self.g_pos,
            size: self.size,
            need_update: self.need_update,
        }
    }
}

impl TemplateControl {
    /// Well-formedness: coordinates within the layout bound.
    pub open spec fn inv(self) -> bool {
        spec_coords_ok(self.pos, self.g_pos, self.size)
    }

    /// A template widget at `(x, y)` with extent `(w, h)`.
    pub fn new(x: i32, y: i32, w: u32, h: u32) -> (r: TemplateControl)
        requires
            -COORD_CAP <= x <= COORD_CAP,
            -COORD_CAP <= y <= COORD_CAP,
            w <= COORD_CAP,
            h <= COORD_CAP,
        ensures
            r.inv(),
            r.pos == (x, y) && r.g_pos == (x, y),
            r.size == (w, h),
            r.need_update,
    {
        TemplateControl { pos: (x, y), g_pos: (x, y), size: (w, h), need_update: true }
    }

    /// A copy of this template widget.
    pub fn duplicate(&self) -> (r: TemplateControl)
        ensures
            r == (TemplateControl { need_update: true, ..*self }),
    {
        TemplateControl { pos: self.pos, g_pos: self.g_pos, size: self.size, need_update: true }
    }

    /// A template never asks to be painted.
    pub fn needs_redraw(&self) -> (r: bool)
        ensures
            r == false,
    {
        false
    }

    /// The default layout: the template occupies nothing.
    pub fn layout(&self, _max_box: AreaBox) -> (r: AreaBox)
        ensures
            r.left == 0 && r.right == 0 && r.top == 0 && r.down == 0,
    {
        AreaBox::zero()
    }
}

} // verus!
