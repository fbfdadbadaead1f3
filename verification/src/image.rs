//! A static image widget.  The image itself is plain data — RGBA bytes with
//! their dimensions — so the core never touches the rasterizer's own types;
//! the rendering collaborator converts to and from its pixel formats.

use std::rc::Rc;

use vstd::prelude::*;
use crate::button::COORD_CAP;
use crate::button::clipped_box;
use crate::button::spec_clipped_box;
use crate::button::spec_coords_ok;
use crate::drawing::DrawCommand;
use crate::drawing::DrawCtx;
use crate::drawing::spec_sat_i64;
use crate::geometry::AreaBox;

verus! {

/// Relies on `Rc::clone`: the result is a handle to the same shared
/// allocation, so as a value it equals the original.
#[verifier::external_body]
fn clone_rc(v: &Rc<Vec<u8>>) -> (r: Rc<Vec<u8>>)
    ensures
        r == *v,
{
    Rc::clone(v)
}

/// An RGBA image as plain values: four bytes per pixel, row-major.  The bytes
/// sit behind a shared handle so that re-issuing the image as a drawing
/// intent every frame does not copy them.
pub struct ImageData {
    /// Width in pixels.
    pub width: u32,
    /// Height in pixels.
    pub height: u32,
    /// The pixel bytes; exactly `4 * width * height` of them.
    pub data: Rc<Vec<u8>>,
}

impl ImageData {
    /// Well-formedness: the byte count matches the dimensions.
    pub open spec fn inv(self) -> bool {
        self.data@.len() == 4 * self.width * self.height
    }

    /// A one-pixel transparent image, the placeholder before a real image is
    /// set.
    pub fn blank() -> (r: ImageData)
        ensures
            r.inv(),
            r.width == 1 && r.height == 1,
    {
        let mut data: Vec<u8> = Vec::new();
        data.push(0);
        data.push(0);
        data.push(0);
        data.push(0);
        ImageData { width: 1, height: 1, data: Rc::new(data) }
    }
}

/// The abstract state of an image widget, for use in contracts.
pub struct ImageView {
    pub pos: (i32, i32),
    pub g_pos: (i32, i32),
    pub size: (u32, u32),
    pub img_width: u32,
    pub img_height: u32,
    pub img_data: Seq<u8>,
    pub need_update: bool,
}

pub struct ImageControl {
    /// Position relative to the parent.
    pub pos: (i32, i32),
    /// Global position, written by the parent on every re-propagation.
    pub g_pos: (i32, i32),
    /// Extent `(width, height)` the image is scaled into.
    pub size: (u32, u32),
    /// The image shown.
    pub img: ImageData,
    /// The self-dirty flag: set when the image changes, cleared by drawing.
    pub need_update: bool,
}

impl View for ImageControl {
    type V = ImageView;

    open spec fn view(&self) -> ImageView {
        ImageView {
            pos: self.pos,
            g_pos: self.g_pos,
            size: self.size,
            img_width: self.img.width,
            img_height: self.img.height,
            img_data: self.img.data@,
            need_update: self.need_update,
        }
    }
}

impl ImageControl {
    /// Well-formedness: coordinates within the layout bound and the image's
    /// byte count matching its dimensions.
    pub open spec fn inv(self) -> bool {
        spec_coords_ok(self.pos, self.g_pos, self.size) && self.img.inv()
    }

    /// The drawing intents of one frame: the image blitted into the widget's
    /// rectangle.
    pub open spec fn spec_draw(self, ox: int, oy: int) -> Seq<DrawCommand> {
        seq![
            DrawCommand::Image {
                x: spec_sat_i64(self.pos.0 + ox) as i64,
                y: spec_sat_i64(self.pos.1 + oy) as i64,
                width: self.size.0 as u64,
                height: self.size.1 as u64,
                source_width: self.img.width,
                source_height: self.img.height,
                data: self.img.data,
            },
        ]
    }

    /// An image widget at `(x, y)` with extent `(w, h)`, showing the blank
    /// placeholder.
    pub fn new(x: i32, y: i32, w: u32, h: u32) -> (r: ImageControl)
        requires
            -COORD_CAP <= x <= COORD_CAP,
            -COORD_CAP <= y <= COORD_CAP,
            w <= COORD_CAP,
            h <= COORD_CAP,
        ensures
            r.inv(),
            r.pos == (x, y) && r.g_pos == (x, y),
            r.size == (w, h),
            r.need_update,
    {
        ImageControl {
            pos: (x, y),
            g_pos: (x, y),
            size: (w, h),
            img: ImageData::blank(),
            need_update: true,
        }
    }

    /// Replaces the image shown.
    pub fn set_img(&mut self, img: ImageData)
        requires
            img.inv(),
        ensures
            *final(self) == (ImageControl { img: img, need_update: true, ..*old(self) }),
            final(self).img.inv(),
    {
        self.img = img;
        self.need_update = true;
    }

    /// A copy of this image widget.  Images carry no identity of their own;
    /// the owning slot's identity distinguishes clones.
    pub fn duplicate(&self) -> (r: ImageControl)
        ensures
            r == (ImageControl { need_update: true, ..*self }),
    {
        ImageControl {
            pos: self.pos,
            g_pos: self.g_pos,
            size: self.size,
            img: ImageData { width: self.img.width, height: self.img.height, data: clone_rc(&self.img.data) },
            need_update: true,
        }
    }

    /// Whether the image needs to be painted again; pure.
    pub fn needs_redraw(&self) -> (r: bool)
        ensures
            r == self.need_update,
    {
        self.need_update
    }

    /// Issues this frame's drawing intents and clears the self-dirty flag.
    pub fn draw(&mut self, ctx: &mut DrawCtx)
        requires
            old(self).inv(),
        ensures
            *final(self) == (ImageControl { need_update: false, ..*old(self) }),
            final(ctx).commands@ == old(ctx).commands@ + old(self).spec_draw(
                old(ctx).offset_x as int,
                old(ctx).offset_y as int,
            ),
            final(ctx).offset_x == old(ctx).offset_x,
            final(ctx).offset_y == old(ctx).offset_y,
            final(ctx).widget_size == old(ctx).widget_size,
    {
        ctx.image(
            self.pos.0 as i64,
            self.pos.1 as i64,
            self.size.0 as u64,
            self.size.1 as u64,
            self.img.width,
            self.img.height,
            clone_rc(&self.img.data),
        );
        self.need_update = false;
        proof {
            assert(final(ctx).commands@ =~= old(ctx).commands@ + old(self).spec_draw(
                old(ctx).offset_x as int,
                old(ctx).offset_y as int,
            ));
        }
    }

    /// The box the image occupies: its own rectangle, clipped into the box
    /// the parent affords.
    pub fn layout(&self, max_box: AreaBox) -> (r: AreaBox)
        requires
            self.inv(),
        ensures
            r == spec_clipped_box(self.pos, self.size, max_box),
    {
        clipped_box(self.pos, self.size, max_box)
    }
}

} // verus!
