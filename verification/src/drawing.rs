//! Drawing intents: the core never touches pixels, it appends plain drawing
//! commands to a context, and the rendering collaborator replays them against
//! a real canvas each frame.

use std::rc::Rc;

use vstd::prelude::*;

verus! {

/// How text is aligned within the space given to it.
#[derive(Debug, Clone, Copy, PartialEq, Eq, Structural)]
pub enum TextAlign {
    /// Left alignment, the default for text labels.
    Left,
    Right,
    Center,
}

/// One drawing intent against the abstract canvas.  Coordinates are absolute
/// canvas pixels (any context offset already applied); colors are packed RGBA
/// (see [`crate::color`]).
#[derive(Debug, Clone, PartialEq)]
pub enum DrawCommand {
    /// Fill the whole canvas with one color.
    Clear { color: u32 },
    /// Fill an axis-aligned rectangle.
    FillRect { x: i64, y: i64, width: u64, height: u64, color: u32 },
    /// Fill a rectangle with rounded corners.
    FillRoundRect { x: i64, y: i64, width: u64, height: u64, radius: u64, color: u32 },
    /// Draw a run of text at a baseline position.
    Text { x: i64, y: i64, size: u32, color: u32, bold: bool, align: TextAlign, text: String },
    /// Blit an RGBA image scaled into the given rectangle.
    Image { x: i64, y: i64, width: u64, height: u64, source_width: u32, source_height: u32, data: Rc<Vec<u8>> },
}

/// `v` saturated into the `i64` range, for summing coordinate offsets.
pub open spec fn spec_sat_i64(v: int) -> int {
    if v > i64::MAX as int {
        i64::MAX as int
    } else if v < i64::MIN as int {
        i64::MIN as int
    } else {
        v
    }
}

/// The drawing context handed down through one frame: an intent queue, the
/// translation applied to everything drawn through it, and the size the
/// current widget was given by layout.
pub struct DrawCtx {
    /// The intents issued so far, in paint order: the first command is
    /// painted first, later ones on top.
    pub commands: Vec<DrawCommand>,
    /// The horizontal translation applied to issued coordinates.
    pub offset_x: i64,
    /// The vertical translation applied to issued coordinates.
    pub offset_y: i64,
    /// The size layout gave the widget being drawn, `(width, height)`.
    pub widget_size: (u64, u64),
}

impl DrawCtx {
    /// An empty context with no translation; the widget size starts at the
    /// whole representable range until layout narrows it.
    pub fn new() -> (r: DrawCtx)
        ensures
            r.commands@ == Seq::<DrawCommand>::empty(),
            r.offset_x == 0 && r.offset_y == 0,
            r.widget_size == (u64::MAX, u64::MAX),
    {
        DrawCtx { commands: Vec::new(), offset_x: 0, offset_y: 0, widget_size: (u64::MAX, u64::MAX) }
    }

    /// Adds the context's translation to a coordinate, saturating at the
    /// representable range.
    fn translate(base: i64, offset: i64) -> (r: i64)
        ensures
            r == spec_sat_i64(base + offset),
    {
        let s: i128 = base as i128 + offset as i128;
        if s > i64::MAX as i128 {
            i64::MAX
        } else if s < i64::MIN as i128 {
            i64::MIN
        } else {
            s as i64
        }
    }

    /// Issues a whole-canvas fill.
    pub fn clear(&mut self, color: u32)
        ensures
            *final(self) == (DrawCtx {
                commands: final(self).commands,
                ..*old(self)
            }),
            final(self).commands@ == old(self).commands@.push(DrawCommand::Clear { color }),
    {
        self.commands.push(DrawCommand::Clear { color });
    }

    /// Issues a rectangle fill at `(x, y)`, translated by the context.
    pub fn fill_rect(&mut self, x: i64, y: i64, width: u64, height: u64, color: u32)
        ensures
            *final(self) == (DrawCtx {
                commands: final(self).commands,
                ..*old(self)
            }),
            final(self).commands@ == old(self).commands@.push(DrawCommand::FillRect {
                x: spec_sat_i64(x + old(self).offset_x) as i64,
                y: spec_sat_i64(y + old(self).offset_y) as i64,
                width,
                height,
                color,
            }),
    {
        let cx = Self::translate(x, self.offset_x);
        let cy = Self::translate(y, self.offset_y);
        self.commands.push(DrawCommand::FillRect { x: cx, y: cy, width, height, color });
    }

    /// Issues a rounded-rectangle fill at `(x, y)`, translated by the context.
    pub fn fill_round_rect(&mut self, x: i64, y: i64, width: u64, height: u64, radius: u64, color: u32)
        ensures
            *final(self) == (DrawCtx {
                commands: final(self).commands,
                ..*old(self)
            }),
            final(self).commands@ == old(self).commands@.push(DrawCommand::FillRoundRect {
                x: spec_sat_i64(x + old(self).offset_x) as i64,
                y: spec_sat_i64(y + old(self).offset_y) as i64,
                width,
                height,
                radius,
                color,
            }),
    {
        let cx = Self::translate(x, self.offset_x);
        let cy = Self::translate(y, self.offset_y);
        self.commands.push(DrawCommand::FillRoundRect { x: cx, y: cy, width, height, radius, color });
    }

    /// Issues a text run at `(x, y)`, translated by the context.
    pub fn text(&mut self, x: i64, y: i64, size: u32, color: u32, bold: bool, align: TextAlign, text: String)
        ensures
            *final(self) == (DrawCtx {
                commands: final(self).commands,
                ..*old(self)
            }),
            final(self).commands@ == old(self).commands@.push(DrawCommand::Text {
                x: spec_sat_i64(x + old(self).offset_x) as i64,
                y: spec_sat_i64(y + old(self).offset_y) as i64,
                size,
                color,
                bold,
                align,
                text,
            }),
    {
        let cx = Self::translate(x, self.offset_x);
        let cy = Self::translate(y, self.offset_y);
        self.commands.push(DrawCommand::Text { x: cx, y: cy, size, color, bold, align, text });
    }

    /// Issues an image blit at `(x, y)`, translated by the context.
    pub fn image(&mut self, x: i64, y: i64, width: u64, height: u64, source_width: u32, source_height: u32, data: Rc<Vec<u8>>)
        ensures
            *final(self) == (DrawCtx {
                commands: final(self).commands,
                ..*old(self)
            }),
            final(self).commands@ == old(self).commands@.push(DrawCommand::Image {
                x: spec_sat_i64(x + old(self).offset_x) as i64,
                y: spec_sat_i64(y + old(self).offset_y) as i64,
                width,
                height,
                source_width,
                source_height,
                data,
            }),
    {
        let cx = Self::translate(x, self.offset_x);
        let cy = Self::translate(y, self.offset_y);
        self.commands.push(DrawCommand::Image { x: cx, y: cy, width, height, source_width, source_height, data });
    }

    /// A child context drawing into the same queue region: empty queue, the
    /// translation shifted by `(dx, dy)`, the same widget size.  Join it back
    /// with [`DrawCtx::join`] when the child is done.
    pub fn fork(&self, dx: i64, dy: i64) -> (r: DrawCtx)
        ensures
            r.commands@ == Seq::<DrawCommand>::empty(),
            r.offset_x == spec_sat_i64(self.offset_x + dx),
            r.offset_y == spec_sat_i64(self.offset_y + dy),
            r.widget_size == self.widget_size,
    {
        DrawCtx {
            commands: Vec::new(),
            offset_x: Self::translate(self.offset_x, dx),
            offset_y: Self::translate(self.offset_y, dy),
            widget_size: self.widget_size,
        }
    }

    /// Appends everything a forked child drew, in order, after this
    /// context's own commands.
    pub fn join(&mut self, child: DrawCtx)
        ensures
            *final(self) == (DrawCtx {
                commands: final(self).commands,
                ..*old(self)
            }),
            final(self).commands@ == old(self).commands@ + child.commands@,
    {
        let mut moved = child;
        self.commands.append(&mut moved.commands);
    }
}

} // verus!
