//! A static text label.

use vstd::prelude::*;
use crate::drawing::DrawCommand;
use crate::drawing::DrawCtx;
use crate::drawing::TextAlign;
use crate::drawing::spec_sat_i64;
use crate::uid::UidGenerator;
use crate::uid::WidgetUid;
use crate::uid::gen_uid;

verus! {

/// The default label text color.
pub const LABEL_TEXT_COLOR: u32 = 0x202020FF;

/// The abstract state of a label, for use in contracts.
pub struct LabelView {
    pub uid: WidgetUid,
    pub text: Seq<char>,
    pub text_color: u32,
    pub text_size: u32,
    pub text_align: TextAlign,
}

pub struct TextLabelControl {
    /// This label's identity.
    pub uid: WidgetUid,
    /// The text shown.
    pub text: String,
    /// The text color, packed RGBA.
    pub text_color: u32,
    /// The point size.
    pub text_size: u32,
    /// How the text aligns within the space given.
    pub text_align: TextAlign,
}

impl View for TextLabelControl {
    type V = LabelView;

    open spec fn view(&self) -> LabelView {
        LabelView {
            uid: self.uid,
            text: self.text@,
            text_color: self.text_color,
            text_size: self.text_size,
            text_align: self.text_align,
        }
    }
}

impl TextLabelControl {
    /// The drawing intents of one frame: a single text run.
    pub open spec fn spec_draw(self, ox: int, oy: int) -> Seq<DrawCommand> {
        seq![
            DrawCommand::Text {
                x: spec_sat_i64(ox) as i64,
                y: spec_sat_i64(self.text_size + oy) as i64,
                size: self.text_size,
                color: self.text_color,
                bold: false,
                align: self.text_align,
                text: self.text,
            },
        ]
    }

    /// A label with the given text, the default color, size and alignment,
    /// and a fresh identity.
    pub fn new(text: String, generator: &mut UidGenerator) -> (r: TextLabelControl)
        requires
            old(generator).next < usize::MAX,
        ensures
            r.uid == old(generator).next,
            final(generator).next == old(generator).next + 1,
            r.text == text,
            r.text_color == LABEL_TEXT_COLOR,
            r.text_size == 13,
            r.text_align is Left,
    {
        TextLabelControl {
            uid: gen_uid(generator),
            text,
            text_color: LABEL_TEXT_COLOR,
            text_size: 13,
            text_align: TextAlign::Left,
        }
    }

    /// This label's identity.
    pub fn uid(&self) -> (r: WidgetUid)
        ensures
            r == self.uid,
    {
        self.uid
    }

    /// Sets the text color.
    pub fn set_color(&mut self, color: u32)
        ensures
            *final(self) == (TextLabelControl { text_color: color, ..*old(self) }),
    {
        self.text_color = color;
    }

    /// Sets the point size.
    pub fn set_text_size(&mut self, size: u32)
        ensures
            *final(self) == (TextLabelControl { text_size: size, ..*old(self) }),
    {
        self.text_size = size;
    }

    /// Sets the alignment.
    pub fn set_text_align(&mut self, align: TextAlign)
        ensures
            *final(self) == (TextLabelControl { text_align: align, ..*old(self) }),
    {
        self.text_align = align;
    }

    /// A copy of this label under a fresh identity.
    pub fn duplicate(&self, generator: &mut UidGenerator) -> (r: TextLabelControl)
        requires
            old(generator).next < usize::MAX,
        ensures
            r == (TextLabelControl { uid: old(generator).next, ..*self }),
            old(generator).issued(self.uid) ==> r.uid != self.uid,
            final(generator).next == old(generator).next + 1,
    {
        TextLabelControl {
            uid: gen_uid(generator),
            text: self.text.clone(),
            text_color: self.text_color,
            text_size: self.text_size,
            text_align: self.text_align,
        }
    }

    /// A label never reports itself dirty: it changes only through setters,
    /// and the owner redraws it with the rest of the tree.
    pub fn needs_redraw(&self) -> (r: bool)
        ensures
            r == false,
    {
        false
    }

    /// Issues this frame's drawing intents.
    pub fn draw(&self, ctx: &mut DrawCtx)
        ensures
            final(ctx).commands@ == old(ctx).commands@ + self.spec_draw(
                old(ctx).offset_x as int,
                old(ctx).offset_y as int,
            ),
            final(ctx).offset_x == old(ctx).offset_x,
            final(ctx).offset_y == old(ctx).offset_y,
            final(ctx).widget_size == old(ctx).widget_size,
    {
        ctx.text(
            0,
            self.text_size as i64,
            self.text_size,
            self.text_color,
            false,
            self.text_align,
            self.text.clone(),
        );
        proof {
            assert(final(ctx).commands@ =~= old(ctx).commands@ + self.spec_draw(
                old(ctx).offset_x as int,
                old(ctx).offset_y as int,
            ));
        }
    }
}

} // verus!
