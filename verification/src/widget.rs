//! The closed set of leaf widgets a container can own, as one tagged union,
//! with the capability operations dispatched over it.

use vstd::prelude::*;
use crate::button::ButtonControl;
use crate::button::ButtonView;
use crate::button::COORD_CAP;
use crate::button::spec_clipped_box;
use crate::drawing::DrawCommand;
use crate::drawing::DrawCtx;
use crate::events::EventCtx;
use crate::events::EventResult;
use crate::events::UserEvent;
use crate::events::WindowEvent;
use crate::geometry::AreaBox;
use crate::image::ImageControl;
use crate::image::ImageView;
use crate::input::InputControl;
use crate::input::InputView;
use crate::label::LabelView;
use crate::label::TextLabelControl;
use crate::template::TemplateControl;
use crate::template::TemplateView;
use crate::uid::UidGenerator;
use crate::uid::WidgetUid;

verus! {

/// One owned leaf widget.
pub enum WidgetBox {
    Button(ButtonControl),
    Label(TextLabelControl),
    Input(InputControl),
    Image(ImageControl),
    Template(TemplateControl),
}

/// The abstract state of one owned leaf widget.
pub enum WidgetBoxView {
    Button(ButtonView),
    Label(LabelView),
    Input(InputView),
    Image(ImageView),
    Template(TemplateView),
}

impl View for WidgetBox {
    type V = WidgetBoxView;

    open spec fn view(&self) -> WidgetBoxView {
        match self {
            WidgetBox::Button(w) => WidgetBoxView::Button(w@),
            WidgetBox::Label(w) => WidgetBoxView::Label(w@),
            WidgetBox::Input(w) => WidgetBoxView::Input(w@),
            WidgetBox::Image(w) => WidgetBoxView::Image(w@),
            WidgetBox::Template(w) => WidgetBoxView::Template(w@),
        }
    }
}

impl WidgetBoxView {
    /// Well-formedness of the held widget.
    pub open spec fn inv(self) -> bool {
        match self {
            WidgetBoxView::Button(w) => w.inv(),
            WidgetBoxView::Label(_) => true,
            WidgetBoxView::Input(w) => w.inv(),
            WidgetBoxView::Image(w) => crate::button::spec_coords_ok(w.pos, w.g_pos, w.size)
                && w.img_data.len() == 4 * w.img_width * w.img_height,
            WidgetBoxView::Template(w) => crate::button::spec_coords_ok(w.pos, w.g_pos, w.size),
        }
    }

    /// The widget's whole reaction to one raw event.  Buttons react to moves
    /// and presses, inputs to characters addressed to them; labels, images and
    /// templates let everything bubble.
    pub open spec fn spec_emit(self, e: WindowEvent) -> (WidgetBoxView, Seq<UserEvent>, EventResult) {
        match self {
            WidgetBoxView::Button(w) => {
                let (w2, ev, r) = w.spec_emit(e);
                (WidgetBoxView::Button(w2), ev, r)
            },
            WidgetBoxView::Input(w) => {
                let (w2, ev, r) = w.spec_emit(e);
                (WidgetBoxView::Input(w2), ev, r)
            },
            _ => (self, Seq::empty(), EventResult::Bubble),
        }
    }

    /// Whether the widget asks to be painted again.
    pub open spec fn spec_needs_redraw(self) -> bool {
        match self {
            WidgetBoxView::Button(w) => w.need_update,
            WidgetBoxView::Label(_) => false,
            WidgetBoxView::Input(w) => w.need_update,
            WidgetBoxView::Image(w) => w.need_update,
            WidgetBoxView::Template(_) => false,
        }
    }

    /// The widget with its global position overwritten by the parent; labels
    /// carry no position and stay as they are.
    pub open spec fn spec_with_g_pos(self, g: (i32, i32)) -> WidgetBoxView {
        match self {
            WidgetBoxView::Button(w) => WidgetBoxView::Button(ButtonView { g_pos: g, ..w }),
            WidgetBoxView::Label(w) => WidgetBoxView::Label(w),
            WidgetBoxView::Input(w) => WidgetBoxView::Input(InputView { g_pos: g, ..w }),
            WidgetBoxView::Image(w) => WidgetBoxView::Image(ImageView { g_pos: g, ..w }),
            WidgetBoxView::Template(w) => WidgetBoxView::Template(TemplateView { g_pos: g, ..w }),
        }
    }

    /// The widget's parent-relative position; labels sit at the origin.
    pub open spec fn spec_pos(self) -> (i32, i32) {
        match self {
            WidgetBoxView::Button(w) => w.pos,
            WidgetBoxView::Label(_) => (0, 0),
            WidgetBoxView::Input(w) => w.pos,
            WidgetBoxView::Image(w) => w.pos,
            WidgetBoxView::Template(w) => w.pos,
        }
    }

    /// The widget after drawing: its self-dirty flag cleared.
    pub open spec fn spec_drawn_view(self) -> WidgetBoxView {
        match self {
            WidgetBoxView::Button(w) => WidgetBoxView::Button(ButtonView { need_update: false, ..w }),
            WidgetBoxView::Label(w) => WidgetBoxView::Label(w),
            WidgetBoxView::Input(w) => WidgetBoxView::Input(InputView { need_update: false, ..w }),
            WidgetBoxView::Image(w) => WidgetBoxView::Image(ImageView { need_update: false, ..w }),
            WidgetBoxView::Template(w) => WidgetBoxView::Template(w),
        }
    }

    /// The box the widget occupies inside `max_box`: positional widgets clip
    /// their own rectangle into it, labels and templates occupy nothing.
    pub open spec fn spec_layout_box(self, max_box: AreaBox) -> AreaBox {
        match self {
            WidgetBoxView::Button(w) => spec_clipped_box(w.pos, w.size, max_box),
            WidgetBoxView::Input(w) => spec_clipped_box(w.pos, w.size, max_box),
            WidgetBoxView::Image(w) => spec_clipped_box(w.pos, w.size, max_box),
            _ => AreaBox { left: 0, right: 0, top: 0, down: 0 },
        }
    }
}

/// A well-formed widget's parent-relative position lies within the
/// coordinate bound.
pub proof fn lemma_pos_in_bounds(v: WidgetBoxView)
    requires
        v.inv(),
    ensures
        -COORD_CAP <= v.spec_pos().0 <= COORD_CAP,
        -COORD_CAP <= v.spec_pos().1 <= COORD_CAP,
{
    match v {
        WidgetBoxView::Button(_) => {},
        WidgetBoxView::Label(_) => {},
        WidgetBoxView::Input(_) => {},
        WidgetBoxView::Image(_) => {},
        WidgetBoxView::Template(_) => {},
    }
}

/// Reacting to an event preserves a widget's well-formedness: events change
/// only status flags and text content, never coordinates.
pub proof fn lemma_emit_preserves_inv(v: WidgetBoxView, e: WindowEvent)
    requires
        v.inv(),
    ensures
        v.spec_emit(e).0.inv(),
{
    match v {
        WidgetBoxView::Button(w) => {
            assert(v.spec_emit(e).0.inv());
        },
        WidgetBoxView::Input(w) => {
            assert(v.spec_emit(e).0.inv());
        },
        _ => {},
    }
}

impl WidgetBox {
    /// The drawing intents this widget issues for one frame, at the given
    /// context translation.
    pub open spec fn spec_draw(self, ox: int, oy: int) -> Seq<DrawCommand> {
        match self {
            WidgetBox::Button(w) => w.spec_draw(ox, oy),
            WidgetBox::Label(w) => w.spec_draw(ox, oy),
            WidgetBox::Input(w) => w.spec_draw(ox, oy),
            WidgetBox::Image(w) => w.spec_draw(ox, oy),
            WidgetBox::Template(_) => Seq::empty(),
        }
    }

    /// The widget after drawing: its self-dirty flag cleared.
    pub open spec fn spec_drawn(self) -> WidgetBox {
        match self {
            WidgetBox::Button(w) => WidgetBox::Button(ButtonControl { need_update: false, ..w }),
            WidgetBox::Label(w) => WidgetBox::Label(w),
            WidgetBox::Input(w) => WidgetBox::Input(InputControl { need_update: false, ..w }),
            WidgetBox::Image(w) => WidgetBox::Image(ImageControl { need_update: false, ..w }),
            WidgetBox::Template(w) => WidgetBox::Template(w),
        }
    }

    /// Reacts to one raw event, surfacing semantic events into the context.
    pub fn event(&mut self, ctx: &mut EventCtx) -> (r: EventResult)
        requires
            old(self)@.inv(),
        ensures
            final(self)@.inv(),
            final(self)@ == old(self)@.spec_emit(old(ctx).event).0,
            r == old(self)@.spec_emit(old(ctx).event).2,
            final(ctx).event == old(ctx).event,
            final(ctx).user_events@ == old(ctx).user_events@ + old(self)@.spec_emit(old(ctx).event).1,
    {
        let r = match self {
            WidgetBox::Button(w) => w.event(ctx),
            WidgetBox::Input(w) => w.event(ctx),
            _ => EventResult::Bubble,
        };
        proof {
            assert(final(ctx).user_events@ =~= old(ctx).user_events@
                + old(self)@.spec_emit(old(ctx).event).1);
        }
        r
    }

    /// Whether the widget asks to be painted again; pure.
    pub fn needs_redraw(&self) -> (r: bool)
        ensures
            r == self@.spec_needs_redraw(),
    {
        match self {
            WidgetBox::Button(w) => w.needs_redraw(),
            WidgetBox::Label(w) => w.needs_redraw(),
            WidgetBox::Input(w) => w.needs_redraw(),
            WidgetBox::Image(w) => w.needs_redraw(),
            WidgetBox::Template(w) => w.needs_redraw(),
        }
    }

    /// Overwrites the widget's global position; called by the parent on every
    /// re-propagation (the parent pushes, the child never reads back).
    pub fn set_g_pos(&mut self, g: (i32, i32))
        requires
            old(self)@.inv(),
            -3 * COORD_CAP <= g.0 <= 3 * COORD_CAP,
            -3 * COORD_CAP <= g.1 <= 3 * COORD_CAP,
        ensures
            final(self)@ == old(self)@.spec_with_g_pos(g),
            final(self)@.inv(),
    {
        match self {
            WidgetBox::Button(w) => w.g_pos = g,
            WidgetBox::Label(_) => (),
            WidgetBox::Input(w) => w.g_pos = g,
            WidgetBox::Image(w) => w.g_pos = g,
            WidgetBox::Template(w) => w.g_pos = g,
        }
    }

    /// Issues this frame's drawing intents and clears the self-dirty flag.
    pub fn draw(&mut self, ctx: &mut DrawCtx)
        requires
            old(self)@.inv(),
        ensures
            *final(self) == old(self).spec_drawn(),
            final(self)@ == old(self)@.spec_drawn_view(),
            final(self)@.inv(),
            final(ctx).commands@ == old(ctx).commands@ + old(self).spec_draw(
                old(ctx).offset_x as int,
                old(ctx).offset_y as int,
            ),
            final(ctx).offset_x == old(ctx).offset_x,
            final(ctx).offset_y == old(ctx).offset_y,
            final(ctx).widget_size == old(ctx).widget_size,
    {
        match self {
            WidgetBox::Button(w) => w.draw(ctx),
            WidgetBox::Label(w) => w.draw(ctx),
            WidgetBox::Input(w) => w.draw(ctx),
            WidgetBox::Image(w) => w.draw(ctx),
            WidgetBox::Template(_) => {
                proof {
                    assert(final(ctx).commands@ =~= old(ctx).commands@ + Seq::<DrawCommand>::empty());
                }
            },
        }
    }

    /// The box the widget occupies inside `max_box`.
    pub fn layout(&self, max_box: AreaBox) -> (r: AreaBox)
        requires
            self@.inv(),
        ensures
            r == self@.spec_layout_box(max_box),
    {
        match self {
            WidgetBox::Button(w) => w.layout(max_box),
            WidgetBox::Input(w) => w.layout(max_box),
            WidgetBox::Image(w) => w.layout(max_box),
            _ => AreaBox::zero(),
        }
    }

    /// The widget's parent-relative position.
    pub fn pos(&self) -> (r: (i32, i32))
        ensures
            r == self@.spec_pos(),
    {
        match self {
            WidgetBox::Button(w) => w.pos,
            WidgetBox::Label(_) => (0, 0),
            WidgetBox::Input(w) => w.pos,
            WidgetBox::Image(w) => w.pos,
            WidgetBox::Template(w) => w.pos,
        }
    }

    /// Whether duplicating this widget consumes a fresh identity (identity-
    /// bearing widgets do; images and templates carry none of their own).
    pub open spec fn spec_takes_uid(self) -> bool {
        match self {
            WidgetBox::Button(_) => true,
            WidgetBox::Label(_) => true,
            WidgetBox::Input(_) => true,
            WidgetBox::Image(_) => false,
            WidgetBox::Template(_) => false,
        }
    }

    /// The identity the widget carries, if it carries one.
    pub open spec fn spec_uid(self) -> Option<WidgetUid> {
        match self {
            WidgetBox::Button(w) => Some(w.uid),
            WidgetBox::Label(w) => Some(w.uid),
            WidgetBox::Input(w) => Some(w.uid),
            WidgetBox::Image(_) => None,
            WidgetBox::Template(_) => None,
        }
    }

    /// A copy of this widget: identity-bearing widgets get a fresh identity,
    /// so a clone is a distinct widget; every copy starts dirty.
    pub fn duplicate(&self, generator: &mut UidGenerator) -> (r: WidgetBox)
        requires
            old(generator).next < usize::MAX,
        ensures
            final(generator).next == if self.spec_takes_uid() {
                old(generator).next + 1
            } else {
                old(generator).next as int
            },
            self.spec_takes_uid() ==> r.spec_uid() == Some(old(generator).next),
            (self.spec_takes_uid() && old(generator).issued(self.spec_uid().unwrap()))
                ==> r.spec_uid() != self.spec_uid(),
            self@.inv() ==> r@.inv(),
    {
        match self {
            WidgetBox::Button(w) => WidgetBox::Button(w.duplicate(generator)),
            WidgetBox::Label(w) => WidgetBox::Label(w.duplicate(generator)),
            WidgetBox::Input(w) => WidgetBox::Input(w.duplicate(generator)),
            WidgetBox::Image(w) => WidgetBox::Image(w.duplicate()),
            WidgetBox::Template(w) => WidgetBox::Template(w.duplicate()),
        }
    }
}

} // verus!
