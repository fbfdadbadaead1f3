//! The widget slot: exclusively owns one boxed widget, stamps a fresh
//! identity at construction, caches the widget's last computed size, and
//! mediates layout, draw and event calls.

use vstd::prelude::*;
use crate::drawing::DrawCtx;
use crate::events::EventCtx;
use crate::events::EventResult;
use crate::events::UserEvent;
use crate::events::WindowEvent;
use crate::geometry::AreaBox;
use crate::uid::UidGenerator;
use crate::uid::WidgetUid;
use crate::uid::gen_uid;
use crate::widget::WidgetBox;
use crate::widget::WidgetBoxView;

verus! {

/// The abstract state of a widget slot.
pub struct PodView {
    pub widget_id: WidgetUid,
    pub widget: WidgetBoxView,
    pub widget_size: (u64, u64),
}

/// An owning slot around one widget.  The slot's identity is its own,
/// distinct from any identity the inner widget carries.
pub struct WidgetPod {
    /// The slot's identity, stamped once at construction, never reassigned.
    pub widget_id: WidgetUid,
    /// The owned widget.
    pub widget: WidgetBox,
    /// The widget's last computed size, cached from layout.
    pub widget_size: (u64, u64),
}

impl View for WidgetPod {
    type V = PodView;

    open spec fn view(&self) -> PodView {
        PodView { widget_id: self.widget_id, widget: self.widget@, widget_size: self.widget_size }
    }
}

impl PodView {
    /// Well-formedness of the held widget.
    pub open spec fn inv(self) -> bool {
        self.widget.inv()
    }

    /// The slot's reaction to one raw event: the inner widget's, with the
    /// slot's own fields untouched.
    pub open spec fn spec_emit(self, e: WindowEvent) -> (PodView, Seq<UserEvent>, EventResult) {
        let (w, ev, r) = self.widget.spec_emit(e);
        (PodView { widget: w, ..self }, ev, r)
    }
}

impl WidgetPod {
    /// Wraps a widget in a fresh slot.  The cached size starts at the whole
    /// representable range until the first layout.
    pub fn new(widget: WidgetBox, generator: &mut UidGenerator) -> (r: WidgetPod)
        requires
            old(generator).next < usize::MAX,
        ensures
            r.widget_id == old(generator).next,
            final(generator).next == old(generator).next + 1,
            r.widget == widget,
            r.widget_size == (u64::MAX, u64::MAX),
            final(generator).issued(r.widget_id),
    {
        WidgetPod { widget_id: gen_uid(generator), widget, widget_size: (u64::MAX, u64::MAX) }
    }

    /// The slot's identity.
    pub fn uid(&self) -> (r: WidgetUid)
        ensures
            r == self.widget_id,
    {
        self.widget_id
    }

    /// Forwards one raw event to the owned widget.
    pub fn event(&mut self, ctx: &mut EventCtx) -> (r: EventResult)
        requires
            old(self)@.inv(),
        ensures
            final(self)@.inv(),
            final(self)@ == old(self)@.spec_emit(old(ctx).event).0,
            r == old(self)@.spec_emit(old(ctx).event).2,
            final(ctx).event == old(ctx).event,
            final(ctx).user_events@ == old(ctx).user_events@ + old(self)@.spec_emit(old(ctx).event).1,
    {
        self.widget.event(ctx)
    }

    /// Whether the owned widget asks to be painted again; pure.
    pub fn update(&self) -> (r: bool)
        ensures
            r == self@.widget.spec_needs_redraw(),
    {
        self.widget.needs_redraw()
    }

    /// Draws the owned widget: the context's widget size is set to the cached
    /// layout result first, as the widget's draw contract expects.
    pub fn draw(&mut self, ctx: &mut DrawCtx)
        requires
            old(self)@.inv(),
        ensures
            final(self).widget == old(self).widget.spec_drawn(),
            final(self)@ == (PodView { widget: old(self)@.widget.spec_drawn_view(), ..old(self)@ }),
            final(self)@.inv(),
            final(self).widget_id == old(self).widget_id,
            final(self).widget_size == old(self).widget_size,
            final(ctx).commands@ == old(ctx).commands@ + old(self).widget.spec_draw(
                old(ctx).offset_x as int,
                old(ctx).offset_y as int,
            ),
            final(ctx).offset_x == old(ctx).offset_x,
            final(ctx).offset_y == old(ctx).offset_y,
            final(ctx).widget_size == old(self).widget_size,
    {
        ctx.widget_size = self.widget_size;
        self.widget.draw(ctx);
    }

    /// Lays the owned widget out in `max_box`, caching the computed size.
    pub fn layout(&mut self, max_box: AreaBox) -> (r: AreaBox)
        requires
            old(self)@.inv(),
        ensures
            r == old(self)@.widget.spec_layout_box(max_box),
            final(self).widget == old(self).widget,
            final(self).widget_id == old(self).widget_id,
            final(self).widget_size.0 == r.spec_width(),
            final(self).widget_size.1 == r.spec_height(),
    {
        let b = self.widget.layout(max_box);
        self.widget_size = b.to_size();
        b
    }

    /// A copy of the slot and its widget under fresh identities: clones are
    /// distinct widgets, never aliases, and the original is unaffected.
    pub fn duplicate(&self, generator: &mut UidGenerator) -> (r: WidgetPod)
        requires
            old(generator).next < usize::MAX - 1,
        ensures
            r.widget_id == old(generator).next,
            old(generator).issued(self.widget_id) ==> r.widget_id != self.widget_id,
            self@.inv() ==> r@.inv(),
            r.widget_size == self.widget_size,
            final(generator).next > old(generator).next,
    {
        let id = gen_uid(generator);
        WidgetPod {
            widget_id: id,
            widget: self.widget.duplicate(generator),
            widget_size: self.widget_size,
        }
    }
}

} // verus!
