//! The widget capability contract every control implements, and the extra
//! contract of a top-level widget.

use vstd::prelude::*;
use crate::button::ButtonControl;
use crate::drawing::DrawCtx;
use crate::events::EventCtx;
use crate::events::EventResult;
use crate::events::HitResult;
use crate::geometry::AreaBox;
use crate::image::ImageControl;
use crate::input::InputControl;
use crate::label::TextLabelControl;
use crate::template::TemplateControl;
use crate::window::WindowControl;

verus! {

/// The capability contract of a widget, polymorphic over the application's
/// data type `D` (read-only in queries and drawing, exclusively borrowed when
/// handling input).  Every operation preserves the widget's own
/// well-formedness.
pub trait Widget<D>: Sized {
    /// The widget's well-formedness, which every operation preserves.
    spec fn wf(&self) -> bool;

    /// Reacts to a dispatched event, surfacing semantic events into the
    /// context; mutates only this widget's own state.
    fn event(&mut self, ctx: &mut EventCtx, data: &mut D, now: u64) -> (r: EventResult)
        requires
            old(self).wf(),
        ensures
            final(self).wf(),
    ;

    /// Whether the widget asks to be painted again; a query without side
    /// effects visible to siblings.
    fn update(&self, data: &D, now: u64) -> (r: bool)
        requires
            self.wf(),
    ;

    /// Issues drawing intents against the abstract canvas at the position and
    /// size the context dictates; no layout decisions here.
    fn draw(&mut self, ctx: &mut DrawCtx, data: &D, now: u64)
        requires
            old(self).wf(),
        ensures
            final(self).wf(),
    ;

    /// Given the maximum box the parent affords, the box the widget actually
    /// occupies; it must not exceed the constraint.
    fn layout(&mut self, max_box: AreaBox) -> (r: AreaBox)
        requires
            old(self).wf(),
        ensures
            final(self).wf(),
    ;
}

/// The extra contract of a top-level widget: teardown with linger, chrome
/// hit-testing, and the real footprint including visual margins.
pub trait TopWidget<D>: Widget<D> {
    /// Begins teardown; idempotent.
    fn destroy(&mut self, now: u64)
        requires
            old(self).wf(),
        ensures
            final(self).wf(),
    ;

    /// True once torn down and the linger interval has elapsed.
    fn is_destroyed(&self, now: u64) -> (r: bool)
        requires
            self.wf(),
    ;

    /// Classifies a point in window-local coordinates; the one hit-test call
    /// permitted to mutate, because hover feedback is drawable state.
    fn hit_test(&mut self, x: i32, y: i32) -> (r: HitResult)
        requires
            old(self).wf(),
        ensures
            final(self).wf(),
    ;

    /// The total width including any non-interactive visual margin.
    fn real_width(&self) -> (r: u32)
        requires
            self.wf(),
    ;

    /// The total height including any non-interactive visual margin.
    fn real_height(&self) -> (r: u32)
        requires
            self.wf(),
    ;
}

impl<D> Widget<D> for ButtonControl {
    open spec fn wf(&self) -> bool {
        self@.inv()
    }

    fn event(&mut self, ctx: &mut EventCtx, _data: &mut D, _now: u64) -> (r: EventResult) {
        ButtonControl::event(self, ctx)
    }

    fn update(&self, _data: &D, _now: u64) -> (r: bool) {
        self.needs_redraw()
    }

    fn draw(&mut self, ctx: &mut DrawCtx, _data: &D, _now: u64) {
        ButtonControl::draw(self, ctx)
    }

    fn layout(&mut self, max_box: AreaBox) -> (r: AreaBox) {
        ButtonControl::layout(self, max_box)
    }
}

impl<D> Widget<D> for TextLabelControl {
    open spec fn wf(&self) -> bool {
        true
    }

    fn event(&mut self, _ctx: &mut EventCtx, _data: &mut D, _now: u64) -> (r: EventResult) {
        EventResult::Bubble
    }

    fn update(&self, _data: &D, _now: u64) -> (r: bool) {
        self.needs_redraw()
    }

    fn draw(&mut self, ctx: &mut DrawCtx, _data: &D, _now: u64) {
        TextLabelControl::draw(self, ctx)
    }

    fn layout(&mut self, _max_box: AreaBox) -> (r: AreaBox) {
        AreaBox::zero()
    }
}

impl<D> Widget<D> for InputControl {
    open spec fn wf(&self) -> bool {
        self@.inv()
    }

    fn event(&mut self, ctx: &mut EventCtx, _data: &mut D, _now: u64) -> (r: EventResult) {
        InputControl::event(self, ctx)
    }

    fn update(&self, _data: &D, _now: u64) -> (r: bool) {
        self.needs_redraw()
    }

    fn draw(&mut self, ctx: &mut DrawCtx, _data: &D, _now: u64) {
        InputControl::draw(self, ctx)
    }

    fn layout(&mut self, max_box: AreaBox) -> (r: AreaBox) {
        InputControl::layout(self, max_box)
    }
}

impl<D> Widget<D> for ImageControl {
    open spec fn wf(&self) -> bool {
        self.inv()
    }

    fn event(&mut self, _ctx: &mut EventCtx, _data: &mut D, _now: u64) -> (r: EventResult) {
        EventResult::Bubble
    }

    fn update(&self, _data: &D, _now: u64) -> (r: bool) {
        self.needs_redraw()
    }

    fn draw(&mut self, ctx: &mut DrawCtx, _data: &D, _now: u64) {
        ImageControl::draw(self, ctx)
    }

    fn layout(&mut self, max_box: AreaBox) -> (r: AreaBox) {
        ImageControl::layout(self, max_box)
    }
}

impl<D> Widget<D> for TemplateControl {
    open spec fn wf(&self) -> bool {
        self.inv()
    }

    fn event(&mut self, _ctx: &mut EventCtx, _data: &mut D, _now: u64) -> (r: EventResult) {
        EventResult::Bubble
    }

    fn update(&self, _data: &D, _now: u64) -> (r: bool) {
        self.needs_redraw()
    }

    fn draw(&mut self, _ctx: &mut DrawCtx, _data: &D, _now: u64) {
    }

    fn layout(&mut self, max_box: AreaBox) -> (r: AreaBox) {
        TemplateControl::layout(self, max_box)
    }
}

impl<D> Widget<D> for WindowControl {
    open spec fn wf(&self) -> bool {
        self@.inv()
    }

    fn event(&mut self, ctx: &mut EventCtx, _data: &mut D, now: u64) -> (r: EventResult) {
        self.emit(ctx, now)
    }

    fn update(&self, _data: &D, now: u64) -> (r: bool) {
        self.needs_redraw(now)
    }

    fn draw(&mut self, ctx: &mut DrawCtx, _data: &D, now: u64) {
        WindowControl::draw(self, ctx, now)
    }

    fn layout(&mut self, max_box: AreaBox) -> (r: AreaBox) {
        WindowControl::layout(self, max_box)
    }
}

impl<D> TopWidget<D> for WindowControl {
    fn destroy(&mut self, now: u64) {
        WindowControl::destroy(self, now)
    }

    fn is_destroyed(&self, now: u64) -> (r: bool) {
        WindowControl::is_destroyed(self, now)
    }

    fn hit_test(&mut self, x: i32, y: i32) -> (r: HitResult) {
        WindowControl::hit_test(self, x, y)
    }

    fn real_width(&self) -> (r: u32) {
        WindowControl::real_width(self)
    }

    fn real_height(&self) -> (r: u32) {
        WindowControl::real_height(self)
    }
}

} // verus!
