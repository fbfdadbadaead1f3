//! A single-line text input: characters addressed to it are appended to its
//! value.

use vstd::prelude::*;
use crate::button::COORD_CAP;
use crate::button::clipped_box;
use crate::button::spec_clipped_box;
use crate::button::spec_coords_ok;
use crate::drawing::DrawCommand;
use crate::drawing::DrawCtx;
use crate::drawing::TextAlign;
use crate::drawing::spec_sat_i64;
use crate::events::EventCtx;
use crate::events::EventResult;
use crate::events::UserEvent;
use crate::events::WindowEvent;
use crate::geometry::AreaBox;
use crate::uid::UidGenerator;
use crate::uid::WidgetUid;
use crate::uid::gen_uid;

verus! {

/// The input field's background color.
pub const INPUT_BACKGROUND_COLOR: u32 = 0xFFFFFFFF;

/// The input field's text color.
pub const INPUT_TEXT_COLOR: u32 = 0x202020FF;

/// Relies on `String::push`: appends exactly one character at the end.
#[verifier::external_body]
fn string_push_char(s: &mut String, c: char)
    ensures
        final(s)@ == old(s)@.push(c),
{
    s.push(c);
}

/// The abstract state of an input: the struct with its value as a character
/// sequence, for use in contracts.
pub struct InputView {
    pub uid: WidgetUid,
    pub pos: (i32, i32),
    pub g_pos: (i32, i32),
    pub size: (u32, u32),
    pub value: Seq<char>,
    pub need_update: bool,
}

pub struct InputControl {
    /// This input's identity; characters are addressed to it.
    pub uid: WidgetUid,
    /// Position relative to the parent.
    pub pos: (i32, i32),
    /// Global position, written by the parent on every re-propagation.
    pub g_pos: (i32, i32),
    /// Extent `(width, height)`.
    pub size: (u32, u32),
    /// The text typed so far.
    pub value: String,
    /// The self-dirty flag: set when the value changes, cleared by drawing.
    pub need_update: bool,
}

impl View for InputControl {
    type V = InputView;

    open spec fn view(&self) -> InputView {
        InputView {
            uid: self.uid,
            pos: self.pos,
            g_pos: self.g_pos,
            size: self.size,
            value: self.value@,
            need_update: self.need_update,
        }
    }
}

impl InputView {
    /// Well-formedness: coordinates within the layout bound.
    pub open spec fn inv(self) -> bool {
        spec_coords_ok(self.pos, self.g_pos, self.size)
    }

    /// The input's whole reaction to one raw event: a character addressed to
    /// this widget is appended and consumed; everything else bubbles.
    pub open spec fn spec_emit(self, e: WindowEvent) -> (InputView, Seq<UserEvent>, EventResult) {
        match e {
            WindowEvent::CharInput(target, c) => {
                if target == self.uid {
                    (
                        InputView { value: self.value.push(c), need_update: true, ..self },
                        Seq::empty(),
                        EventResult::NoBubbling,
                    )
                } else {
                    (self, Seq::empty(), EventResult::Bubble)
                }
            },
            _ => (self, Seq::empty(), EventResult::Bubble),
        }
    }
}

impl InputControl {
    /// Well-formedness: coordinates within the layout bound.
    pub open spec fn inv(self) -> bool {
        spec_coords_ok(self.pos, self.g_pos, self.size)
    }

    /// The drawing intents of one frame: the background, then the value.
    pub open spec fn spec_draw(self, ox: int, oy: int) -> Seq<DrawCommand> {
        seq![
            DrawCommand::FillRect {
                x: spec_sat_i64(self.pos.0 + ox) as i64,
                y: spec_sat_i64(self.pos.1 + oy) as i64,
                width: self.size.0 as u64,
                height: self.size.1 as u64,
                color: INPUT_BACKGROUND_COLOR,
            },
            DrawCommand::Text {
                x: spec_sat_i64(self.pos.0 + 4 + ox) as i64,
                y: spec_sat_i64(self.pos.1 + self.size.1 as int - 4 + oy) as i64,
                size: 13,
                color: INPUT_TEXT_COLOR,
                bold: false,
                align: TextAlign::Left,
                text: self.value,
            },
        ]
    }

    /// An empty input at `(x, y)` with extent `(w, h)` and a fresh identity.
    pub fn new(x: i32, y: i32, w: u32, h: u32, generator: &mut UidGenerator) -> (r: InputControl)
        requires
            old(generator).next < usize::MAX,
            -COORD_CAP <= x <= COORD_CAP,
            -COORD_CAP <= y <= COORD_CAP,
            w <= COORD_CAP,
            h <= COORD_CAP,
        ensures
            r.inv(),
            r.uid == old(generator).next,
            final(generator).next == old(generator).next + 1,
            r.pos == (x, y) && r.g_pos == (x, y),
            r.size == (w, h),
            r.value@ == Seq::<char>::empty(),
            r.need_update,
    {
        InputControl {
            uid: gen_uid(generator),
            pos: (x, y),
            g_pos: (x, y),
            size: (w, h),
            value: String::new(),
            need_update: true,
        }
    }

    /// Replaces the whole value.
    pub fn set_value(&mut self, value: String)
        ensures
            *final(self) == (InputControl { value: value, ..*old(self) }),
    {
        self.value = value;
    }

    /// The text typed so far.
    pub fn value(&self) -> (r: &String)
        ensures
            r == self.value,
    {
        &self.value
    }

    /// A copy of this input under a fresh identity.
    pub fn duplicate(&self, generator: &mut UidGenerator) -> (r: InputControl)
        requires
            old(generator).next < usize::MAX,
        ensures
            r == (InputControl { uid: old(generator).next, need_update: true, ..*self }),
            old(generator).issued(self.uid) ==> r.uid != self.uid,
            final(generator).next == old(generator).next + 1,
    {
        InputControl {
            uid: gen_uid(generator),
            pos: self.pos,
            g_pos: self.g_pos,
            size: self.size,
            value: self.value.clone(),
            need_update: true,
        }
    }

    /// Reacts to one raw event, surfacing semantic events into the context.
    pub fn event(&mut self, ctx: &mut EventCtx) -> (r: EventResult)
        requires
            old(self).inv(),
        ensures
            final(self)@.inv(),
            final(self)@ == old(self)@.spec_emit(old(ctx).event).0,
            r == old(self)@.spec_emit(old(ctx).event).2,
            final(ctx).event == old(ctx).event,
            final(ctx).user_events@ == old(ctx).user_events@ + old(self)@.spec_emit(old(ctx).event).1,
    {
        let result = match ctx.event {
            WindowEvent::CharInput(target, c) => {
                if target == self.uid {
                    string_push_char(&mut self.value, c);
                    self.need_update = true;
                    EventResult::NoBubbling
                } else {
                    EventResult::Bubble
                }
            },
            _ => EventResult::Bubble,
        };
        proof {
            assert(final(ctx).user_events@ =~= old(ctx).user_events@
                + old(self)@.spec_emit(old(ctx).event).1);
        }
        result
    }

    /// Whether the input needs to be painted again; pure.
    pub fn needs_redraw(&self) -> (r: bool)
        ensures
            r == self.need_update,
    {
        self.need_update
    }

    /// Issues this frame's drawing intents and clears the self-dirty flag.
    pub fn draw(&mut self, ctx: &mut DrawCtx)
        requires
            old(self).inv(),
        ensures
            *final(self) == (InputControl { need_update: false, ..*old(self) }),
            final(ctx).commands@ == old(ctx).commands@ + old(self).spec_draw(
                old(ctx).offset_x as int,
                old(ctx).offset_y as int,
            ),
            final(ctx).offset_x == old(ctx).offset_x,
            final(ctx).offset_y == old(ctx).offset_y,
            final(ctx).widget_size == old(ctx).widget_size,
    {
        ctx.fill_rect(
            self.pos.0 as i64,
            self.pos.1 as i64,
            self.size.0 as u64,
            self.size.1 as u64,
            INPUT_BACKGROUND_COLOR,
        );
        ctx.text(
            self.pos.0 as i64 + 4,
            self.pos.1 as i64 + self.size.1 as i64 - 4,
            13,
            INPUT_TEXT_COLOR,
            false,
            TextAlign::Left,
            self.value.clone(),
        );
        self.need_update = false;
        proof {
            assert(final(ctx).commands@ =~= old(ctx).commands@ + old(self).spec_draw(
                old(ctx).offset_x as int,
                old(ctx).offset_y as int,
            ));
        }
    }

    /// The box the input occupies: its own rectangle, clipped into the box
    /// the parent affords.
    pub fn layout(&self, max_box: AreaBox) -> (r: AreaBox)
        requires
            self.inv(),
        ensures
            r == spec_clipped_box(self.pos, self.size, max_box),
    {
        clipped_box(self.pos, self.size, max_box)
    }
}

} // verus!
