//! A push button: hover feedback on mouse movement, a click surfaced as a
//! `ControlClicked` event when a press lands inside it.

use vstd::prelude::*;
use crate::drawing::DrawCommand;
use crate::drawing::DrawCtx;
use crate::drawing::TextAlign;
use crate::drawing::spec_sat_i64;
use crate::events::EventCtx;
use crate::events::EventResult;
use crate::events::UserEvent;
use crate::events::WindowEvent;
use crate::geometry::AreaBox;
use crate::uid::UidGenerator;
use crate::uid::WidgetUid;
use crate::uid::gen_uid;

verus! {

/// The coordinate magnitude bound of widget positions and sizes: large enough
/// for any screen, small enough that layout arithmetic never overflows.
pub const COORD_CAP: i64 = 1_000_000;

/// Whether the point `(x, y)` lies in the closed rectangle at `(gx, gy)` with
/// extent `(w, h)`.
pub open spec fn spec_point_in(gx: int, gy: int, w: int, h: int, x: int, y: int) -> bool {
    gx <= x <= gx + w && gy <= y <= gy + h
}

/// The box a widget at `pos` with extent `size` occupies inside `max_box`:
/// its own rectangle clipped to the constraint.
pub open spec fn spec_clipped_box(pos: (i32, i32), size: (u32, u32), max_box: AreaBox) -> AreaBox {
    AreaBox {
        left: (if pos.0 as int >= max_box.left as int { pos.0 as int } else { max_box.left as int }) as isize,
        right: (if pos.0 + size.0 <= max_box.right as int { pos.0 + size.0 } else { max_box.right as int }) as isize,
        top: (if pos.1 as int >= max_box.top as int { pos.1 as int } else { max_box.top as int }) as isize,
        down: (if pos.1 + size.1 <= max_box.down as int { pos.1 + size.1 } else { max_box.down as int }) as isize,
    }
}

/// Whether a position/size pair is within the coordinate bound.  The global
/// position gets a wider range: it is the sum of an ancestor position, chrome
/// insets and the widget's own offset.
pub open spec fn spec_coords_ok(pos: (i32, i32), g_pos: (i32, i32), size: (u32, u32)) -> bool {
    &&& -COORD_CAP <= pos.0 <= COORD_CAP && -COORD_CAP <= pos.1 <= COORD_CAP
    &&& -3 * COORD_CAP <= g_pos.0 <= 3 * COORD_CAP && -3 * COORD_CAP <= g_pos.1 <= 3 * COORD_CAP
    &&& size.0 <= COORD_CAP && size.1 <= COORD_CAP
}

/// Clips a widget's own rectangle into the box the parent affords.
pub fn clipped_box(pos: (i32, i32), size: (u32, u32), max_box: AreaBox) -> (r: AreaBox)
    requires
        -2 * COORD_CAP <= pos.0 <= 2 * COORD_CAP,
        -2 * COORD_CAP <= pos.1 <= 2 * COORD_CAP,
        size.0 <= 2 * COORD_CAP,
        size.1 <= 2 * COORD_CAP,
    ensures
        r == spec_clipped_box(pos, size, max_box),
{
    let left64: i64 = if pos.0 as i64 >= max_box.left as i64 { pos.0 as i64 } else { max_box.left as i64 };
    let right64: i64 = if pos.0 as i64 + size.0 as i64 <= max_box.right as i64 {
        pos.0 as i64 + size.0 as i64
    } else {
        max_box.right as i64
    };
    let top64: i64 = if pos.1 as i64 >= max_box.top as i64 { pos.1 as i64 } else { max_box.top as i64 };
    let down64: i64 = if pos.1 as i64 + size.1 as i64 <= max_box.down as i64 {
        pos.1 as i64 + size.1 as i64
    } else {
        max_box.down as i64
    };
    AreaBox {
        left: left64 as isize,
        right: right64 as isize,
        top: top64 as isize,
        down: down64 as isize,
    }
}

/// The visual state of a button.
#[derive(Debug, Clone, Copy, PartialEq, Eq, Structural)]
pub enum ButtonStatus {
    Normal,
    Hovering,
    Active,
}

/// The fill colors of the three button states and of the label text.
pub const BUTTON_COLOR_NORMAL: u32 = 0xE8E8E8FF;

/// The fill color while the pointer hovers over the button.
pub const BUTTON_COLOR_HOVER: u32 = 0xD8ECFFFF;

/// The fill color while the button is pressed.
pub const BUTTON_COLOR_ACTIVE: u32 = 0xB8D8F8FF;

/// The label color.
pub const BUTTON_TEXT_COLOR: u32 = 0x202020FF;

/// The corner radius of the button face.
pub const BUTTON_RADIUS: u64 = 2;

/// The abstract state of a button: the struct with its text as a character
/// sequence, for use in contracts.
pub struct ButtonView {
    pub uid: WidgetUid,
    pub pos: (i32, i32),
    pub g_pos: (i32, i32),
    pub size: (u32, u32),
    pub text: Seq<char>,
    pub text_size: u32,
    pub status: ButtonStatus,
    pub need_update: bool,
}

pub struct ButtonControl {
    /// This button's identity.
    pub uid: WidgetUid,
    /// Position relative to the parent.
    pub pos: (i32, i32),
    /// Global position, written by the parent on every re-propagation.
    pub g_pos: (i32, i32),
    /// Extent `(width, height)`.
    pub size: (u32, u32),
    /// The label.
    pub text: String,
    /// The label's point size.
    pub text_size: u32,
    /// The visual state, driven by hover and press events.
    pub status: ButtonStatus,
    /// The self-dirty flag: set by every visual state change, cleared by
    /// drawing.
    pub need_update: bool,
}

impl View for ButtonControl {
    type V = ButtonView;

    open spec fn view(&self) -> ButtonView {
        ButtonView {
            uid: self.uid,
            pos: self.pos,
            g_pos: self.g_pos,
            size: self.size,
            text: self.text@,
            text_size: self.text_size,
            status: self.status,
            need_update: self.need_update,
        }
    }
}

impl ButtonView {
    /// Well-formedness: coordinates within the layout bound.
    pub open spec fn inv(self) -> bool {
        spec_coords_ok(self.pos, self.g_pos, self.size)
    }

    /// Whether the point lies on the button, in global coordinates.
    pub open spec fn spec_inside(self, x: u32, y: u32) -> bool {
        spec_point_in(
            self.g_pos.0 as int,
            self.g_pos.1 as int,
            self.size.0 as int,
            self.size.1 as int,
            x as int,
            y as int,
        )
    }

    /// The button's whole reaction to one raw event: the next state, the
    /// semantic events it surfaces, and the bubbling verdict.  A move inside
    /// hovers and consumes; a press inside activates, surfaces a click and
    /// consumes; everything else bubbles.
    pub open spec fn spec_emit(self, e: WindowEvent) -> (ButtonView, Seq<UserEvent>, EventResult) {
        match e {
            WindowEvent::MouseMove(x, y) => {
                if self.spec_inside(x, y) {
                    if self.status is Hovering {
                        (self, Seq::empty(), EventResult::NoBubbling)
                    } else {
                        (
                            ButtonView { status: ButtonStatus::Hovering, need_update: true, ..self },
                            Seq::empty(),
                            EventResult::NoBubbling,
                        )
                    }
                } else {
                    if self.status is Normal {
                        (self, Seq::empty(), EventResult::Bubble)
                    } else {
                        (
                            ButtonView { status: ButtonStatus::Normal, need_update: true, ..self },
                            Seq::empty(),
                            EventResult::Bubble,
                        )
                    }
                }
            },
            WindowEvent::MousePress(x, y) => {
                if self.spec_inside(x, y) {
                    (
                        ButtonView { status: ButtonStatus::Active, need_update: true, ..self },
                        seq![UserEvent::ControlClicked(self.uid)],
                        EventResult::NoBubbling,
                    )
                } else {
                    (self, Seq::empty(), EventResult::Bubble)
                }
            },
            _ => (self, Seq::empty(), EventResult::Bubble),
        }
    }
}

impl ButtonControl {
    /// Well-formedness: coordinates within the layout bound.
    pub open spec fn inv(self) -> bool {
        spec_coords_ok(self.pos, self.g_pos, self.size)
    }

    /// Whether the point lies on the button, in global coordinates.
    pub open spec fn spec_inside(self, x: u32, y: u32) -> bool {
        self@.spec_inside(x, y)
    }

    /// The drawing intents of one frame, at the given context translation:
    /// the face in the state's color, then the label on top.
    pub open spec fn spec_draw(self, ox: int, oy: int) -> Seq<DrawCommand> {
        let face = match self.status {
            ButtonStatus::Normal => BUTTON_COLOR_NORMAL,
            ButtonStatus::Hovering => BUTTON_COLOR_HOVER,
            ButtonStatus::Active => BUTTON_COLOR_ACTIVE,
        };
        seq![
            DrawCommand::FillRoundRect {
                x: spec_sat_i64(self.pos.0 + ox) as i64,
                y: spec_sat_i64(self.pos.1 + oy) as i64,
                width: self.size.0 as u64,
                height: self.size.1 as u64,
                radius: BUTTON_RADIUS,
                color: face,
            },
            DrawCommand::Text {
                x: spec_sat_i64(self.pos.0 + 4 + ox) as i64,
                y: spec_sat_i64(self.pos.1 + self.size.1 as int - 4 + oy) as i64,
                size: self.text_size,
                color: BUTTON_TEXT_COLOR,
                bold: false,
                align: TextAlign::Center,
                text: self.text,
            },
        ]
    }

    /// A button at `(x, y)` with extent `(w, h)` and the given label, with a
    /// fresh identity.
    pub fn new(x: i32, y: i32, w: u32, h: u32, text: String, generator: &mut UidGenerator) -> (r: ButtonControl)
        requires
            old(generator).next < usize::MAX,
            -COORD_CAP <= x <= COORD_CAP,
            -COORD_CAP <= y <= COORD_CAP,
            w <= COORD_CAP,
            h <= COORD_CAP,
        ensures
            r.inv(),
            r.uid == old(generator).next,
            final(generator).next == old(generator).next + 1,
            r.pos == (x, y) && r.g_pos == (x, y),
            r.size == (w, h),
            r.text == text,
            r.text_size == 14,
            r.status is Normal,
            r.need_update,
    {
        ButtonControl {
            uid: gen_uid(generator),
            pos: (x, y),
            g_pos: (x, y),
            size: (w, h),
            text,
            text_size: 14,
            status: ButtonStatus::Normal,
            need_update: true,
        }
    }

    /// This button's identity.
    pub fn uid(&self) -> (r: WidgetUid)
        ensures
            r == self.uid,
    {
        self.uid
    }

    /// A copy of this button under a fresh identity: a clone is a distinct
    /// widget, never an alias, and the original keeps its own identity.
    pub fn duplicate(&self, generator: &mut UidGenerator) -> (r: ButtonControl)
        requires
            old(generator).next < usize::MAX,
        ensures
            r == (ButtonControl { uid: old(generator).next, need_update: true, ..*self }),
            old(generator).issued(self.uid) ==> r.uid != self.uid,
            final(generator).next == old(generator).next + 1,
    {
        ButtonControl {
            uid: gen_uid(generator),
            pos: self.pos,
            g_pos: self.g_pos,
            size: self.size,
            text: self.text.clone(),
            text_size: self.text_size,
            status: self.status,
            need_update: true,
        }
    }

    /// Whether the point lies on the button.
    pub fn inside(&self, x: u32, y: u32) -> (r: bool)
        requires
            self.inv(),
        ensures
            r == self.spec_inside(x, y),
    {
        let xi = x as i64;
        let yi = y as i64;
        let gx = self.g_pos.0 as i64;
        let gy = self.g_pos.1 as i64;
        gx <= xi && xi <= gx + self.size.0 as i64 && gy <= yi && yi <= gy + self.size.1 as i64
    }

    /// Reacts to one raw event, surfacing semantic events into the context.
    pub fn event(&mut self, ctx: &mut EventCtx) -> (r: EventResult)
        requires
            old(self).inv(),
        ensures
            final(self)@.inv(),
            final(self)@ == old(self)@.spec_emit(old(ctx).event).0,
            r == old(self)@.spec_emit(old(ctx).event).2,
            final(ctx).event == old(ctx).event,
            final(ctx).user_events@ == old(ctx).user_events@ + old(self)@.spec_emit(old(ctx).event).1,
    {
        match ctx.event {
            WindowEvent::MouseMove(x, y) => {
                if self.inside(x, y) {
                    if !matches!(self.status, ButtonStatus::Hovering) {
                        self.status = ButtonStatus::Hovering;
                        self.need_update = true;
                    }
                    proof {
                        assert(final(ctx).user_events@ =~= old(ctx).user_events@
                            + old(self)@.spec_emit(old(ctx).event).1);
                    }
                    EventResult::NoBubbling
                } else {
                    if !matches!(self.status, ButtonStatus::Normal) {
                        self.status = ButtonStatus::Normal;
                        self.need_update = true;
                    }
                    proof {
                        assert(final(ctx).user_events@ =~= old(ctx).user_events@
                            + old(self)@.spec_emit(old(ctx).event).1);
                    }
                    EventResult::Bubble
                }
            },
            WindowEvent::MousePress(x, y) => {
                if self.inside(x, y) {
                    self.status = ButtonStatus::Active;
                    self.need_update = true;
                    ctx.user_events.push(UserEvent::ControlClicked(self.uid));
                    proof {
                        assert(final(ctx).user_events@ =~= old(ctx).user_events@
                            + old(self)@.spec_emit(old(ctx).event).1);
                    }
                    EventResult::NoBubbling
                } else {
                    proof {
                        assert(final(ctx).user_events@ =~= old(ctx).user_events@
                            + old(self)@.spec_emit(old(ctx).event).1);
                    }
                    EventResult::Bubble
                }
            },
            _ => {
                proof {
                    assert(final(ctx).user_events@ =~= old(ctx).user_events@
                        + old(self)@.spec_emit(old(ctx).event).1);
                }
                EventResult::Bubble
            },
        }
    }

    /// Whether the button needs to be painted again; pure, no bookkeeping is
    /// touched.
    pub fn needs_redraw(&self) -> (r: bool)
        ensures
            r == self.need_update,
    {
        self.need_update
    }

    /// Issues this frame's drawing intents and clears the self-dirty flag.
    pub fn draw(&mut self, ctx: &mut DrawCtx)
        requires
            old(self).inv(),
        ensures
            *final(self) == (ButtonControl { need_update: false, ..*old(self) }),
            final(ctx).commands@ == old(ctx).commands@ + old(self).spec_draw(
                old(ctx).offset_x as int,
                old(ctx).offset_y as int,
            ),
            final(ctx).offset_x == old(ctx).offset_x,
            final(ctx).offset_y == old(ctx).offset_y,
            final(ctx).widget_size == old(ctx).widget_size,
    {
        let face: u32 = match self.status {
            ButtonStatus::Normal => BUTTON_COLOR_NORMAL,
            ButtonStatus::Hovering => BUTTON_COLOR_HOVER,
            ButtonStatus::Active => BUTTON_COLOR_ACTIVE,
        };
        ctx.fill_round_rect(
            self.pos.0 as i64,
            self.pos.1 as i64,
            self.size.0 as u64,
            self.size.1 as u64,
            BUTTON_RADIUS,
            face,
        );
        ctx.text(
            self.pos.0 as i64 + 4,
            self.pos.1 as i64 + self.size.1 as i64 - 4,
            self.text_size,
            BUTTON_TEXT_COLOR,
            false,
            TextAlign::Center,
            self.text.clone(),
        );
        self.need_update = false;
        proof {
            assert(final(ctx).commands@ =~= old(ctx).commands@ + old(self).spec_draw(
                old(ctx).offset_x as int,
                old(ctx).offset_y as int,
            ));
        }
    }

    /// The box the button occupies: its own rectangle, clipped into the box
    /// the parent affords (never exceeding it).
    pub fn layout(&self, max_box: AreaBox) -> (r: AreaBox)
        requires
            self.inv(),
        ensures
            r == spec_clipped_box(self.pos, self.size, max_box),
    {
        clipped_box(self.pos, self.size, max_box)
    }
}

} // verus!
