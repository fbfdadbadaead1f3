//! The top-level window control: owns an ordered list of child widgets,
//! classifies points against its chrome (caption, close and minimize
//! buttons), animates its size with a two-dimensional spring, aggregates the
//! dirty flag, implements the event-bubbling protocol, and lingers after
//! `destroy` so a closing animation can play.

use vstd::prelude::*;
use crate::button::COORD_CAP;
use crate::drawing::DrawCommand;
use crate::drawing::DrawCtx;
use crate::events::EventCtx;
use crate::events::EventResult;
use crate::events::HitResult;
use crate::events::UserEvent;
use crate::events::WindowEvent;
use crate::fixed::spec_round_div;
use crate::geometry::AreaBox;
use crate::pod::PodView;
use crate::pod::WidgetPod;
use crate::spring::Spring;
use crate::spring::Spring2D;
use crate::uid::UidGenerator;
use crate::uid::WidgetUid;
use crate::uid::gen_uid;
use crate::widget::WidgetBox;

verus! {

/// The visual margin around the window content (room for a drop shadow).
pub const SHADOW_SIZE: u32 = 16;

/// The height of the caption bar at the top of the content.
pub const CAPTION_HEIGHT: u32 = 28;

/// The width of each caption button (close, minimize).
pub const CAPTION_BUTTON_WIDTH: u32 = 46;

/// How long a destroyed window keeps reporting "not destroyed yet", so its
/// closing animation can play, in milliseconds.
pub const LINGER_MS: u64 = 300;

/// A mouse-up this soon after a mouse-down at the same point synthesizes a
/// press, in milliseconds.
pub const PRESS_SYNTH_MS: u64 = 200;

/// The side of the square split-divider grip in the bottom-right corner of
/// the content; a press there toggles the size presets.
pub const SPLIT_GRIP: u32 = 16;

/// The window background color.
pub const WINDOW_BACKGROUND: u32 = 0x004CF7AA;

/// The caption button highlight when hovered.
pub const CLOSE_HOVER_COLOR: u32 = 0xE81123FF;

/// The caption button tint when not hovered.
pub const CAPTION_BUTTON_COLOR: u32 = 0xFFFFFF22;

/// The title text color.
pub const TITLE_COLOR: u32 = 0xFFFFFFFF;

/// The smaller of the two size presets the split-divider toggles between.
pub const PRESET_SMALL_W: u32 = 800;

/// Its height.
pub const PRESET_SMALL_H: u32 = 600;

/// The larger of the two size presets.
pub const PRESET_LARGE_W: u32 = 1200;

/// Its height.
pub const PRESET_LARGE_H: u32 = 800;

/// Which caption button the pointer is hovering, which tints its rendering.
#[derive(Copy, Clone, Debug, Eq, PartialEq, Structural)]
pub enum WindowTitleHovering {
    NoHover,
    MinBtn,
    CloseBtn,
}

/// A mutable handle to one element of a slot list.
fn pod_at(v: &mut Vec<WidgetPod>, i: usize) -> (element: &mut WidgetPod)
    requires
        i < old(v).len(),
    ensures
        *element == old(v)@[i as int],
        final(v)@ == old(v)@.update(i as int, *final(element)),
{
    &mut v[i]
}

/// The result of dispatching one event to the first `i` children, in
/// insertion order: the children after their reactions, everything they
/// surfaced (concatenated in order), and whether any of them consumed the
/// event.  Every child receives the event even after one consumed it.
pub open spec fn spec_children_emit(cs: Seq<PodView>, e: WindowEvent, i: int) -> (
    Seq<PodView>,
    Seq<UserEvent>,
    bool,
)
    decreases i,
{
    if i <= 0 {
        (cs, Seq::empty(), false)
    } else {
        let prev = spec_children_emit(cs, e, i - 1);
        let step = prev.0[i - 1].spec_emit(e);
        (
            prev.0.update(i - 1, step.0),
            prev.1 + step.1,
            prev.2 || step.2 is NoBubbling,
        )
    }
}

/// Dispatching to a prefix of the children keeps the list's length, leaves
/// the children past the prefix untouched, preserves every slot's identity
/// and cached size, and preserves well-formedness.
pub proof fn lemma_children_emit_props(cs: Seq<PodView>, e: WindowEvent, i: int)
    requires
        0 <= i <= cs.len(),
    ensures
        spec_children_emit(cs, e, i).0.len() == cs.len(),
        forall|j: int| i <= j < cs.len() ==> spec_children_emit(cs, e, i).0[j] == cs[j],
        forall|j: int| 0 <= j < cs.len()
            ==> (#[trigger] spec_children_emit(cs, e, i).0[j]).widget_id == cs[j].widget_id
                && spec_children_emit(cs, e, i).0[j].widget_size == cs[j].widget_size,
        (forall|j: int| 0 <= j < cs.len() ==> (#[trigger] cs[j]).inv()) ==> (forall|j: int|
            0 <= j < cs.len() ==> (#[trigger] spec_children_emit(cs, e, i).0[j]).inv()),
    decreases i,
{
    if i > 0 {
        lemma_children_emit_props(cs, e, i - 1);
        if (forall|j: int| 0 <= j < cs.len() ==> (#[trigger] cs[j]).inv()) {
            let prev = spec_children_emit(cs, e, i - 1);
            assert(prev.0[i - 1].inv());
            crate::widget::lemma_emit_preserves_inv(prev.0[i - 1].widget, e);
        }
    }
}

/// The drawing intents of the first `i` children, in insertion order, each at
/// the child context's translation.
pub open spec fn spec_children_draw(cs: Seq<WidgetPod>, ox: int, oy: int, i: int) -> Seq<
    DrawCommand,
>
    decreases i,
{
    if i <= 0 {
        Seq::empty()
    } else {
        spec_children_draw(cs, ox, oy, i - 1) + cs[i - 1].widget.spec_draw(ox, oy)
    }
}

/// Milliseconds from `since` to `now`, zero if the clock ran backwards.
pub open spec fn spec_elapsed_ms(now: u64, since: u64) -> int {
    if now >= since {
        now - since
    } else {
        0
    }
}

/// The abstract state of a window control.
pub struct WindowView {
    pub uid: WidgetUid,
    pub children: Seq<PodView>,
    pub title: Seq<char>,
    pub pos: (i32, i32),
    pub g_pos: (i32, i32),
    pub size: (u32, u32),
    pub size_spring: Spring2D,
    pub destroyed: bool,
    pub destroy_time: u64,
    pub mouse_down_active: bool,
    pub mouse_down_time: u64,
    pub mouse_down_pos: (u32, u32),
    pub btn_hovering: WindowTitleHovering,
    pub need_update: bool,
}

/// A top-level window.
pub struct WindowControl {
    /// The window's identity.
    pub uid: WidgetUid,
    /// The owned children, in insertion order: the first is drawn first and
    /// later children draw on top.
    pub children: Vec<WidgetPod>,
    /// The caption title.
    pub title: String,
    /// The window's own position on the screen.
    pub pos: (i32, i32),
    /// The window's global position (for a top-level window, its screen
    /// position; kept separately because propagation pushes it down).
    pub g_pos: (i32, i32),
    /// The last-rendered content size in pixels.
    pub size: (u32, u32),
    /// The spring animating the content size toward its target, in milli
    /// pixels.
    pub size_spring: Spring2D,
    /// Whether teardown has begun.
    pub destroyed: bool,
    /// When teardown began; meaningful only if `destroyed`.
    pub destroy_time: u64,
    /// Whether a mouse-down is waiting for a quick mouse-up.
    pub mouse_down_active: bool,
    /// When that mouse-down happened.
    pub mouse_down_time: u64,
    /// Where that mouse-down happened.
    pub mouse_down_pos: (u32, u32),
    /// Which caption button the pointer hovers.
    pub btn_hovering: WindowTitleHovering,
    /// The explicit self-dirty flag: title, hover and structural changes.
    pub need_update: bool,
}

impl View for WindowControl {
    type V = WindowView;

    open spec fn view(&self) -> WindowView {
        WindowView {
            uid: self.uid,
            children: self.children@.map_values(|p: WidgetPod| p@),
            title: self.title@,
            pos: self.pos,
            g_pos: self.g_pos,
            size: self.size,
            size_spring: self.size_spring,
            destroyed: self.destroyed,
            destroy_time: self.destroy_time,
            mouse_down_active: self.mouse_down_active,
            mouse_down_time: self.mouse_down_time,
            mouse_down_pos: self.mouse_down_pos,
            btn_hovering: self.btn_hovering,
            need_update: self.need_update,
        }
    }
}

impl WindowView {
    /// Well-formedness: every child well-formed, coordinates and size within
    /// the layout bound, the spring within its fixed-point ranges.
    pub open spec fn inv(self) -> bool {
        &&& forall|i: int| 0 <= i < self.children.len() ==> (#[trigger] self.children[i]).inv()
        &&& -COORD_CAP <= self.pos.0 <= COORD_CAP && -COORD_CAP <= self.pos.1 <= COORD_CAP
        &&& -COORD_CAP <= self.g_pos.0 <= COORD_CAP && -COORD_CAP <= self.g_pos.1 <= COORD_CAP
        &&& self.size.0 <= COORD_CAP && self.size.1 <= COORD_CAP
        &&& self.size_spring.inv()
    }

    /// Classifies a point in window-local coordinates: outside the content it
    /// is nowhere; in the caption bar it is the close button, the minimize
    /// button or the caption; below the caption it is client area.
    pub open spec fn spec_hit(self, x: int, y: int) -> HitResult {
        let s = SHADOW_SIZE as int;
        let w = self.size.0 as int;
        let h = self.size.1 as int;
        if !(s <= x < s + w && s <= y < s + h) {
            HitResult::Nowhere
        } else if y < s + CAPTION_HEIGHT as int {
            if x >= s + w - CAPTION_BUTTON_WIDTH as int {
                HitResult::Close
            } else if x >= s + w - 2 * CAPTION_BUTTON_WIDTH as int {
                HitResult::MinButton
            } else {
                HitResult::Caption
            }
        } else {
            HitResult::Client
        }
    }

    /// The hover state a hit result induces.
    pub open spec fn spec_hover_for(h: HitResult) -> WindowTitleHovering {
        match h {
            HitResult::Close => WindowTitleHovering::CloseBtn,
            HitResult::MinButton => WindowTitleHovering::MinBtn,
            _ => WindowTitleHovering::NoHover,
        }
    }

    /// The window after a hit test at `(x, y)`: the hover state follows the
    /// hit, and a hover change raises the dirty flag (hover feedback is
    /// drawable state).
    pub open spec fn spec_hit_state(self, x: int, y: int) -> WindowView {
        let hov = Self::spec_hover_for(self.spec_hit(x, y));
        if hov == self.btn_hovering {
            self
        } else {
            WindowView { btn_hovering: hov, need_update: true, ..self }
        }
    }

    /// Whether a point lies on the split-divider grip in the bottom-right
    /// corner of the content.
    pub open spec fn spec_in_split(self, x: int, y: int) -> bool {
        let s = SHADOW_SIZE as int;
        let w = self.size.0 as int;
        let h = self.size.1 as int;
        &&& s + w - SPLIT_GRIP as int <= x < s + w
        &&& s + h - SPLIT_GRIP as int <= y < s + h
    }

    /// The window after `destroy` at `now`: teardown begins once; repeated
    /// calls change nothing (the linger timer is not reset).
    pub open spec fn spec_destroyed_state(self, now: u64) -> WindowView {
        if self.destroyed {
            self
        } else {
            WindowView { destroyed: true, destroy_time: now, need_update: true, ..self }
        }
    }

    /// Whether the window reports itself destroyed: teardown has begun and
    /// the linger interval has fully elapsed.
    pub open spec fn spec_is_destroyed(self, now: u64) -> bool {
        self.destroyed && spec_elapsed_ms(now, self.destroy_time) > LINGER_MS as int
    }

    /// Whether the window is still inside the post-destroy linger interval.
    pub open spec fn spec_in_linger(self, now: u64) -> bool {
        self.destroyed && spec_elapsed_ms(now, self.destroy_time) <= LINGER_MS as int
    }

    /// The content size the spring stands at right now, rounded to whole
    /// pixels and clamped into the representable size range.
    pub open spec fn spec_spring_size(self, now: u64) -> (int, int) {
        let w = spec_round_div(self.size_spring.sx.spec_sample(now).0, 1000);
        let h = spec_round_div(self.size_spring.sy.spec_sample(now).0, 1000);
        (
            if w < 0 { 0 } else if w > COORD_CAP as int { COORD_CAP as int } else { w },
            if h < 0 { 0 } else if h > COORD_CAP as int { COORD_CAP as int } else { h },
        )
    }

    /// The chrome's reaction to a press the children left unconsumed: the
    /// close button begins teardown and surfaces `Quit`; the split grip
    /// toggles the size presets and surfaces an internal resize notification;
    /// anywhere else the press bubbles.
    pub open spec fn spec_chrome_press(self, x: u32, y: u32, now: u64) -> (
        WindowView,
        Seq<UserEvent>,
        EventResult,
    ) {
        if self.spec_hit(x as int, y as int) is Close {
            (self.spec_destroyed_state(now), seq![UserEvent::Quit], EventResult::NoBubbling)
        } else if self.spec_in_split(x as int, y as int) {
            let small = self.size_spring.sx.target == 800_000 && self.size_spring.sy.target
                == 600_000;
            let t: (u32, u32) = if small {
                (PRESET_LARGE_W, PRESET_LARGE_H)
            } else {
                (PRESET_SMALL_W, PRESET_SMALL_H)
            };
            let v2 = WindowView {
                size_spring: Spring2D {
                    sx: (Spring {
                        target: (t.0 * 1000) as i64,
                        ..self.size_spring.sx.spec_sampled(now)
                    }),
                    sy: (Spring {
                        target: (t.1 * 1000) as i64,
                        ..self.size_spring.sy.spec_sampled(now)
                    }),
                },
                need_update: true,
                ..self
            };
            (v2, seq![UserEvent::WindowResize(t.0, t.1)], EventResult::NoBubbling)
        } else {
            (self, Seq::empty(), EventResult::Bubble)
        }
    }

    /// The global position a child at parent-relative `pos` gets: the
    /// window's own global position plus the chrome insets (the shadow margin
    /// and, vertically, the caption bar) plus the child's offset.
    pub open spec fn spec_child_g_pos(self, pos: (i32, i32)) -> (i32, i32) {
        (
            (self.g_pos.0 + SHADOW_SIZE + pos.0) as i32,
            (self.g_pos.1 + SHADOW_SIZE + CAPTION_HEIGHT + pos.1) as i32,
        )
    }

    /// The window after a full top-down re-propagation: the parent writes
    /// every child's global position; it never reads one back.
    pub open spec fn spec_propagated(self) -> WindowView {
        WindowView {
            children: Seq::new(
                self.children.len(),
                |i: int|
                    (PodView {
                        widget: self.children[i].widget.spec_with_g_pos(
                            self.spec_child_g_pos(self.children[i].widget.spec_pos()),
                        ),
                        ..self.children[i]
                    }),
            ),
            ..self
        }
    }

    /// A coordinate clamped into the layout bound.
    pub open spec fn spec_clamp_coord(v: int) -> int {
        if v > COORD_CAP as int {
            COORD_CAP as int
        } else if v < -(COORD_CAP as int) {
            -(COORD_CAP as int)
        } else {
            v
        }
    }

    /// The container's whole reaction to one raw event — the event-bubbling
    /// protocol.  Every child receives the event, in insertion order.  If any
    /// child consumed it, the container's own chrome handling is skipped and
    /// the dispatch reports `NoBubbling`.  Otherwise the chrome reacts: a
    /// press on the close button begins teardown and surfaces `Quit`; a press
    /// on the split grip toggles the size presets and surfaces an internal
    /// resize; a mouse-down starts the press timer; a quick mouse-up at the
    /// same point synthesizes exactly one press and re-enters this same
    /// dispatch; a mouse move or window move re-propagates every child's
    /// global position; everything else bubbles.
    pub open spec fn spec_emit(self, e: WindowEvent, now: u64) -> (
        WindowView,
        Seq<UserEvent>,
        EventResult,
    ) {
        let first = spec_children_emit(self.children, e, self.children.len() as int);
        let v1 = WindowView { children: first.0, ..self };
        if first.2 {
            (v1, first.1, EventResult::NoBubbling)
        } else {
            match e {
                WindowEvent::MousePress(x, y) => {
                    let c = v1.spec_chrome_press(x, y, now);
                    (c.0, first.1 + c.1, c.2)
                },
                WindowEvent::MouseDown(x, y) => (
                    WindowView {
                        mouse_down_active: true,
                        mouse_down_time: now,
                        mouse_down_pos: (x, y),
                        ..v1
                    },
                    first.1,
                    EventResult::Bubble,
                ),
                WindowEvent::MouseUp(x, y) => {
                    if v1.mouse_down_active && now >= v1.mouse_down_time && now
                        - v1.mouse_down_time <= PRESS_SYNTH_MS && v1.mouse_down_pos == (x, y) {
                        let v2 = WindowView { mouse_down_active: false, ..v1 };
                        let second = spec_children_emit(
                            v2.children,
                            WindowEvent::MousePress(x, y),
                            v2.children.len() as int,
                        );
                        let v3 = WindowView { children: second.0, ..v2 };
                        if second.2 {
                            (v3, first.1 + second.1, EventResult::NoBubbling)
                        } else {
                            let c = v3.spec_chrome_press(x, y, now);
                            (c.0, first.1 + second.1 + c.1, EventResult::NoBubbling)
                        }
                    } else {
                        (
                            WindowView { mouse_down_active: false, ..v1 },
                            first.1,
                            EventResult::Bubble,
                        )
                    }
                },
                WindowEvent::MouseMove(_x, _y) => (v1.spec_propagated(), first.1, EventResult::Bubble),
                WindowEvent::WindowMove(x, y) => {
                    let np = (
                        Self::spec_clamp_coord(x as int) as i32,
                        Self::spec_clamp_coord(y as int) as i32,
                    );
                    let v2 = WindowView { pos: np, g_pos: np, ..v1 };
                    (v2.spec_propagated(), first.1, EventResult::Bubble)
                },
                WindowEvent::CloseWindow => (
                    v1.spec_destroyed_state(now),
                    first.1 + seq![UserEvent::Quit],
                    EventResult::NoBubbling,
                ),
                _ => (v1, first.1, EventResult::Bubble),
            }
        }
    }

    /// The box children are laid out in: the content area below the caption
    /// bar, at the content origin.
    pub open spec fn spec_client_box(self) -> AreaBox {
        AreaBox {
            left: 0,
            top: 0,
            right: self.size.0 as isize,
            down: (if self.size.1 >= CAPTION_HEIGHT {
                self.size.1 - CAPTION_HEIGHT
            } else {
                0
            }) as isize,
        }
    }

    /// The window after one layout pass: every child's cached size holds the
    /// size of the box layout computed for it inside the client area.
    pub open spec fn spec_laid(self) -> WindowView {
        WindowView {
            children: Seq::new(
                self.children.len(),
                |i: int|
                    (PodView {
                        widget_size: (
                            self.children[i].widget.spec_layout_box(
                                self.spec_client_box(),
                            ).spec_width() as u64,
                            self.children[i].widget.spec_layout_box(
                                self.spec_client_box(),
                            ).spec_height() as u64,
                        ),
                        ..self.children[i]
                    }),
            ),
            ..self
        }
    }

    /// The window after one frame's draw: the spring sampled and cached, the
    /// last-rendered size following it, every child's dirty flag cleared, and
    /// the window's own dirty flag cleared.
    pub open spec fn spec_drawn_state(self, now: u64) -> WindowView {
        WindowView {
            children: Seq::new(
                self.children.len(),
                |i: int|
                    (PodView {
                        widget: self.children[i].widget.spec_drawn_view(),
                        ..self.children[i]
                    }),
            ),
            size: (
                self.spec_spring_size(now).0 as u32,
                self.spec_spring_size(now).1 as u32,
            ),
            size_spring: Spring2D {
                sx: self.size_spring.sx.spec_sampled(now),
                sy: self.size_spring.sy.spec_sampled(now),
            },
            need_update: false,
            ..self
        }
    }

    /// The aggregated dirty signal: the explicit self-dirty flag, an
    /// unconverged spring, a spring size differing from the last-rendered
    /// size, the post-destroy linger window, or any dirty child.  Recomputed
    /// every tick; never cached, because spring convergence is
    /// time-dependent.
    pub open spec fn spec_needs_redraw(self, now: u64) -> bool {
        ||| self.need_update
        ||| !(self.size_spring.sx.spec_arrived(now) && self.size_spring.sy.spec_arrived(now))
        ||| self.spec_spring_size(now) != (self.size.0 as int, self.size.1 as int)
        ||| self.spec_in_linger(now)
        ||| exists|i: int| 0 <= i < self.children.len()
            && (#[trigger] self.children[i]).widget.spec_needs_redraw()
    }
}

impl WindowControl {
    /// The drawing intents of one frame: the background at the spring's
    /// current size, the two caption buttons (tinted by hover), the title,
    /// then every child on top.
    pub open spec fn spec_draw_commands(self, now: u64, ox: int, oy: int) -> Seq<DrawCommand> {
        let w = self@.spec_spring_size(now).0;
        let h = self@.spec_spring_size(now).1;
        let close_color: u32 = if self.btn_hovering is CloseBtn {
            CLOSE_HOVER_COLOR
        } else {
            CAPTION_BUTTON_COLOR
        };
        let min_color: u32 = if self.btn_hovering is MinBtn {
            CLOSE_HOVER_COLOR
        } else {
            CAPTION_BUTTON_COLOR
        };
        seq![
            DrawCommand::FillRoundRect {
                x: crate::drawing::spec_sat_i64(SHADOW_SIZE + ox) as i64,
                y: crate::drawing::spec_sat_i64(SHADOW_SIZE + oy) as i64,
                width: w as u64,
                height: h as u64,
                radius: 2,
                color: WINDOW_BACKGROUND,
            },
            DrawCommand::FillRect {
                x: crate::drawing::spec_sat_i64(
                    SHADOW_SIZE + w - CAPTION_BUTTON_WIDTH + ox,
                ) as i64,
                y: crate::drawing::spec_sat_i64(SHADOW_SIZE + oy) as i64,
                width: CAPTION_BUTTON_WIDTH as u64,
                height: CAPTION_HEIGHT as u64,
                color: close_color,
            },
            DrawCommand::FillRect {
                x: crate::drawing::spec_sat_i64(
                    SHADOW_SIZE + w - 2 * CAPTION_BUTTON_WIDTH + ox,
                ) as i64,
                y: crate::drawing::spec_sat_i64(SHADOW_SIZE + oy) as i64,
                width: CAPTION_BUTTON_WIDTH as u64,
                height: CAPTION_HEIGHT as u64,
                color: min_color,
            },
            DrawCommand::Text {
                x: crate::drawing::spec_sat_i64(SHADOW_SIZE + 4 + ox) as i64,
                y: crate::drawing::spec_sat_i64(SHADOW_SIZE + 20 + oy) as i64,
                size: 14,
                color: TITLE_COLOR,
                bold: true,
                align: crate::drawing::TextAlign::Left,
                text: self.title,
            },
        ] + spec_children_draw(
            self.children@,
            crate::drawing::spec_sat_i64(ox + SHADOW_SIZE),
            crate::drawing::spec_sat_i64(oy + SHADOW_SIZE + CAPTION_HEIGHT),
            self.children@.len() as int,
        )
    }

    /// A window owning one initial child, with the default 800 by 600 size,
    /// its spring resting there, and a fresh identity.
    pub fn new(inner: WidgetBox, generator: &mut UidGenerator, now: u64) -> (r: WindowControl)
        requires
            old(generator).next < usize::MAX - 1,
            inner@.inv(),
        ensures
            r@.inv(),
            r.uid == old(generator).next,
            final(generator).next == old(generator).next + 2,
            r@.children.len() == 1,
            r@.children[0].widget == inner@,
            r@.children[0].widget_id == old(generator).next + 1,
            r.title@ == Seq::<char>::empty(),
            r.size == (PRESET_SMALL_W, PRESET_SMALL_H),
            r.size_spring.sx.target == 800_000 && r.size_spring.sy.target == 600_000,
            r.size_spring.sx.position == 800_000 && r.size_spring.sy.position == 600_000,
            !r.destroyed,
            !r.mouse_down_active,
            r.btn_hovering is NoHover,
            r.need_update,
    {
        let uid = gen_uid(generator);
        let pod = WidgetPod::new(inner, generator);
        let mut children: Vec<WidgetPod> = Vec::new();
        children.push(pod);
        let r = WindowControl {
            uid,
            children,
            title: String::new(),
            pos: (0, 0),
            g_pos: (0, 0),
            size: (PRESET_SMALL_W, PRESET_SMALL_H),
            size_spring: Spring2D::new((800_000, 600_000), now),
            destroyed: false,
            destroy_time: 0,
            mouse_down_active: false,
            mouse_down_time: 0,
            mouse_down_pos: (0, 0),
            btn_hovering: WindowTitleHovering::NoHover,
            need_update: true,
        };
        proof {
            assert(r@.children =~= seq![pod@]);
        }
        r
    }

    /// Appends one more child; it receives events and is drawn after (on top
    /// of) the existing children.
    pub fn add_child(&mut self, widget: WidgetBox, generator: &mut UidGenerator)
        requires
            old(self)@.inv(),
            old(generator).next < usize::MAX,
            widget@.inv(),
        ensures
            final(self)@ == (WindowView {
                children: old(self)@.children.push(
                    PodView {
                        widget_id: old(generator).next,
                        widget: widget@,
                        widget_size: (u64::MAX, u64::MAX),
                    },
                ),
                need_update: true,
                ..old(self)@
            }),
            final(generator).next == old(generator).next + 1,
            final(self)@.inv(),
    {
        let pod = WidgetPod::new(widget, generator);
        self.children.push(pod);
        self.need_update = true;
        proof {
            assert(final(self)@.children =~= old(self)@.children.push(
                PodView {
                    widget_id: old(generator).next,
                    widget: widget@,
                    widget_size: (u64::MAX, u64::MAX),
                },
            ));
        }
    }

    /// Sets the window size the builder way.
    pub fn with_width(self, v: u32, now: u64) -> (r: WindowControl)
        requires
            self@.inv(),
            v <= COORD_CAP,
        ensures
            r@ == (WindowView {
                size: (v, self@.size.1),
                size_spring: Spring2D {
                    sx: Spring {
                        start_time: now,
                        damper: 1000,
                        velocity: 0,
                        speed: 1000,
                        target: (v * 1000) as i64,
                        position: (v * 1000) as i64,
                    },
                    sy: self@.size_spring.sy,
                },
                ..self@
            }),
            r@.inv(),
    {
        let mut r = self;
        r.size = (v, r.size.1);
        r.size_spring.sx = Spring::new(v as i64 * 1000, now);
        r
    }

    /// Sets the window height the builder way.
    pub fn with_height(self, v: u32, now: u64) -> (r: WindowControl)
        requires
            self@.inv(),
            v <= COORD_CAP,
        ensures
            r@ == (WindowView {
                size: (self@.size.0, v),
                size_spring: Spring2D {
                    sx: self@.size_spring.sx,
                    sy: Spring {
                        start_time: now,
                        damper: 1000,
                        velocity: 0,
                        speed: 1000,
                        target: (v * 1000) as i64,
                        position: (v * 1000) as i64,
                    },
                },
                ..self@
            }),
            r@.inv(),
    {
        let mut r = self;
        r.size = (r.size.0, v);
        r.size_spring.sy = Spring::new(v as i64 * 1000, now);
        r
    }

    /// Sets the title the builder way.
    pub fn with_title(self, v: String) -> (r: WindowControl)
        ensures
            r@ == (WindowView { title: v@, ..self@ }),
    {
        let mut r = self;
        r.title = v;
        r
    }

    /// Replaces the title; a title change is drawable state, so it raises the
    /// dirty flag.
    pub fn set_title(&mut self, v: String)
        ensures
            final(self)@ == (WindowView { title: v@, need_update: true, ..old(self)@ }),
    {
        self.title = v;
        self.need_update = true;
    }

    /// The current title.
    pub fn title(&self) -> (r: String)
        ensures
            r@ == self@.title,
    {
        self.title.clone()
    }

    /// Showing is the platform window's act; the control itself has nothing
    /// to do.
    pub fn show(&self) {
    }

    /// The total width including the visual margin on both sides.
    pub fn real_width(&self) -> (r: u32)
        requires
            self@.inv(),
        ensures
            r == self.size.0 + 2 * SHADOW_SIZE,
    {
        self.size.0 + 2 * SHADOW_SIZE
    }

    /// The total height including the visual margin on both sides.
    pub fn real_height(&self) -> (r: u32)
        requires
            self@.inv(),
        ensures
            r == self.size.1 + 2 * SHADOW_SIZE,
    {
        self.size.1 + 2 * SHADOW_SIZE
    }

    /// Begins teardown.  Idempotent: a repeated call does not reset the
    /// linger timer.
    pub fn destroy(&mut self, now: u64)
        ensures
            final(self)@ == old(self)@.spec_destroyed_state(now),
            final(self).destroyed,
    {
        if self.destroyed {
            return;
        }
        self.destroyed = true;
        self.destroy_time = now;
        self.need_update = true;
    }

    /// Whether the window is fully torn down: destroyed and the linger
    /// interval elapsed.
    pub fn is_destroyed(&self, now: u64) -> (r: bool)
        ensures
            r == self@.spec_is_destroyed(now),
    {
        self.destroyed && (now >= self.destroy_time && now - self.destroy_time > LINGER_MS)
    }

    /// Classifies a point against the window chrome and updates the hover
    /// state, raising the dirty flag when the hover changed (the one hit-test
    /// call permitted to mutate, because hover feedback is drawable).
    pub fn hit_test(&mut self, x: i32, y: i32) -> (r: HitResult)
        requires
            old(self)@.inv(),
        ensures
            r == old(self)@.spec_hit(x as int, y as int),
            final(self)@ == old(self)@.spec_hit_state(x as int, y as int),
            final(self)@.inv(),
    {
        let r = self.classify(x as i64, y as i64);
        let hov = match r {
            HitResult::Close => WindowTitleHovering::CloseBtn,
            HitResult::MinButton => WindowTitleHovering::MinBtn,
            _ => WindowTitleHovering::NoHover,
        };
        if !matches!(
            (hov, self.btn_hovering),
            (WindowTitleHovering::NoHover, WindowTitleHovering::NoHover)
            | (WindowTitleHovering::MinBtn, WindowTitleHovering::MinBtn)
            | (WindowTitleHovering::CloseBtn, WindowTitleHovering::CloseBtn)
        ) {
            self.btn_hovering = hov;
            self.need_update = true;
        }
        r
    }

    /// Pure chrome classification of a window-local point.
    fn classify(&self, x: i64, y: i64) -> (r: HitResult)
        requires
            self@.inv(),
        ensures
            r == self@.spec_hit(x as int, y as int),
    {
        let s = SHADOW_SIZE as i64;
        let w = self.size.0 as i64;
        let h = self.size.1 as i64;
        if !(s <= x && x < s + w && s <= y && y < s + h) {
            HitResult::Nowhere
        } else if y < s + CAPTION_HEIGHT as i64 {
            if x >= s + w - CAPTION_BUTTON_WIDTH as i64 {
                HitResult::Close
            } else if x >= s + w - 2 * (CAPTION_BUTTON_WIDTH as i64) {
                HitResult::MinButton
            } else {
                HitResult::Caption
            }
        } else {
            HitResult::Client
        }
    }

    /// Sets the size the spring animates toward, in pixels.
    pub fn set_size_target(&mut self, w: u32, h: u32, now: u64)
        requires
            old(self)@.inv(),
            w <= COORD_CAP,
            h <= COORD_CAP,
        ensures
            final(self)@ == (WindowView {
                size_spring: Spring2D {
                    sx: (Spring {
                        target: (w * 1000) as i64,
                        ..old(self)@.size_spring.sx.spec_sampled(now)
                    }),
                    sy: (Spring {
                        target: (h * 1000) as i64,
                        ..old(self)@.size_spring.sy.spec_sampled(now)
                    }),
                },
                ..old(self)@
            }),
            final(self)@.inv(),
    {
        self.size_spring.set_target((w as i64 * 1000, h as i64 * 1000), now);
    }

    /// The aggregated dirty query of one tick; pure, so that repeated queries
    /// at one instant agree.
    pub fn needs_redraw(&self, now: u64) -> (r: bool)
        requires
            self@.inv(),
        ensures
            r == self@.spec_needs_redraw(now),
    {
        if self.need_update {
            return true;
        }
        if !self.size_spring.arrived(now) {
            return true;
        }
        let (sw, sh) = self.spring_size(now);
        if sw != self.size.0 || sh != self.size.1 {
            return true;
        }
        if self.destroyed && !(now >= self.destroy_time && now - self.destroy_time > LINGER_MS) {
            return true;
        }
        let n = self.children.len();
        let mut i: usize = 0;
        while i < n
            invariant
                self@.inv(),
                n == self.children@.len(),
                i <= n,
                forall|j: int| 0 <= j < i
                    ==> !(#[trigger] self@.children[j]).widget.spec_needs_redraw(),
            decreases n - i,
        {
            if self.children[i].update() {
                proof {
                    assert(self@.children[i as int] == self.children@[i as int]@);
                    assert((#[trigger] self@.children[i as int]).widget.spec_needs_redraw());
                    assert((i as int) < self@.children.len());
                }
                return true;
            }
            i = i + 1;
        }
        false
    }

    /// Dispatches the context's event to every child in insertion order;
    /// reports whether any child consumed it.  Dispatch never stops early:
    /// every child always receives the event.
    fn children_dispatch(&mut self, ctx: &mut EventCtx) -> (consumed: bool)
        requires
            old(self)@.inv(),
        ensures
            final(self)@ == (WindowView {
                children: spec_children_emit(
                    old(self)@.children,
                    old(ctx).event,
                    old(self)@.children.len() as int,
                ).0,
                ..old(self)@
            }),
            consumed == spec_children_emit(
                old(self)@.children,
                old(ctx).event,
                old(self)@.children.len() as int,
            ).2,
            final(ctx).event == old(ctx).event,
            final(ctx).user_events@ == old(ctx).user_events@ + spec_children_emit(
                old(self)@.children,
                old(ctx).event,
                old(self)@.children.len() as int,
            ).1,
            final(self)@.inv(),
    {
        let ghost cs0 = self@.children;
        let ghost e = ctx.event;
        let n = self.children.len();
        proof {
            assert(cs0.len() == n);
        }
        let mut consumed = false;
        let mut i: usize = 0;
        while i < n
            invariant
                i <= n,
                n == self.children@.len(),
                cs0.len() == n,
                ctx.event == e,
                self@ == (WindowView {
                    children: spec_children_emit(cs0, e, i as int).0,
                    ..old(self)@
                }),
                consumed == spec_children_emit(cs0, e, i as int).2,
                ctx.user_events@ == old(ctx).user_events@ + spec_children_emit(cs0, e, i as int).1,
                forall|j: int| 0 <= j < cs0.len() ==> (#[trigger] cs0[j]).inv(),
            decreases n - i,
        {
            proof {
                lemma_children_emit_props(cs0, e, i as int);
                assert(self@.children[i as int] == self.children@[i as int]@);
                assert(self@.children[i as int].inv());
            }
            let pod = pod_at(&mut self.children, i);
            let r = pod.event(ctx);
            if matches!(r, EventResult::NoBubbling) {
                consumed = true;
            }
            proof {
                let prev = spec_children_emit(cs0, e, i as int);
                let next = spec_children_emit(cs0, e, i as int + 1);
                assert(self@.children =~= next.0);
                assert(ctx.user_events@ =~= old(ctx).user_events@ + next.1);
                assert(consumed == next.2);
            }
            i = i + 1;
        }
        proof {
            lemma_children_emit_props(cs0, e, n as int);
        }
        consumed
    }

    /// Whether a point lies on the split-divider grip.
    fn in_split(&self, x: i64, y: i64) -> (r: bool)
        requires
            self@.inv(),
        ensures
            r == self@.spec_in_split(x as int, y as int),
    {
        let s = SHADOW_SIZE as i64;
        let w = self.size.0 as i64;
        let h = self.size.1 as i64;
        s + w - SPLIT_GRIP as i64 <= x && x < s + w && s + h - SPLIT_GRIP as i64 <= y && y < s + h
    }

    /// The chrome's reaction to a press the children left unconsumed.
    fn chrome_press(&mut self, x: u32, y: u32, now: u64, ctx: &mut EventCtx) -> (r: EventResult)
        requires
            old(self)@.inv(),
        ensures
            final(self)@ == old(self)@.spec_chrome_press(x, y, now).0,
            r == old(self)@.spec_chrome_press(x, y, now).2,
            final(ctx).event == old(ctx).event,
            final(ctx).user_events@ == old(ctx).user_events@ + old(self)@.spec_chrome_press(
                x,
                y,
                now,
            ).1,
            final(self)@.inv(),
    {
        let hit = self.classify(x as i64, y as i64);
        if matches!(hit, HitResult::Close) {
            self.destroy(now);
            ctx.user_events.push(UserEvent::Quit);
            proof {
                assert(final(ctx).user_events@ =~= old(ctx).user_events@
                    + old(self)@.spec_chrome_press(x, y, now).1);
            }
            EventResult::NoBubbling
        } else if self.in_split(x as i64, y as i64) {
            let small = self.size_spring.sx.target == 800_000
                && self.size_spring.sy.target == 600_000;
            let (tw, th) = if small {
                (PRESET_LARGE_W, PRESET_LARGE_H)
            } else {
                (PRESET_SMALL_W, PRESET_SMALL_H)
            };
            self.set_size_target(tw, th, now);
            self.need_update = true;
            ctx.user_events.push(UserEvent::WindowResize(tw, th));
            proof {
                assert(final(ctx).user_events@ =~= old(ctx).user_events@
                    + old(self)@.spec_chrome_press(x, y, now).1);
            }
            EventResult::NoBubbling
        } else {
            proof {
                assert(final(ctx).user_events@ =~= old(ctx).user_events@
                    + old(self)@.spec_chrome_press(x, y, now).1);
            }
            EventResult::Bubble
        }
    }

    /// Pushes every child's global position down: the window's own global
    /// position plus the chrome insets plus the child's parent-relative
    /// offset.
    fn propagate_positions(&mut self)
        requires
            old(self)@.inv(),
        ensures
            final(self)@ == old(self)@.spec_propagated(),
            final(self)@.inv(),
    {
        let ghost cs0 = self@.children;
        let n = self.children.len();
        let mut i: usize = 0;
        while i < n
            invariant
                i <= n,
                n == self.children@.len(),
                cs0.len() == n,
                old(self)@.inv(),
                cs0 == old(self)@.children,
                self@ == (WindowView { children: self@.children, ..old(self)@ }),
                forall|j: int| (i as int) <= j < n ==> #[trigger] self@.children[j] == cs0[j],
                forall|j: int| 0 <= j < (i as int) ==> #[trigger] self@.children[j]
                    == old(self)@.spec_propagated().children[j],
                forall|j: int| 0 <= j < n ==> (#[trigger] self@.children[j]).inv(),
            decreases n - i,
        {
            proof {
                assert(self@.children[i as int] == self.children@[i as int]@);
                assert(self@.children[i as int] == cs0[i as int]);
                assert(cs0[i as int].inv());
                crate::widget::lemma_pos_in_bounds(cs0[i as int].widget);
            }
            let pos = self.children[i].widget.pos();
            let gx64: i64 = self.g_pos.0 as i64 + SHADOW_SIZE as i64 + pos.0 as i64;
            let gy64: i64 = self.g_pos.1 as i64 + SHADOW_SIZE as i64 + CAPTION_HEIGHT as i64
                + pos.1 as i64;
            proof {
                assert(-3 * COORD_CAP <= gx64 <= 3 * COORD_CAP);
                assert(-3 * COORD_CAP <= gy64 <= 3 * COORD_CAP);
            }
            let g = (gx64 as i32, gy64 as i32);
            let ghost target_pod = (PodView {
                widget: cs0[i as int].widget.spec_with_g_pos(
                    old(self)@.spec_child_g_pos(cs0[i as int].widget.spec_pos()),
                ),
                ..cs0[i as int]
            });
            let ghost pre_vec = self.children@;
            let ghost pre = self@.children;
            let pod = pod_at(&mut self.children, i);
            proof {
                assert(pod@ == cs0[i as int]);
                assert(pod@.inv());
                assert(g == old(self)@.spec_child_g_pos(cs0[i as int].widget.spec_pos()));
            }
            pod.widget.set_g_pos(g);
            proof {
                assert(self@.children[i as int] == self.children@[i as int]@);
                assert(self@.children[i as int] == target_pod);
                assert(old(self)@.spec_propagated().children[i as int] == target_pod);
                assert(self@.children[i as int].inv());
                assert forall|j: int| 0 <= j < n && j != (i as int) implies
                    #[trigger] self@.children[j] == pre[j] by {
                    assert(self@.children[j] == self.children@[j]@);
                    assert(self.children@[j] == pre_vec[j]);
                    assert(pre[j] == pre_vec[j]@);
                }
            }
            i = i + 1;
        }
        proof {
            assert(self@.children =~= old(self)@.spec_propagated().children);
        }
    }

    /// Reacts to one raw event: the event-bubbling protocol of this window.
    /// Children first, in insertion order, every child always reached; the
    /// chrome acts only if no child consumed; `Bubble` comes back only if the
    /// window itself took no action either.
    pub fn emit(&mut self, ctx: &mut EventCtx, now: u64) -> (r: EventResult)
        requires
            old(self)@.inv(),
        ensures
            final(self)@ == old(self)@.spec_emit(old(ctx).event, now).0,
            r == old(self)@.spec_emit(old(ctx).event, now).2,
            final(ctx).event == old(ctx).event,
            final(ctx).user_events@ == old(ctx).user_events@ + old(self)@.spec_emit(
                old(ctx).event,
                now,
            ).1,
            final(self)@.inv(),
    {
        let e = ctx.event;
        let consumed = self.children_dispatch(ctx);
        if consumed {
            return EventResult::NoBubbling;
        }
        match e {
            WindowEvent::MousePress(x, y) => {
                let r = self.chrome_press(x, y, now, ctx);
                proof {
                    assert(final(ctx).user_events@ =~= old(ctx).user_events@
                        + old(self)@.spec_emit(e, now).1);
                }
                r
            },
            WindowEvent::MouseDown(x, y) => {
                self.mouse_down_active = true;
                self.mouse_down_time = now;
                self.mouse_down_pos = (x, y);
                EventResult::Bubble
            },
            WindowEvent::MouseUp(x, y) => {
                if self.mouse_down_active && now >= self.mouse_down_time
                    && now - self.mouse_down_time <= PRESS_SYNTH_MS
                    && self.mouse_down_pos.0 == x && self.mouse_down_pos.1 == y {
                    self.mouse_down_active = false;
                    ctx.event = WindowEvent::MousePress(x, y);
                    let consumed2 = self.children_dispatch(ctx);
                    if !consumed2 {
                        let _ = self.chrome_press(x, y, now, ctx);
                    }
                    ctx.event = e;
                    proof {
                        assert(final(ctx).user_events@ =~= old(ctx).user_events@
                            + old(self)@.spec_emit(e, now).1);
                    }
                    EventResult::NoBubbling
                } else {
                    self.mouse_down_active = false;
                    EventResult::Bubble
                }
            },
            WindowEvent::MouseMove(_x, _y) => {
                self.propagate_positions();
                EventResult::Bubble
            },
            WindowEvent::WindowMove(x, y) => {
                let nx: i32 = if x as i64 > COORD_CAP {
                    COORD_CAP as i32
                } else if (x as i64) < -COORD_CAP {
                    -(COORD_CAP as i32)
                } else {
                    x
                };
                let ny: i32 = if y as i64 > COORD_CAP {
                    COORD_CAP as i32
                } else if (y as i64) < -COORD_CAP {
                    -(COORD_CAP as i32)
                } else {
                    y
                };
                self.pos = (nx, ny);
                self.g_pos = (nx, ny);
                self.propagate_positions();
                EventResult::Bubble
            },
            WindowEvent::CloseWindow => {
                self.destroy(now);
                ctx.user_events.push(UserEvent::Quit);
                proof {
                    assert(final(ctx).user_events@ =~= old(ctx).user_events@
                        + old(self)@.spec_emit(e, now).1);
                }
                EventResult::NoBubbling
            },
            _ => EventResult::Bubble,
        }
    }

    /// Lays out every child inside the client area (the content below the
    /// caption bar), caching each child's computed size, and returns the box
    /// the window itself occupies: its full footprint clipped into
    /// `max_box`.
    pub fn layout(&mut self, max_box: AreaBox) -> (r: AreaBox)
        requires
            old(self)@.inv(),
        ensures
            final(self)@ == old(self)@.spec_laid(),
            final(self)@.inv(),
            r == crate::button::spec_clipped_box(
                (0, 0),
                ((old(self)@.size.0 + 2 * SHADOW_SIZE) as u32,
                 (old(self)@.size.1 + 2 * SHADOW_SIZE) as u32),
                max_box,
            ),
    {
        let client = self.client_box();
        let ghost cs0 = self@.children;
        let n = self.children.len();
        let mut i: usize = 0;
        while i < n
            invariant
                i <= n,
                n == self.children@.len(),
                cs0.len() == n,
                old(self)@.inv(),
                cs0 == old(self)@.children,
                client == old(self)@.spec_client_box(),
                self@ == (WindowView { children: self@.children, ..old(self)@ }),
                forall|j: int| (i as int) <= j < n ==> #[trigger] self@.children[j] == cs0[j],
                forall|j: int| 0 <= j < (i as int) ==> #[trigger] self@.children[j]
                    == old(self)@.spec_laid().children[j],
                forall|j: int| 0 <= j < n ==> (#[trigger] self@.children[j]).inv(),
            decreases n - i,
        {
            proof {
                assert(self@.children[i as int] == self.children@[i as int]@);
                assert(self@.children[i as int] == cs0[i as int]);
            }
            let ghost pre_vec = self.children@;
            let ghost pre = self@.children;
            let pod = pod_at(&mut self.children, i);
            proof {
                assert(pod@ == cs0[i as int]);
                assert(pod@.inv());
            }
            let _ = pod.layout(client);
            proof {
                assert(self@.children[i as int] == self.children@[i as int]@);
                assert(self@.children[i as int] == old(self)@.spec_laid().children[i as int]);
                assert(self@.children[i as int].inv());
                assert forall|j: int| 0 <= j < n && j != (i as int) implies
                    #[trigger] self@.children[j] == pre[j] by {
                    assert(self@.children[j] == self.children@[j]@);
                    assert(self.children@[j] == pre_vec[j]);
                    assert(pre[j] == pre_vec[j]@);
                }
            }
            i = i + 1;
        }
        proof {
            assert(self@.children =~= old(self)@.spec_laid().children);
        }
        crate::button::clipped_box(
            (0, 0),
            (self.size.0 + 2 * SHADOW_SIZE, self.size.1 + 2 * SHADOW_SIZE),
            max_box,
        )
    }

    /// The box children are laid out in: the content below the caption bar.
    fn client_box(&self) -> (r: AreaBox)
        requires
            self@.inv(),
        ensures
            r == self@.spec_client_box(),
    {
        AreaBox {
            left: 0,
            top: 0,
            right: self.size.0 as isize,
            down: if self.size.1 >= CAPTION_HEIGHT {
                (self.size.1 - CAPTION_HEIGHT) as isize
            } else {
                0
            },
        }
    }

    /// Draws the window and its children for one frame: the spring is
    /// sampled, the last-rendered size follows it, the chrome is painted
    /// first and the children on top (insertion order), and the self-dirty
    /// flag clears.
    pub fn draw(&mut self, ctx: &mut DrawCtx, now: u64)
        requires
            old(self)@.inv(),
        ensures
            final(self)@ == old(self)@.spec_drawn_state(now),
            final(self)@.inv(),
            final(ctx).commands@ == old(ctx).commands@ + old(self).spec_draw_commands(
                now,
                old(ctx).offset_x as int,
                old(ctx).offset_y as int,
            ),
            final(ctx).offset_x == old(ctx).offset_x,
            final(ctx).offset_y == old(ctx).offset_y,
            final(ctx).widget_size == old(ctx).widget_size,
    {
        let (sw, sh) = self.spring_size(now);
        let _ = self.size_spring.position(now);
        self.size = (sw, sh);
        self.need_update = false;
        let close_color: u32 = if matches!(self.btn_hovering, WindowTitleHovering::CloseBtn) {
            CLOSE_HOVER_COLOR
        } else {
            CAPTION_BUTTON_COLOR
        };
        let min_color: u32 = if matches!(self.btn_hovering, WindowTitleHovering::MinBtn) {
            CLOSE_HOVER_COLOR
        } else {
            CAPTION_BUTTON_COLOR
        };
        ctx.fill_round_rect(
            SHADOW_SIZE as i64,
            SHADOW_SIZE as i64,
            sw as u64,
            sh as u64,
            2,
            WINDOW_BACKGROUND,
        );
        ctx.fill_rect(
            SHADOW_SIZE as i64 + sw as i64 - CAPTION_BUTTON_WIDTH as i64,
            SHADOW_SIZE as i64,
            CAPTION_BUTTON_WIDTH as u64,
            CAPTION_HEIGHT as u64,
            close_color,
        );
        ctx.fill_rect(
            SHADOW_SIZE as i64 + sw as i64 - 2 * (CAPTION_BUTTON_WIDTH as i64),
            SHADOW_SIZE as i64,
            CAPTION_BUTTON_WIDTH as u64,
            CAPTION_HEIGHT as u64,
            min_color,
        );
        ctx.text(
            SHADOW_SIZE as i64 + 4,
            SHADOW_SIZE as i64 + 20,
            14,
            TITLE_COLOR,
            true,
            crate::drawing::TextAlign::Left,
            self.title.clone(),
        );
        let mut cctx = ctx.fork(SHADOW_SIZE as i64, SHADOW_SIZE as i64 + CAPTION_HEIGHT as i64);
        let ghost cox = cctx.offset_x as int;
        let ghost coy = cctx.offset_y as int;
        let ghost cs0 = self@.children;
        let ghost cs0_vec = self.children@;
        let n = self.children.len();
        let mut i: usize = 0;
        while i < n
            invariant
                i <= n,
                n == self.children@.len(),
                cs0.len() == n,
                cs0_vec.len() == n,
                cs0 == cs0_vec.map_values(|p: WidgetPod| p@),
                forall|j: int| 0 <= j < n ==> #[trigger] cs0[j] == cs0_vec[j]@,
                forall|j: int| 0 <= j < n ==> (#[trigger] cs0[j]).inv(),
                self@ == (WindowView { children: self@.children, ..old(self)@.spec_drawn_state(now) }),
                forall|j: int| (i as int) <= j < n ==> #[trigger] self@.children[j] == cs0[j]
                    && self.children@[j] == cs0_vec[j],
                forall|j: int| 0 <= j < (i as int) ==> #[trigger] self@.children[j]
                    == (PodView { widget: cs0[j].widget.spec_drawn_view(), ..cs0[j] }),
                forall|j: int| 0 <= j < n ==> (#[trigger] self@.children[j]).inv(),
                cctx.offset_x == cox && cctx.offset_y == coy,
                cctx.commands@ == spec_children_draw(cs0_vec, cox, coy, i as int),
            decreases n - i,
        {
            proof {
                assert(self@.children[i as int] == self.children@[i as int]@);
                assert(self@.children[i as int] == cs0[i as int]);
            }
            let ghost pre_vec = self.children@;
            let ghost pre = self@.children;
            let pod = pod_at(&mut self.children, i);
            proof {
                assert(pod@ == cs0[i as int]);
                assert(pod@.inv());
                assert(*pod == cs0_vec[i as int]);
            }
            pod.draw(&mut cctx);
            proof {
                assert(self@.children[i as int] == self.children@[i as int]@);
                assert(self@.children[i as int]
                    == (PodView { widget: cs0[i as int].widget.spec_drawn_view(), ..cs0[i as int] }));
                assert forall|j: int| 0 <= j < n && j != (i as int) implies
                    #[trigger] self@.children[j] == pre[j] by {
                    assert(self@.children[j] == self.children@[j]@);
                    assert(self.children@[j] == pre_vec[j]);
                    assert(pre[j] == pre_vec[j]@);
                }
                assert(cctx.commands@ =~= spec_children_draw(cs0_vec, cox, coy, i as int + 1));
            }
            i = i + 1;
        }
        ctx.join(cctx);
        proof {
            assert(self@.children =~= old(self)@.spec_drawn_state(now).children);
            assert(final(ctx).commands@ =~= old(ctx).commands@ + old(self).spec_draw_commands(
                now,
                old(ctx).offset_x as int,
                old(ctx).offset_y as int,
            ));
        }
    }

    /// The content size the spring stands at right now, in whole pixels.
    pub fn spring_size(&self, now: u64) -> (r: (u32, u32))
        requires
            self@.inv(),
        ensures
            r.0 == self@.spec_spring_size(now).0,
            r.1 == self@.spec_spring_size(now).1,
    {
        let (px, _vx) = self.size_spring.sx.sample(now);
        let (py, _vy) = self.size_spring.sy.sample(now);
        let w = crate::fixed::round_div(px, 1000);
        let h = crate::fixed::round_div(py, 1000);
        (
            if w < 0 { 0 } else if w > COORD_CAP { COORD_CAP as u32 } else { w as u32 },
            if h < 0 { 0 } else if h > COORD_CAP { COORD_CAP as u32 } else { h as u32 },
        )
    }
}

/// Law: if ANY child consumes an event, the container's own chrome logic for
/// that event is skipped entirely — the dispatch ends with the children's
/// effects alone and reports `NoBubbling`.
pub proof fn lemma_consumed_skips_chrome(v: WindowView, e: WindowEvent, now: u64)
    requires
        v.inv(),
        spec_children_emit(v.children, e, v.children.len() as int).2,
    ensures
        v.spec_emit(e, now).0 == (WindowView {
            children: spec_children_emit(v.children, e, v.children.len() as int).0,
            ..v
        }),
        v.spec_emit(e, now).1 == spec_children_emit(v.children, e, v.children.len() as int).1,
        v.spec_emit(e, now).2 is NoBubbling,
{
}

/// Law: a press the children leave unconsumed, landing inside the
/// close-button region, begins teardown and surfaces `Quit`; the window then
/// reports destroyed exactly once the linger interval has elapsed — false at
/// the instant of the press and throughout the linger window, true after it.
pub proof fn lemma_close_press_lingers(v: WindowView, x: u32, y: u32, t0: u64, t: u64)
    requires
        v.inv(),
        !v.destroyed,
        v.spec_hit(x as int, y as int) is Close,
        !spec_children_emit(
            v.children,
            WindowEvent::MousePress(x, y),
            v.children.len() as int,
        ).2,
    ensures
        ({
            let after = v.spec_emit(WindowEvent::MousePress(x, y), t0).0;
            &&& after.destroyed
            &&& after.destroy_time == t0
            &&& !after.spec_is_destroyed(t0)
            &&& (t <= t0 + LINGER_MS ==> !after.spec_is_destroyed(t))
            &&& (t > t0 + LINGER_MS ==> after.spec_is_destroyed(t))
        }),
        v.spec_emit(WindowEvent::MousePress(x, y), t0).1 == spec_children_emit(
            v.children,
            WindowEvent::MousePress(x, y),
            v.children.len() as int,
        ).1 + seq![UserEvent::Quit],
{
}

/// Law: a mouse-down followed by a mouse-up at the same point within the
/// synthesis threshold makes the dispatch of the up equal to dispatching
/// exactly one synthesized press from the intermediate state; a later up
/// synthesizes none and only clears the press timer.  (The hypotheses say the
/// children leave the down and the up unconsumed, so the chrome's timer logic
/// runs at all.)
pub proof fn lemma_press_synthesis(v: WindowView, x: u32, y: u32, t0: u64, t1: u64)
    requires
        v.inv(),
        t0 <= t1,
        !spec_children_emit(
            v.children,
            WindowEvent::MouseDown(x, y),
            v.children.len() as int,
        ).2,
        ({
            let v1 = v.spec_emit(WindowEvent::MouseDown(x, y), t0).0;
            !spec_children_emit(v1.children, WindowEvent::MouseUp(x, y), v1.children.len() as int).2
        }),
    ensures
        ({
            let v1 = v.spec_emit(WindowEvent::MouseDown(x, y), t0).0;
            let ups = spec_children_emit(
                v1.children,
                WindowEvent::MouseUp(x, y),
                v1.children.len() as int,
            );
            let v2 = (WindowView { mouse_down_active: false, children: ups.0, ..v1 });
            let up = v1.spec_emit(WindowEvent::MouseUp(x, y), t1);
            &&& v1.mouse_down_active && v1.mouse_down_time == t0 && v1.mouse_down_pos == (x, y)
            &&& (t1 - t0 <= PRESS_SYNTH_MS ==> {
                // exactly one synthesized press: the up's outcome is the
                // outcome of one full press dispatch from the intermediate
                // state
                &&& up.0 == v2.spec_emit(WindowEvent::MousePress(x, y), t1).0
                &&& up.1 == ups.1 + v2.spec_emit(WindowEvent::MousePress(x, y), t1).1
                &&& up.2 is NoBubbling
            })
            &&& (t1 - t0 > PRESS_SYNTH_MS ==> {
                // no press synthesized: only the children's reactions to the
                // up, and the timer cleared
                &&& up.0 == v2
                &&& up.1 == ups.1
                &&& up.2 is Bubble
            })
        }),
{
    let v1 = v.spec_emit(WindowEvent::MouseDown(x, y), t0).0;
    let ups = spec_children_emit(
        v1.children,
        WindowEvent::MouseUp(x, y),
        v1.children.len() as int,
    );
    let v2 = (WindowView { mouse_down_active: false, children: ups.0, ..v1 });
    if t1 - t0 <= PRESS_SYNTH_MS {
        let second = spec_children_emit(
            v2.children,
            WindowEvent::MousePress(x, y),
            v2.children.len() as int,
        );
        let v3 = (WindowView { children: second.0, ..v2 });
        if second.2 {
            assert(v1.spec_emit(WindowEvent::MouseUp(x, y), t1).0 == v3);
            assert(v2.spec_emit(WindowEvent::MousePress(x, y), t1).0 == v3);
        } else {
            let c = v3.spec_chrome_press(x, y, t1);
            assert(v1.spec_emit(WindowEvent::MouseUp(x, y), t1).0 == c.0);
            assert(v2.spec_emit(WindowEvent::MousePress(x, y), t1).0 == c.0);
            assert(v1.spec_emit(WindowEvent::MouseUp(x, y), t1).1 =~= ups.1 + (second.1 + c.1));
        }
    }
}

/// Law: setting a size target the spring does not already stand on makes the
/// aggregated dirty query true at that very instant.
pub proof fn lemma_retarget_dirties(v: WindowView, w: u32, h: u32, now: u64)
    requires
        v.inv(),
        w <= COORD_CAP,
        h <= COORD_CAP,
        // the target genuinely changes the resting point: where the spring
        // stands does not round onto the new horizontal target
        spec_round_div(
            crate::spring::Spring::spec_clamp_p(v.size_spring.sx.spec_sample(now).0),
            100,
        ) != spec_round_div(w as int * 1000, 100),
    ensures
        ({
            let v2 = (WindowView {
                size_spring: Spring2D {
                    sx: (Spring { target: (w * 1000) as i64, ..v.size_spring.sx.spec_sampled(now) }),
                    sy: (Spring { target: (h * 1000) as i64, ..v.size_spring.sy.spec_sampled(now) }),
                },
                ..v
            });
            v2.spec_needs_redraw(now)
        }),
{
    let sx2 = (Spring { target: (w * 1000) as i64, ..v.size_spring.sx.spec_sampled(now) });
    assert(sx2.inv());
    crate::spring::lemma_sample_at_start(sx2);
    assert(sx2.spec_sample(now).0 == sx2.position);
    assert(sx2.position == crate::spring::Spring::spec_clamp_p(v.size_spring.sx.spec_sample(now).0));
    assert(!sx2.spec_arrived(now));
}

/// Law: once the aggregated dirty query reads false, everything has settled —
/// the spring has arrived on both axes, the rendered size matches it, no
/// linger window is active, the explicit flag is clear, and every child
/// reports clean.
pub proof fn lemma_clean_means_settled(v: WindowView, now: u64)
    requires
        v.inv(),
        !v.spec_needs_redraw(now),
    ensures
        !v.need_update,
        v.size_spring.sx.spec_arrived(now) && v.size_spring.sy.spec_arrived(now),
        v.spec_spring_size(now) == (v.size.0 as int, v.size.1 as int),
        !v.spec_in_linger(now),
        forall|i: int| 0 <= i < v.children.len()
            ==> !(#[trigger] v.children[i]).widget.spec_needs_redraw(),
{
}

} // verus!
