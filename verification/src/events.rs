//! The event vocabulary: raw window events fed into the tree, the bubbling
//! verdict each handler returns, and the semantic events surfaced to the
//! application.

use vstd::prelude::*;
use crate::uid::WidgetUid;

verus! {

/// What a handler tells its ancestors: `NoBubbling` marks the dispatch as
/// consumed, `Bubble` lets an ancestor react too.
#[derive(Copy, Clone, Debug, Eq, PartialEq, Structural)]
pub enum EventResult {
    NoBubbling,
    Bubble,
}

/// A raw input or window event, as plain values; the native message pump
/// turns its messages into these before they reach the tree.
#[derive(Copy, Clone, Debug, Eq, PartialEq, Structural)]
pub enum WindowEvent {
    NoEvent,
    Quit,
    CloseWindow,
    HideWindow,
    ShowWindow,
    KeyDown(usize),
    KeyUp(usize),
    KeyPress(usize),
    /// Position x, y, in window-local pixels.
    MouseMove(u32, u32),
    MouseDown(u32, u32),
    MouseUp(u32, u32),
    /// A click: either direct or synthesized from a quick down-then-up.
    MousePress(u32, u32),
    WindowMove(i32, i32),
    WindowResize(u32, u32),
    /// A character addressed to the widget with the given identity.
    CharInput(WidgetUid, char),
}

/// A semantic event surfaced to the application after bubbling.
#[derive(Copy, Clone, Debug, Eq, PartialEq, Structural)]
pub enum UserEvent {
    NoEvent,
    Quit,
    ControlClicked(WidgetUid),
    /// Only for the owning loop's bookkeeping; never surfaced to the user.
    WindowResize(u32, u32),
}

/// What a point of a top-level window falls on.
#[derive(Copy, Clone, Debug, Eq, PartialEq, Structural)]
pub enum HitResult {
    Nowhere,
    Client,
    Caption,
    MinButton,
    Close,
}

/// The context handed down through one event dispatch: the event being
/// delivered and the semantic events pushed so far.
pub struct EventCtx {
    /// The raw event being dispatched.
    pub event: WindowEvent,
    /// Semantic events surfaced so far, in push order; the owning loop
    /// drains them after the dispatch.
    pub user_events: Vec<UserEvent>,
}

impl EventCtx {
    /// A context about to dispatch `event`, with no surfaced events yet.
    pub fn new(event: WindowEvent) -> (r: EventCtx)
        ensures
            r.event == event,
            r.user_events@ == Seq::<UserEvent>::empty(),
    {
        EventCtx { event, user_events: Vec::new() }
    }
}

} // verus!
