//! The interface the native windowing layer offers the toolkit: a drawable
//! system window with position and size access, an event poll, and
//! presentation.  Platform code implements it; the core only consumes it.

use vstd::prelude::*;
use crate::events::HitResult;
use crate::events::UserEvent;
use crate::events::WindowEvent;

verus! {

/// A native window a platform layer provides, with a canvas behind it.
pub trait SystemDrawableWindow {
    /// The raw native handle, for interfacing with the canvas.
    fn raw_handle(&self) -> usize;

    /// Immediately resizes the native window and its backing canvas.
    fn resize(&mut self, width: u32, height: u32);

    /// The left edge of the window on the screen.
    fn pos_x(&self) -> i32;

    /// Moves the left edge of the window.
    fn set_pos_x(&mut self, x: i32);

    /// The top edge of the window on the screen.
    fn pos_y(&self) -> i32;

    /// Moves the top edge of the window.
    fn set_pos_y(&mut self, y: i32);

    /// The window width.
    fn size_x(&self) -> u32;

    /// Sets the window width.
    fn set_size_x(&mut self, w: u32);

    /// The window height.
    fn size_y(&self) -> u32;

    /// Sets the window height.
    fn set_size_y(&mut self, h: u32);

    /// Polls the native message queue once and translates what arrived into
    /// a raw window event.  With `peek` the call returns at once; without it,
    /// it blocks until an event arrives.
    fn query_system_event(&mut self, peek: bool) -> WindowEvent;

    /// Polls once and reduces what arrived to a semantic user event.
    fn query_event(&mut self, peek: bool) -> UserEvent;

    /// Classifies a point for the native layer's sake (dragging, buttons).
    fn hit_test(&mut self, x: i32, y: i32) -> HitResult;

    /// Pushes the canvas contents to the native window.
    fn sync(&mut self);

    /// Shows the window.
    fn show(&mut self);

    /// Hides the window.
    fn hide_window(&mut self);
}

} // verus!
