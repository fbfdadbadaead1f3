//! Frame pacing: the decision of whether one loop tick redraws, and how the
//! input poll should block.  The loop itself lives with the platform code;
//! this is the rule it follows.

use vstd::prelude::*;

verus! {

/// The frame interval: at most one redraw per this many milliseconds.
pub const FRAME_INTERVAL_MS: u64 = 16;

/// Tracks when the last completed redraw happened and gates the next one.
pub struct FramePacer {
    /// When the last completed redraw was stamped.
    pub last_redraw: u64,
}

impl FramePacer {
    /// A pacer that has never drawn; the first dirty tick may draw at once.
    pub fn new() -> (r: FramePacer)
        ensures
            r.last_redraw == 0,
    {
        FramePacer { last_redraw: 0 }
    }

    /// Whether this tick redraws: there is work (`dirty`) and at least the
    /// frame interval has passed since the last completed redraw.
    pub fn should_redraw(&self, dirty: bool, now: u64) -> (r: bool)
        ensures
            r == (dirty && (if now >= self.last_redraw {
                now - self.last_redraw
            } else {
                0
            }) >= FRAME_INTERVAL_MS),
    {
        dirty && now >= self.last_redraw && now - self.last_redraw >= FRAME_INTERVAL_MS
    }

    /// Stamps a completed redraw.
    pub fn mark_redraw(&mut self, now: u64)
        ensures
            *final(self) == (FramePacer { last_redraw: now }),
    {
        self.last_redraw = now;
    }

    /// Whether the input poll may block: only when there is no pending
    /// animation or redraw work at all.  This is the scheduling contract that
    /// makes animation frame-paced without a timer thread — the loop
    /// self-throttles and blocks only when truly idle.
    pub fn poll_blocking(&self, dirty: bool) -> (r: bool)
        ensures
            r == !dirty,
    {
        !dirty
    }
}

} // verus!
