//! Polled sources of discrete UI "pressed" notifications.
//!
//! Each control (start, pause, finish, refresh, save) feeds one such source:
//! a click enqueues exactly one unit notification, and the state machine
//! polls it once per tick.  Polling is non-blocking and destructive.  The
//! whole system is single-threaded and cooperative, so a plain counter of
//! pending notifications is a faithful model of the click-to-poll channel.

use vstd::prelude::*;

verus! {

/// The counter after one more press: presses queue up, and at the
/// counter's ceiling further presses coalesce.
pub open spec fn pressed_count(pending: u64) -> u64 {
    if pending < u64::MAX {
        (pending + 1) as u64
    } else {
        u64::MAX
    }
}

/// A queue of pending unit "pressed" notifications for one UI control.
pub struct EventSource {
    /// How many presses have been delivered but not yet consumed.
    pub pending: u64,
}

impl EventSource {
    /// A source with no pending notification.
    pub fn new() -> (r: EventSource)
        ensures
            r.pending == 0,
    {
        EventSource { pending: 0 }
    }

    /// Deliver one press.  Presses queue up until polled; once the counter
    /// is saturated further presses coalesce into it.
    pub fn press(&mut self)
        ensures
            final(self).pending == pressed_count(old(self).pending),
    {
        if self.pending < u64::MAX {
            self.pending = self.pending + 1;
        }
    }

    /// Non-blocking, destructive poll: reports whether a press was pending
    /// and, if so, consumes exactly one notification.
    pub fn poll(&mut self) -> (pressed: bool)
        ensures
            pressed == (old(self).pending > 0),
            final(self).pending == if old(self).pending > 0 {
                (old(self).pending - 1) as u64
            } else {
                0u64
            },
    {
        if self.pending > 0 {
            self.pending = self.pending - 1;
            true
        } else {
            false
        }
    }
}

} // verus!
