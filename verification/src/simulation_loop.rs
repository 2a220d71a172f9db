//! The fixed-step frame clock and the per-frame driver.
//!
//! The host's scheduler calls the driver once per animation frame with a
//! monotonic timestamp in microseconds.  The clock accumulates the elapsed
//! time and drains whole frame budgets from it, so the backlog after a tick
//! is always below one frame — a stall can never build unbounded catch-up
//! debt.  Draining takes no action per drained unit: one driver call is one
//! machine tick, whatever the frame rate did.

use vstd::prelude::*;

use crate::canvas::DrawTarget;
use crate::plot::SimulationPlot;
use crate::plot_machine::PlotMachine;

verus! {

/// The fixed time budget of one simulated step: 1/60 s, in microseconds.
pub const FRAME_SIZE_MICROS: u64 = 16666;

/// The accumulator after draining: whole frame budgets are subtracted until
/// at most one budget is left.
pub open spec fn drained(acc: int) -> int
    decreases acc,
{
    if acc > FRAME_SIZE_MICROS as int {
        drained(acc - FRAME_SIZE_MICROS as int)
    } else {
        acc
    }
}

/// The fixed-step accumulator.
pub struct FrameClock {
    /// The timestamp of the last frame, in microseconds.
    pub last_frame: u64,
    /// Elapsed time not yet spent on a frame budget, in microseconds.
    pub accumulated_delta: u64,
}

impl FrameClock {
    /// The clock invariant: the backlog never reaches a full frame budget
    /// plus one, so it stays below 16.667 ms.
    pub open spec fn well_formed(self) -> bool {
        self.accumulated_delta <= FRAME_SIZE_MICROS
    }

    /// A clock starting at `now` with no backlog.
    pub fn new(now: u64) -> (r: FrameClock)
        ensures
            r.last_frame == now,
            r.accumulated_delta == 0,
            r.well_formed(),
    {
        FrameClock { last_frame: now, accumulated_delta: 0 }
    }

    /// Advance to `timestamp`: add the elapsed time to the backlog, then
    /// drain whole frame budgets from it.  Timestamps come from a monotonic
    /// clock, so they never regress.
    pub fn tick(&mut self, timestamp: u64)
        requires
            old(self).well_formed(),
            old(self).last_frame <= timestamp,
            timestamp <= u64::MAX - FRAME_SIZE_MICROS,
        ensures
            final(self).last_frame == timestamp,
            final(self).accumulated_delta == drained(
                old(self).accumulated_delta + timestamp - old(self).last_frame,
            ),
            final(self).well_formed(),
    {
        let delta = timestamp - self.last_frame;
        self.accumulated_delta = self.accumulated_delta + delta;
        let ghost start_acc = self.accumulated_delta as int;
        while self.accumulated_delta > FRAME_SIZE_MICROS
            invariant
                drained(self.accumulated_delta as int) == drained(start_acc),
            decreases self.accumulated_delta,
        {
            self.accumulated_delta = self.accumulated_delta - FRAME_SIZE_MICROS;
        }
        self.last_frame = timestamp;
    }
}

/// The per-frame orchestrator: advance the clock, tick the machine, decide
/// what to draw.
pub struct SimulationLoop {
    pub clock: FrameClock,
    pub plot: SimulationPlot,
}

impl SimulationLoop {
    pub open spec fn well_formed(self) -> bool {
        self.clock.well_formed() && self.plot.well_formed()
    }

    /// A driver over `plot`, with the clock started at `start_time`.
    pub fn new(plot: SimulationPlot, start_time: u64) -> (r: SimulationLoop)
        ensures
            r.plot == plot,
            r.clock.last_frame == start_time,
            r.clock.accumulated_delta == 0,
    {
        SimulationLoop { clock: FrameClock::new(start_time), plot }
    }

    /// One animation frame: feed the timestamp to the clock, run one
    /// machine tick, and report what the renderer must draw.  Draining the
    /// clock's backlog triggers no extra ticks.
    pub fn on_frame(&mut self, timestamp: u64) -> (target: Option<DrawTarget>)
        requires
            old(self).well_formed(),
            old(self).clock.last_frame <= timestamp,
            timestamp <= u64::MAX - FRAME_SIZE_MICROS,
        ensures
            final(self).clock.last_frame == timestamp,
            final(self).clock.accumulated_delta == drained(
                old(self).clock.accumulated_delta + timestamp - old(self).clock.last_frame,
            ),
            old(self).plot.machine is None ==> final(self).plot.machine is None,
            old(self).plot.machine matches Some(m) ==> (final(self).plot.machine matches Some(m2)
                && PlotMachine::update_rel(m, m2)),
            target == final(self).plot.draw_target_spec(),
            final(self).well_formed(),
    {
        self.clock.tick(timestamp);
        self.plot.update();
        self.plot.draw()
    }
}

} // verus!
