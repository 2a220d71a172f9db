//! The three lifecycle states and their transition functions.
//!
//! Each state owns the plot and the event sources of the controls it polls.
//! A transition consumes the old state value and builds the next one; the
//! plot moves across, never copied implicitly.  Controls the next state does
//! not poll are dropped with the old state, so a notification left queued in
//! them is stranded — accepted behaviour of the design.
//!
//! Showing and hiding the UI controls of a state is host work: the host
//! observes which transition was taken and rewires its buttons; a fresh
//! state starts with empty event sources.

use vstd::prelude::*;

use crate::canvas::{raw_eq, DrawTarget, Image};
use crate::events::EventSource;
use crate::image::sim_step;
use crate::plot_machine::PlotMachine;

verus! {

/// Waiting for the user to start the simulation.  `image_drawn` records
/// whether a simulation step has ever touched the buffer: a pristine Ready
/// state draws the source image, one reached by pausing draws the buffer.
pub struct Ready {
    pub start_event: EventSource,
    pub image_drawn: bool,
}

/// Running one transform step per tick until paused or finished.
pub struct Simulating {
    pub pause_event: EventSource,
    pub finish_event: EventSource,
}

/// Finished; the user may refresh the image or save it.
pub struct End {
    pub refresh_event: EventSource,
    pub save_event: EventSource,
}

/// A live state: its phase-specific data plus the plot it owns.
pub struct PlotState<S> {
    pub state: S,
    pub plot: Image,
}

impl Ready {
    /// Consume a pending press of the start control, if any.
    fn run_simulation_pressed(&mut self) -> (pressed: bool)
        ensures
            pressed == (old(self).start_event.pending > 0),
            final(self).start_event.pending == if old(self).start_event.pending > 0 {
                (old(self).start_event.pending - 1) as u64
            } else {
                0u64
            },
            final(self).image_drawn == old(self).image_drawn,
    {
        self.start_event.poll()
    }
}

impl Simulating {
    /// Consume a pending press of the pause control, if any.
    fn pause_simulation_pressed(&mut self) -> (pressed: bool)
        ensures
            pressed == (old(self).pause_event.pending > 0),
            final(self).pause_event.pending == if old(self).pause_event.pending > 0 {
                (old(self).pause_event.pending - 1) as u64
            } else {
                0u64
            },
            final(self).finish_event == old(self).finish_event,
    {
        self.pause_event.poll()
    }

    /// Consume a pending press of the finish control, if any.
    fn finish_simulation_pressed(&mut self) -> (pressed: bool)
        ensures
            pressed == (old(self).finish_event.pending > 0),
            final(self).finish_event.pending == if old(self).finish_event.pending > 0 {
                (old(self).finish_event.pending - 1) as u64
            } else {
                0u64
            },
            final(self).pause_event == old(self).pause_event,
    {
        self.finish_event.poll()
    }
}

impl End {
    /// Consume a pending press of the refresh control, if any.
    fn refresh_image_pressed(&mut self) -> (pressed: bool)
        ensures
            pressed == (old(self).refresh_event.pending > 0),
            final(self).refresh_event.pending == if old(self).refresh_event.pending > 0 {
                (old(self).refresh_event.pending - 1) as u64
            } else {
                0u64
            },
            final(self).save_event == old(self).save_event,
    {
        self.refresh_event.poll()
    }

    /// Consume a pending press of the save control, if any.
    fn save_image_pressed(&mut self) -> (pressed: bool)
        ensures
            pressed == (old(self).save_event.pending > 0),
            final(self).save_event.pending == if old(self).save_event.pending > 0 {
                (old(self).save_event.pending - 1) as u64
            } else {
                0u64
            },
            final(self).refresh_event == old(self).refresh_event,
    {
        self.save_event.poll()
    }
}

/// The outcome of one Ready tick.
pub enum ReadyStateTransition {
    Simulate(PlotState<Simulating>),
    Same(PlotState<Ready>),
}

impl ReadyStateTransition {
    /// Fold the outcome back into the machine's sum type.
    pub fn into_machine(self) -> (m: PlotMachine)
        ensures
            self matches ReadyStateTransition::Simulate(s) ==> m == PlotMachine::Simulating(s),
            self matches ReadyStateTransition::Same(s) ==> m == PlotMachine::Ready(s),
    {
        match self {
            ReadyStateTransition::Simulate(simulating) => PlotMachine::Simulating(simulating),
            ReadyStateTransition::Same(ready) => PlotMachine::Ready(ready),
        }
    }
}

/// The outcome of one Simulating tick.
pub enum SimulatingStateTransition {
    Pause(PlotState<Ready>),
    Finish(PlotState<End>),
    Simulate(PlotState<Simulating>),
}

impl SimulatingStateTransition {
    /// Fold the outcome back into the machine's sum type.
    pub fn into_machine(self) -> (m: PlotMachine)
        ensures
            self matches SimulatingStateTransition::Pause(s) ==> m == PlotMachine::Ready(s),
            self matches SimulatingStateTransition::Finish(s) ==> m == PlotMachine::End(s),
            self matches SimulatingStateTransition::Simulate(s) ==> m == PlotMachine::Simulating(s),
    {
        match self {
            SimulatingStateTransition::Pause(ready) => PlotMachine::Ready(ready),
            SimulatingStateTransition::Finish(end) => PlotMachine::End(end),
            SimulatingStateTransition::Simulate(simulating) => PlotMachine::Simulating(simulating),
        }
    }
}

/// The outcome of one End tick.
pub enum EndStateTransition {
    Refresh(PlotState<Ready>),
    Save(PlotState<End>),
    Continue(PlotState<End>),
}

impl EndStateTransition {
    /// Fold the outcome back into the machine's sum type.
    pub fn into_machine(self) -> (m: PlotMachine)
        ensures
            self matches EndStateTransition::Refresh(s) ==> m == PlotMachine::Ready(s),
            self matches EndStateTransition::Save(s) ==> m == PlotMachine::End(s),
            self matches EndStateTransition::Continue(s) ==> m == PlotMachine::End(s),
    {
        match self {
            EndStateTransition::Refresh(ready) => PlotMachine::Ready(ready),
            EndStateTransition::Save(end) => PlotMachine::End(end),
            EndStateTransition::Continue(end) => PlotMachine::End(end),
        }
    }
}

impl PlotState<Ready> {
    /// What the renderer must draw: the buffer once a step has touched it,
    /// the untouched source image before that.
    pub fn draw(&self) -> (t: DrawTarget)
        ensures
            t == (if self.state.image_drawn {
                DrawTarget::Buffer
            } else {
                DrawTarget::SourceImage
            }),
    {
        if self.state.image_drawn {
            DrawTarget::Buffer
        } else {
            DrawTarget::SourceImage
        }
    }

    pub fn new(image: Image, button: EventSource, image_drawn: bool) -> (r: PlotState<Ready>)
        ensures
            r.plot == image,
            r.state.start_event == button,
            r.state.image_drawn == image_drawn,
    {
        PlotState { state: Ready { start_event: button, image_drawn }, plot: image }
    }

    /// One tick: a pending start press moves to Simulating, consuming the
    /// press; otherwise the state is returned unchanged.
    pub fn update(self) -> (r: ReadyStateTransition)
        ensures
            self.state.start_event.pending > 0 ==> (r matches ReadyStateTransition::Simulate(s)
                && s.plot == self.plot
                && s.state.pause_event.pending == 0
                && s.state.finish_event.pending == 0),
            self.state.start_event.pending == 0 ==> (r matches ReadyStateTransition::Same(s)
                && s.plot == self.plot
                && s.state.image_drawn == self.state.image_drawn
                && s.state.start_event.pending == 0),
    {
        let PlotState { mut state, plot } = self;
        if state.run_simulation_pressed() {
            ReadyStateTransition::Simulate(Self::start_simulation(plot))
        } else {
            ReadyStateTransition::Same(PlotState { state, plot })
        }
    }

    /// Move to Simulating.  The host wires the pause and finish controls to
    /// the new state's sources, which start empty.
    fn start_simulation(plot: Image) -> (r: PlotState<Simulating>)
        ensures
            r.plot == plot,
            r.state.pause_event.pending == 0,
            r.state.finish_event.pending == 0,
    {
        PlotState {
            state: Simulating {
                pause_event: EventSource::new(),
                finish_event: EventSource::new(),
            },
            plot,
        }
    }
}

impl PlotState<Simulating> {
    /// A simulating state always draws the buffer.
    pub fn draw(&self) -> (t: DrawTarget)
        ensures
            t == DrawTarget::Buffer,
    {
        DrawTarget::Buffer
    }

    /// One tick, polling pause before finish: a pending pause press moves
    /// back to Ready (the buffer keeps its edits and is drawn from now on);
    /// failing that, a pending finish press moves to End; with neither, one
    /// simulation step runs on the buffer.
    pub fn update(self) -> (r: SimulatingStateTransition)
        requires
            self.plot.well_formed(),
        ensures
            self.state.pause_event.pending > 0 ==> (r matches SimulatingStateTransition::Pause(s)
                && s.plot == self.plot
                && s.state.image_drawn == true
                && s.state.start_event.pending == 0),
            self.state.pause_event.pending == 0 && self.state.finish_event.pending > 0 ==> (
            r matches SimulatingStateTransition::Finish(s)
                && s.plot == self.plot
                && s.state.refresh_event.pending == 0
                && s.state.save_event.pending == 0),
            self.state.pause_event.pending == 0 && self.state.finish_event.pending == 0 ==> (
            r matches SimulatingStateTransition::Simulate(s)
                && s.plot.image.raw_pixels@ == sim_step(self.plot.image.raw_pixels@)
                && s.plot.image.width == self.plot.image.width
                && s.plot.image.height == self.plot.image.height
                && s.plot.original == self.plot.original
                && s.plot.position == self.plot.position
                && s.plot.well_formed()
                && s.state.pause_event.pending == 0
                && s.state.finish_event.pending == 0),
    {
        let PlotState { mut state, plot } = self;
        if state.pause_simulation_pressed() {
            SimulatingStateTransition::Pause(Self::pause_simulation(plot))
        } else if state.finish_simulation_pressed() {
            SimulatingStateTransition::Finish(Self::finish_simulation(plot))
        } else {
            SimulatingStateTransition::Simulate(Self::run_simulation_step(PlotState {
                state,
                plot,
            }))
        }
    }

    /// Move back to Ready, keeping the edited buffer; from now on Ready
    /// draws the buffer, not the source image.
    fn pause_simulation(plot: Image) -> (r: PlotState<Ready>)
        ensures
            r.plot == plot,
            r.state.image_drawn == true,
            r.state.start_event.pending == 0,
    {
        PlotState::new(plot, EventSource::new(), true)
    }

    /// Move to End, keeping the buffer.
    fn finish_simulation(plot: Image) -> (r: PlotState<End>)
        ensures
            r.plot == plot,
            r.state.refresh_event.pending == 0,
            r.state.save_event.pending == 0,
    {
        PlotState {
            state: End {
                refresh_event: EventSource::new(),
                save_event: EventSource::new(),
            },
            plot,
        }
    }

    /// One transform step on the buffer; the state stays Simulating.
    fn run_simulation_step(self) -> (r: PlotState<Simulating>)
        requires
            self.plot.well_formed(),
        ensures
            r.state == self.state,
            r.plot.image.raw_pixels@ == sim_step(self.plot.image.raw_pixels@),
            r.plot.image.width == self.plot.image.width,
            r.plot.image.height == self.plot.image.height,
            r.plot.original == self.plot.original,
            r.plot.position == self.plot.position,
            r.plot.well_formed(),
    {
        let PlotState { state, mut plot } = self;
        plot.run_simulation_step();
        PlotState { state, plot }
    }
}

impl PlotState<End> {
    /// An ended state always draws the buffer.
    pub fn draw(&self) -> (t: DrawTarget)
        ensures
            t == DrawTarget::Buffer,
    {
        DrawTarget::Buffer
    }

    /// One tick, polling refresh before save: a pending refresh press moves
    /// to a pristine Ready with the buffer restored to the original; failing
    /// that, a pending save press is consumed by the save stub, which
    /// changes nothing else; with neither, the state is returned unchanged.
    pub fn update(self) -> (r: EndStateTransition)
        ensures
            self.state.refresh_event.pending > 0 ==> (r matches EndStateTransition::Refresh(s)
                && raw_eq(s.plot.image, self.plot.original)
                && s.plot.original == self.plot.original
                && s.plot.position == self.plot.position
                && s.state.image_drawn == false
                && s.state.start_event.pending == 0),
            self.state.refresh_event.pending == 0 && self.state.save_event.pending > 0 ==> (
            r matches EndStateTransition::Save(s)
                && s.plot == self.plot
                && s.state.refresh_event.pending == 0
                && s.state.save_event.pending == self.state.save_event.pending - 1),
            self.state.refresh_event.pending == 0 && self.state.save_event.pending == 0 ==> (
            r matches EndStateTransition::Continue(s)
                && s.plot == self.plot
                && s.state.refresh_event.pending == 0
                && s.state.save_event.pending == 0),
    {
        let PlotState { mut state, plot } = self;
        if state.refresh_image_pressed() {
            EndStateTransition::Refresh(Self::refresh_image(plot))
        } else if state.save_image_pressed() {
            EndStateTransition::Save(Self::save_image(PlotState { state, plot }))
        } else {
            EndStateTransition::Continue(PlotState { state, plot })
        }
    }

    /// Move to a pristine Ready: the buffer is restored byte for byte to
    /// the original, and Ready draws the source image again.
    fn refresh_image(plot: Image) -> (r: PlotState<Ready>)
        ensures
            raw_eq(r.plot.image, plot.original),
            r.plot.original == plot.original,
            r.plot.position == plot.position,
            r.state.image_drawn == false,
            r.state.start_event.pending == 0,
    {
        PlotState {
            state: Ready { start_event: EventSource::new(), image_drawn: false },
            plot: plot.refresh(),
        }
    }

    /// Saving is a stub: the state is returned unchanged.
    fn save_image(self) -> (r: PlotState<End>)
        ensures
            r == self,
    {
        self
    }
}

} // verus!
