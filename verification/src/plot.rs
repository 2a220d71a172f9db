//! The plot as the driver sees it: a slot that is empty until the host has
//! loaded the image and built the machine, and thereafter updates and draws
//! the machine once per tick.

use vstd::prelude::*;

use crate::canvas::DrawTarget;
use crate::plot_machine::{Control, PlotMachine};

verus! {

/// The machine slot.  `None` until initialization hands a machine over.
pub struct SimulationPlot {
    pub machine: Option<PlotMachine>,
}

impl SimulationPlot {
    pub open spec fn well_formed(self) -> bool {
        self.machine matches Some(m) ==> m.well_formed()
    }

    /// An uninitialized plot.
    pub fn new() -> (r: SimulationPlot)
        ensures
            r.machine is None,
    {
        SimulationPlot { machine: None }
    }

    /// Hand a freshly built machine over.  A plot that already holds one
    /// rejects the second initialization and is left untouched.
    pub fn initialize_with(&mut self, machine: PlotMachine) -> (accepted: bool)
        ensures
            old(self).machine is None ==> accepted && final(self).machine == Some(machine),
            old(self).machine is Some ==> !accepted && *final(self) == *old(self),
    {
        if self.machine.is_none() {
            self.machine = Some(machine);
            true
        } else {
            false
        }
    }

    /// One tick of the machine, if there is one.
    pub fn update(&mut self)
        requires
            old(self).well_formed(),
        ensures
            old(self).machine is None ==> final(self).machine is None,
            old(self).machine matches Some(m) ==> (final(self).machine matches Some(m2)
                && PlotMachine::update_rel(m, m2)),
            final(self).well_formed(),
    {
        if let Some(machine) = self.machine.take() {
            self.machine = Some(machine.update());
        }
    }

    /// Deliver one click of `control` to the machine, if there is one.
    pub fn press(&mut self, control: Control)
        ensures
            old(self).machine is None ==> *final(self) == *old(self),
            old(self).machine matches Some(m) ==> (final(self).machine matches Some(m2)
                && PlotMachine::press_rel(m, control, m2)),
    {
        match &mut self.machine {
            Some(machine) => machine.press(control),
            None => {},
        }
    }

    /// What an uninitialized plot draws: nothing.
    pub open spec fn draw_target_spec(self) -> Option<DrawTarget> {
        match self.machine {
            Some(m) => Some(m.draw_target_spec()),
            None => None,
        }
    }

    /// Decide what the renderer must draw, if anything.
    pub fn draw(&self) -> (t: Option<DrawTarget>)
        ensures
            t == self.draw_target_spec(),
    {
        match &self.machine {
            Some(machine) => Some(machine.draw()),
            None => None,
        }
    }
}

} // verus!
