//! The lifecycle state machine: Ready, Simulating, End.
//!
//! `update` is the once-per-tick transition function.  Its whole behaviour
//! is captured by the relation [`PlotMachine::update_rel`], stated over the
//! states' event counters and the buffer's bytes; the laws at the bottom of
//! this file are consequences of that relation.

use vstd::prelude::*;

use crate::canvas::{raw_eq, DrawTarget, Image};
use crate::events::{pressed_count, EventSource};
use crate::image::{sim_step, sim_step_n};
use crate::plot_states::{End, PlotState, Ready, Simulating};

verus! {

/// Exactly one state is live at any time.
pub enum PlotMachine {
    Ready(PlotState<Ready>),
    Simulating(PlotState<Simulating>),
    End(PlotState<End>),
}

/// The five UI controls whose presses the machine consumes.
#[derive(Clone, Copy, PartialEq, Eq, Structural)]
pub enum Control {
    Start,
    Pause,
    Finish,
    Refresh,
    Save,
}

impl PlotMachine {
    /// The live state's plot satisfies the buffer invariant.
    pub open spec fn well_formed(self) -> bool {
        match self {
            PlotMachine::Ready(s) => s.plot.well_formed(),
            PlotMachine::Simulating(s) => s.plot.well_formed(),
            PlotMachine::End(s) => s.plot.well_formed(),
        }
    }

    /// The machine starts in Ready, polling the given start control, with
    /// the source image not yet touched by any step.
    pub fn new(image: Image, button: EventSource) -> (m: PlotMachine)
        ensures
            m matches PlotMachine::Ready(s)
                && s.plot == image
                && s.state.start_event == button
                && s.state.image_drawn == false,
    {
        PlotMachine::Ready(PlotState::<Ready>::new(image, button, false))
    }

    /// The transition table, one tick per application.  In each state the
    /// events are polled in a fixed priority order; the first pending press
    /// wins and is consumed.  This pins `update` completely: the next
    /// phase, the event counters, and the buffer's bytes.
    pub open spec fn update_rel(pre: PlotMachine, post: PlotMachine) -> bool {
        match pre {
            PlotMachine::Ready(p) => {
                if p.state.start_event.pending > 0 {
                    post matches PlotMachine::Simulating(q)
                        && q.plot == p.plot
                        && q.state.pause_event.pending == 0
                        && q.state.finish_event.pending == 0
                } else {
                    post matches PlotMachine::Ready(q)
                        && q.plot == p.plot
                        && q.state.image_drawn == p.state.image_drawn
                        && q.state.start_event.pending == 0
                }
            },
            PlotMachine::Simulating(p) => {
                if p.state.pause_event.pending > 0 {
                    post matches PlotMachine::Ready(q)
                        && q.plot == p.plot
                        && q.state.image_drawn == true
                        && q.state.start_event.pending == 0
                } else if p.state.finish_event.pending > 0 {
                    post matches PlotMachine::End(q)
                        && q.plot == p.plot
                        && q.state.refresh_event.pending == 0
                        && q.state.save_event.pending == 0
                } else {
                    post matches PlotMachine::Simulating(q)
                        && q.plot.image.raw_pixels@ == sim_step(p.plot.image.raw_pixels@)
                        && q.plot.image.width == p.plot.image.width
                        && q.plot.image.height == p.plot.image.height
                        && q.plot.original == p.plot.original
                        && q.plot.position == p.plot.position
                        && q.state.pause_event.pending == 0
                        && q.state.finish_event.pending == 0
                }
            },
            PlotMachine::End(p) => {
                if p.state.refresh_event.pending > 0 {
                    post matches PlotMachine::Ready(q)
                        && raw_eq(q.plot.image, p.plot.original)
                        && q.plot.original == p.plot.original
                        && q.plot.position == p.plot.position
                        && q.state.image_drawn == false
                        && q.state.start_event.pending == 0
                } else if p.state.save_event.pending > 0 {
                    post matches PlotMachine::End(q)
                        && q.plot == p.plot
                        && q.state.refresh_event.pending == 0
                        && q.state.save_event.pending == p.state.save_event.pending - 1
                } else {
                    post matches PlotMachine::End(q)
                        && q.plot == p.plot
                        && q.state.refresh_event.pending == 0
                        && q.state.save_event.pending == 0
                }
            },
        }
    }

    /// One tick: consume pending presses and move to the next state.
    pub fn update(self) -> (r: Self)
        requires
            self.well_formed(),
        ensures
            Self::update_rel(self, r),
            r.well_formed(),
    {
        match self {
            PlotMachine::Ready(state) => state.update().into_machine(),
            PlotMachine::Simulating(state) => state.update().into_machine(),
            PlotMachine::End(state) => state.update().into_machine(),
        }
    }

    /// What the live state draws: Ready draws the source image until a step
    /// has touched the buffer; Simulating and End always draw the buffer.
    pub open spec fn draw_target_spec(self) -> DrawTarget {
        match self {
            PlotMachine::Ready(p) => if p.state.image_drawn {
                DrawTarget::Buffer
            } else {
                DrawTarget::SourceImage
            },
            PlotMachine::Simulating(p) => DrawTarget::Buffer,
            PlotMachine::End(p) => DrawTarget::Buffer,
        }
    }

    /// Decide what the renderer must draw for the live state; the host
    /// performs the actual draw call.
    pub fn draw(&self) -> (t: DrawTarget)
        ensures
            t == self.draw_target_spec(),
    {
        match self {
            PlotMachine::Ready(state) => state.draw(),
            PlotMachine::Simulating(state) => state.draw(),
            PlotMachine::End(state) => state.draw(),
        }
    }

    /// What a press of `control` does to the machine: if the live state
    /// polls that control, one notification is queued on its source and
    /// nothing else changes; otherwise the press falls on a control that no
    /// longer exists and the machine is untouched.
    pub open spec fn press_rel(pre: PlotMachine, control: Control, post: PlotMachine) -> bool {
        match pre {
            PlotMachine::Ready(p) => {
                if control == Control::Start {
                    post matches PlotMachine::Ready(q)
                        && q.plot == p.plot
                        && q.state.image_drawn == p.state.image_drawn
                        && q.state.start_event.pending == pressed_count(p.state.start_event.pending)
                } else {
                    post == pre
                }
            },
            PlotMachine::Simulating(p) => {
                if control == Control::Pause {
                    post matches PlotMachine::Simulating(q)
                        && q.plot == p.plot
                        && q.state.pause_event.pending == pressed_count(p.state.pause_event.pending)
                        && q.state.finish_event == p.state.finish_event
                } else if control == Control::Finish {
                    post matches PlotMachine::Simulating(q)
                        && q.plot == p.plot
                        && q.state.pause_event == p.state.pause_event
                        && q.state.finish_event.pending == pressed_count(
                        p.state.finish_event.pending,
                    )
                } else {
                    post == pre
                }
            },
            PlotMachine::End(p) => {
                if control == Control::Refresh {
                    post matches PlotMachine::End(q)
                        && q.plot == p.plot
                        && q.state.refresh_event.pending == pressed_count(
                        p.state.refresh_event.pending,
                    )
                        && q.state.save_event == p.state.save_event
                } else if control == Control::Save {
                    post matches PlotMachine::End(q)
                        && q.plot == p.plot
                        && q.state.refresh_event == p.state.refresh_event
                        && q.state.save_event.pending == pressed_count(p.state.save_event.pending)
                } else {
                    post == pre
                }
            },
        }
    }

    /// Deliver one click of `control`.  The host calls this when the
    /// corresponding button fires; the machine consumes the notification on
    /// a later tick.
    pub fn press(&mut self, control: Control)
        ensures
            Self::press_rel(*old(self), control, *final(self)),
    {
        match self {
            PlotMachine::Ready(state) => {
                match control {
                    Control::Start => state.state.start_event.press(),
                    _ => {},
                }
            },
            PlotMachine::Simulating(state) => {
                match control {
                    Control::Pause => state.state.pause_event.press(),
                    Control::Finish => state.state.finish_event.press(),
                    _ => {},
                }
            },
            PlotMachine::End(state) => {
                match control {
                    Control::Refresh => state.state.refresh_event.press(),
                    Control::Save => state.state.save_event.press(),
                    _ => {},
                }
            },
        }
    }
}

/// Law: a Ready state with no pending start press is a fixed point of
/// `update` — polled again and again with no events, the machine stays
/// Ready with the same plot and the same draw mode.
pub proof fn lemma_ready_idle(pre: PlotMachine, post: PlotMachine)
    requires
        PlotMachine::update_rel(pre, post),
        pre is Ready,
        pre->Ready_0.state.start_event.pending == 0,
    ensures
        post is Ready,
        post->Ready_0.plot == pre->Ready_0.plot,
        post->Ready_0.state.image_drawn == pre->Ready_0.state.image_drawn,
        post->Ready_0.state.start_event.pending == 0,
{
}

/// Law: a pending start press moves Ready to Simulating in exactly one
/// tick, with the plot carried across unchanged and the new state's event
/// sources empty.  The press is consumed: it is gone with the old state's
/// source, so no later poll sees it again.
pub proof fn lemma_ready_start(pre: PlotMachine, post: PlotMachine)
    requires
        PlotMachine::update_rel(pre, post),
        pre is Ready,
        pre->Ready_0.state.start_event.pending > 0,
    ensures
        post is Simulating,
        post->Simulating_0.plot == pre->Ready_0.plot,
        post->Simulating_0.state.pause_event.pending == 0,
        post->Simulating_0.state.finish_event.pending == 0,
{
}

/// Law: over any run of ticks from a Ready state with no pending start
/// press, the machine never leaves Ready and never touches the plot.
pub proof fn lemma_ready_idle_chain(chain: Seq<PlotMachine>)
    requires
        chain.len() > 0,
        chain[0] is Ready,
        chain[0]->Ready_0.state.start_event.pending == 0,
        forall|i: int|
            0 <= i < chain.len() - 1 ==> PlotMachine::update_rel(#[trigger] chain[i], chain[i + 1]),
    ensures
        forall|i: int|
            0 <= i < chain.len() ==> (#[trigger] chain[i]) is Ready
                && chain[i]->Ready_0.plot == chain[0]->Ready_0.plot
                && chain[i]->Ready_0.state.image_drawn == chain[0]->Ready_0.state.image_drawn
                && chain[i]->Ready_0.state.start_event.pending == 0,
    decreases chain.len(),
{
    if chain.len() > 1 {
        let n = chain.len() - 1;
        let prefix = chain.drop_last();
        assert forall|i: int|
            0 <= i < prefix.len() - 1 implies PlotMachine::update_rel(
            #[trigger] prefix[i],
            prefix[i + 1],
        ) by {
            assert(prefix[i] == chain[i]);
            assert(prefix[i + 1] == chain[i + 1]);
        }
        lemma_ready_idle_chain(prefix);
        assert forall|i: int|
            0 <= i < chain.len() implies (#[trigger] chain[i]) is Ready
                && chain[i]->Ready_0.plot == chain[0]->Ready_0.plot
                && chain[i]->Ready_0.state.image_drawn == chain[0]->Ready_0.state.image_drawn
                && chain[i]->Ready_0.state.start_event.pending == 0 by {
            if i < n {
                assert(chain[i] == prefix[i]);
            } else {
                assert(chain[n - 1] == prefix[n - 1]);
                assert(PlotMachine::update_rel(chain[n - 1], chain[n]));
                lemma_ready_idle(chain[n - 1], chain[n]);
            }
        }
    }
}

/// Law: over any run of ticks from a Simulating state with neither pause
/// nor finish pending, the machine stays Simulating and the buffer after
/// the `i`-th tick holds exactly `i` cumulative (solarize; grayscale)
/// steps of the starting buffer, in order; the pristine original and the
/// position are never touched.
pub proof fn lemma_simulating_run(chain: Seq<PlotMachine>)
    requires
        chain.len() > 0,
        chain[0] is Simulating,
        chain[0]->Simulating_0.state.pause_event.pending == 0,
        chain[0]->Simulating_0.state.finish_event.pending == 0,
        forall|i: int|
            0 <= i < chain.len() - 1 ==> PlotMachine::update_rel(#[trigger] chain[i], chain[i + 1]),
    ensures
        forall|i: int|
            0 <= i < chain.len() ==> (#[trigger] chain[i]) is Simulating
                && chain[i]->Simulating_0.state.pause_event.pending == 0
                && chain[i]->Simulating_0.state.finish_event.pending == 0
                && chain[i]->Simulating_0.plot.image.raw_pixels@ == sim_step_n(
                chain[0]->Simulating_0.plot.image.raw_pixels@,
                i as nat,
            )
                && chain[i]->Simulating_0.plot.image.width == chain[0]->Simulating_0.plot.image.width
                && chain[i]->Simulating_0.plot.image.height
                == chain[0]->Simulating_0.plot.image.height
                && chain[i]->Simulating_0.plot.original == chain[0]->Simulating_0.plot.original
                && chain[i]->Simulating_0.plot.position == chain[0]->Simulating_0.plot.position,
    decreases chain.len(),
{
    if chain.len() > 1 {
        let prefix = chain.drop_last();
        assert(forall|i: int|
            0 <= i < prefix.len() - 1 ==> PlotMachine::update_rel(
                #[trigger] prefix[i],
                prefix[i + 1],
            ));
        lemma_simulating_run(prefix);
        let n = chain.len() - 1;
        assert(forall|i: int| 0 <= i < n ==> chain[i] == prefix[i]);
        assert(PlotMachine::update_rel(chain[n - 1], chain[n]));
        assert(chain[n]->Simulating_0.plot.image.raw_pixels@ == sim_step(
            sim_step_n(chain[0]->Simulating_0.plot.image.raw_pixels@, (n - 1) as nat),
        ));
    }
}

/// Law: a pending finish press (with no pause press outranking it) moves
/// Simulating to End in one tick, with the buffer carried across unchanged.
pub proof fn lemma_simulating_finish(pre: PlotMachine, post: PlotMachine)
    requires
        PlotMachine::update_rel(pre, post),
        pre is Simulating,
        pre->Simulating_0.state.pause_event.pending == 0,
        pre->Simulating_0.state.finish_event.pending > 0,
    ensures
        post is End,
        post->End_0.plot == pre->Simulating_0.plot,
        post->End_0.state.refresh_event.pending == 0,
        post->End_0.state.save_event.pending == 0,
{
}

/// Law: a pending refresh press moves End to a pristine Ready in one tick:
/// the buffer is byte-for-byte the original decoded buffer, every simulated
/// edit is gone, and Ready draws the source image again.
pub proof fn lemma_end_refresh(pre: PlotMachine, post: PlotMachine)
    requires
        PlotMachine::update_rel(pre, post),
        pre is End,
        pre->End_0.state.refresh_event.pending > 0,
    ensures
        post is Ready,
        raw_eq(post->Ready_0.plot.image, pre->End_0.plot.original),
        post->Ready_0.plot.original == pre->End_0.plot.original,
        post->Ready_0.state.image_drawn == false,
        post->Ready_0.state.start_event.pending == 0,
{
}

/// Law: a pending save press (with no refresh press outranking it) leaves
/// the machine in End with the plot — buffer bytes included — unchanged;
/// only the press itself is consumed.
pub proof fn lemma_end_save(pre: PlotMachine, post: PlotMachine)
    requires
        PlotMachine::update_rel(pre, post),
        pre is End,
        pre->End_0.state.refresh_event.pending == 0,
        pre->End_0.state.save_event.pending > 0,
    ensures
        post is End,
        post->End_0.plot == pre->End_0.plot,
        post->End_0.state.refresh_event.pending == 0,
        post->End_0.state.save_event.pending == pre->End_0.state.save_event.pending - 1,
{
}

} // verus!
