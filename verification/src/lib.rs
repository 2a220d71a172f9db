//! Verified core of an interactive image-editing demo.
//!
//! A photo is loaded into a canvas; the user starts a simulated per-frame
//! pixel transformation, and can pause, finish, refresh or save the result.
//! This crate holds the parts with real invariants: the pixel buffer and its
//! transform operations, the polled UI-event sources, the Ready / Simulating /
//! End lifecycle state machine, the fixed-step frame clock, and the per-frame
//! driver.  The host (DOM lookup, canvas drawing, image decoding, frame
//! scheduling) lives outside and talks to this crate through plain values.

pub mod canvas;
pub mod events;
pub mod image;
pub mod plot;
pub mod plot_machine;
pub mod plot_states;
pub mod simulation_loop;
