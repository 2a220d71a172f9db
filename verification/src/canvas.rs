//! The plotted image: the live pixel buffer, the pristine copy kept for
//! refresh, and the position it is drawn at.
//!
//! The host owns the decoded image element and the canvas; this module owns
//! everything the state machine reasons about.  A refresh discards all
//! simulated edits and restores the buffer byte for byte to the pristine
//! copy taken at load time.

use vstd::prelude::*;

use crate::image::{sim_step, RawImage};

verus! {

/// A canvas position, in pixels.
#[derive(Clone, Copy, PartialEq, Eq, Structural, Debug)]
pub struct Point {
    pub x: i16,
    pub y: i16,
}

/// What the renderer must draw for the current state: the untouched source
/// image element, or the live pixel buffer.
#[derive(Clone, Copy, PartialEq, Eq, Structural, Debug)]
pub enum DrawTarget {
    SourceImage,
    Buffer,
}

/// The plot: the buffer being edited, the pristine buffer it can be reset
/// to, and the draw position.
pub struct Image {
    /// The live buffer, mutated by simulation steps.
    pub image: RawImage,
    /// The buffer exactly as decoded at load time.
    pub original: RawImage,
    pub position: Point,
}

/// Two buffers holding the same bytes and dimensions.
pub open spec fn raw_eq(a: RawImage, b: RawImage) -> bool {
    a.raw_pixels@ == b.raw_pixels@ && a.width == b.width && a.height == b.height
}

impl Image {
    pub open spec fn well_formed(self) -> bool {
        self.image.well_formed() && self.original.well_formed()
    }

    /// Assemble a plot from a decoded buffer and its pristine copy.
    /// The two must hold the same bytes; refresh relies on it.
    pub fn new(image: RawImage, original: RawImage, position: Point) -> (r: Image)
        requires
            raw_eq(image, original),
        ensures
            r == (Image { image, original, position }),
    {
        Image { image, original, position }
    }

    /// Restore the live buffer byte for byte to the pristine copy,
    /// discarding all simulated edits.
    pub fn refresh(self) -> (r: Image)
        ensures
            raw_eq(r.image, self.original),
            r.original == self.original,
            r.position == self.position,
    {
        let restored = self.original.duplicate();
        Image { image: restored, original: self.original, position: self.position }
    }

    /// One simulation step on the live buffer: solarize, then grayscale.
    /// The pristine copy and the position are untouched.
    pub fn run_simulation_step(&mut self)
        requires
            old(self).well_formed(),
        ensures
            final(self).image.raw_pixels@ == sim_step(old(self).image.raw_pixels@),
            final(self).image.width == old(self).image.width,
            final(self).image.height == old(self).image.height,
            final(self).original == old(self).original,
            final(self).position == old(self).position,
            final(self).well_formed(),
    {
        self.image.solarize();
        self.image.grayscale();
    }
}

} // verus!
