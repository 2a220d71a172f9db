//! The raw pixel buffer and its per-frame transform operations.
//!
//! A buffer holds RGBA bytes, four per pixel, row-major; its length is always
//! `width * height * 4`.  The two operations run by a simulation step are
//! `solarize` (invert the red channel below a threshold) and `grayscale`
//! (average the colour channels); `alter_red_channel` shifts the red channel
//! with clamping.  Each operation walks the buffer in strides of four bytes
//! and leaves the alpha channel untouched.

use vstd::prelude::*;

verus! {

/// Threshold of the solarize operation: a red value below it is replaced by
/// its distance from the threshold.
pub const SOLARIZE_THRESHOLD: u8 = 200;

/// What `solarize` makes of one red byte.
pub open spec fn solarized_red(r: u8) -> u8 {
    if r < SOLARIZE_THRESHOLD {
        (SOLARIZE_THRESHOLD - r) as u8
    } else {
        r
    }
}

/// What `solarize` makes of a whole buffer: red bytes (offset 0 of each
/// four-byte pixel) are transformed, everything else is untouched.
pub open spec fn solarized(s: Seq<u8>) -> Seq<u8> {
    Seq::new(s.len(), |k: int| if k % 4 == 0 {
        solarized_red(s[k])
    } else {
        s[k]
    })
}

/// The integer average of the three colour channels, clamped to 255.
/// The clamp is defensive: the average of three bytes never exceeds 255.
pub open spec fn gray_average(r: u8, g: u8, b: u8) -> u8 {
    let avg = (r + g + b) / 3;
    if avg >= 255 {
        255u8
    } else {
        avg as u8
    }
}

/// What `grayscale` makes of a whole buffer: within each four-byte pixel the
/// three colour bytes all become the pixel's gray average; alpha is untouched.
pub open spec fn grayscaled(s: Seq<u8>) -> Seq<u8> {
    Seq::new(s.len(), |k: int| {
        let p = k - k % 4;
        if k % 4 == 3 {
            s[k]
        } else {
            gray_average(s[p], s[p + 1], s[p + 2])
        }
    })
}

/// What `alter_red_channel` makes of one red byte: the shifted value,
/// clamped into the byte range.
pub open spec fn altered_red(r: u8, amt: i16) -> u8 {
    let v = r + amt;
    if v < 0 {
        0u8
    } else if v > 255 {
        255u8
    } else {
        v as u8
    }
}

/// What `alter_red_channel` makes of a whole buffer.
pub open spec fn red_altered(s: Seq<u8>, amt: i16) -> Seq<u8> {
    Seq::new(s.len(), |k: int| if k % 4 == 0 {
        altered_red(s[k], amt)
    } else {
        s[k]
    })
}

/// One simulation step: solarize, then grayscale, in that fixed order.
pub open spec fn sim_step(s: Seq<u8>) -> Seq<u8> {
    grayscaled(solarized(s))
}

/// `n` simulation steps in sequence.
pub open spec fn sim_step_n(s: Seq<u8>, n: nat) -> Seq<u8>
    decreases n,
{
    if n == 0 {
        s
    } else {
        sim_step(sim_step_n(s, (n - 1) as nat))
    }
}

/// A decoded image: raw RGBA bytes plus the dimensions they fill.
pub struct RawImage {
    pub raw_pixels: Vec<u8>,
    pub width: u32,
    pub height: u32,
}

impl RawImage {
    /// The construction-time invariant: the byte length matches the
    /// dimensions, four bytes per pixel.
    pub open spec fn well_formed(self) -> bool {
        self.raw_pixels@.len() == self.width as int * self.height as int * 4
    }

    /// The empty placeholder buffer used before any image has been decoded.
    pub fn new() -> (r: RawImage)
        ensures
            r.raw_pixels@ =~= Seq::<u8>::empty(),
            r.width == 0,
            r.height == 0,
            r.well_formed(),
    {
        RawImage { raw_pixels: Vec::new(), width: 0, height: 0 }
    }

    /// Wrap decoded pixel data.  A byte length that does not match the
    /// dimensions is a contract violation of the decoder, not a runtime
    /// error this layer recovers from.
    pub fn from_pixels(raw_pixels: Vec<u8>, width: u32, height: u32) -> (r: RawImage)
        requires
            raw_pixels@.len() == width as int * height as int * 4,
        ensures
            r == (RawImage { raw_pixels, width, height }),
            r.well_formed(),
    {
        RawImage { raw_pixels, width, height }
    }

    /// A second buffer holding the same bytes and dimensions.
    pub fn duplicate(&self) -> (r: RawImage)
        ensures
            r.raw_pixels@ == self.raw_pixels@,
            r.width == self.width,
            r.height == self.height,
    {
        let pixels = self.raw_pixels.clone();
        proof {
            assert(pixels@ =~= self.raw_pixels@);
        }
        RawImage { raw_pixels: pixels, width: self.width, height: self.height }
    }

    /// Invert every red byte that lies below the threshold.
    pub fn solarize(&mut self)
        requires
            old(self).well_formed(),
        ensures
            final(self).raw_pixels@ == solarized(old(self).raw_pixels@),
            final(self).width == old(self).width,
            final(self).height == old(self).height,
            final(self).well_formed(),
    {
        let ghost orig = self.raw_pixels@;
        let end = self.raw_pixels.len();
        proof {
            lemma_len_multiple_of_four(self.width, self.height, end as int);
        }
        let mut i: usize = 0;
        while i < end
            invariant
                i % 4 == 0,
                i <= end,
                end % 4 == 0,
                end == self.raw_pixels.len(),
                orig.len() == end,
                self.width == old(self).width,
                self.height == old(self).height,
                forall|k: int| 0 <= k < i ==> self.raw_pixels@[k] == solarized(orig)[k],
                forall|k: int| i <= k < end ==> self.raw_pixels@[k] == orig[k],
            decreases end - i,
        {
            let r_val = self.raw_pixels[i];
            if r_val < SOLARIZE_THRESHOLD {
                let new_val = SOLARIZE_THRESHOLD - r_val;
                self.raw_pixels.set(i, new_val);
            }
            i = i + 4;
        }
        proof {
            assert(self.raw_pixels@ =~= solarized(orig));
        }
    }

    /// Replace the colour channels of every pixel by their average.
    pub fn grayscale(&mut self)
        requires
            old(self).well_formed(),
        ensures
            final(self).raw_pixels@ == grayscaled(old(self).raw_pixels@),
            final(self).width == old(self).width,
            final(self).height == old(self).height,
            final(self).well_formed(),
    {
        let ghost orig = self.raw_pixels@;
        let end = self.raw_pixels.len();
        proof {
            lemma_len_multiple_of_four(self.width, self.height, end as int);
        }
        let mut i: usize = 0;
        while i < end
            invariant
                i % 4 == 0,
                i <= end,
                end % 4 == 0,
                end == self.raw_pixels.len(),
                orig.len() == end,
                self.width == old(self).width,
                self.height == old(self).height,
                forall|k: int| 0 <= k < i ==> self.raw_pixels@[k] == grayscaled(orig)[k],
                forall|k: int| i <= k < end ==> self.raw_pixels@[k] == orig[k],
            decreases end - i,
        {
            let r_val = self.raw_pixels[i] as u32;
            let g_val = self.raw_pixels[i + 1] as u32;
            let b_val = self.raw_pixels[i + 2] as u32;
            let mut avg: u32 = (r_val + g_val + b_val) / 3;
            if avg >= 255 {
                avg = 255;
            }
            self.raw_pixels.set(i, avg as u8);
            self.raw_pixels.set(i + 1, avg as u8);
            self.raw_pixels.set(i + 2, avg as u8);
            i = i + 4;
        }
        proof {
            assert(self.raw_pixels@ =~= grayscaled(orig));
        }
    }

    /// Shift every red byte by `amt`, clamping into the byte range.
    /// The sum is taken in a wider type, so no intermediate overflows.
    pub fn alter_red_channel(&mut self, amt: i16)
        requires
            old(self).well_formed(),
        ensures
            final(self).raw_pixels@ == red_altered(old(self).raw_pixels@, amt),
            final(self).width == old(self).width,
            final(self).height == old(self).height,
            final(self).well_formed(),
    {
        let ghost orig = self.raw_pixels@;
        let end = self.raw_pixels.len();
        proof {
            lemma_len_multiple_of_four(self.width, self.height, end as int);
        }
        let mut i: usize = 0;
        while i < end
            invariant
                i % 4 == 0,
                i <= end,
                end % 4 == 0,
                end == self.raw_pixels.len(),
                orig.len() == end,
                self.width == old(self).width,
                self.height == old(self).height,
                forall|k: int| 0 <= k < i ==> self.raw_pixels@[k] == red_altered(orig, amt)[k],
                forall|k: int| i <= k < end ==> self.raw_pixels@[k] == orig[k],
            decreases end - i,
        {
            let inc_val: i32 = self.raw_pixels[i] as i32 + amt as i32;
            let clamped: u8 = if inc_val < 0 {
                0
            } else if inc_val > 255 {
                255
            } else {
                inc_val as u8
            };
            self.raw_pixels.set(i, clamped);
            i = i + 4;
        }
        proof {
            assert(self.raw_pixels@ =~= red_altered(orig, amt));
        }
    }
}

/// Law: one solarize pass is not idempotent, but it is an involution on red
/// bytes strictly between zero and the threshold — a second pass restores
/// them (`200 - (200 - r) == r`, and both passes take the guarded branch).
/// Red bytes at or above the threshold are fixed points of every pass, and
/// bytes outside the red channel are never touched.  A red byte of exactly
/// zero is not restored: the first pass sends it to the threshold, where the
/// second pass leaves it.
pub proof fn lemma_solarize_involution(s: Seq<u8>)
    ensures
        forall|k: int|
            0 <= k < s.len() && k % 4 == 0 && 0 < s[k] < SOLARIZE_THRESHOLD
                ==> solarized(solarized(s))[k] == s[k],
        forall|k: int|
            0 <= k < s.len() && k % 4 == 0 && s[k] >= SOLARIZE_THRESHOLD
                ==> solarized(s)[k] == s[k] && solarized(solarized(s))[k] == s[k],
        forall|k: int| 0 <= k < s.len() && k % 4 != 0 ==> solarized(s)[k] == s[k],
{
    assert forall|k: int| 0 <= k < s.len() && k % 4 == 0 implies
        solarized(solarized(s))[k] == solarized_red(solarized_red(s[k])) by {
        assert(solarized(s)[k] == solarized_red(s[k]));
    }
}

/// Law: grayscale is idempotent.  After one pass the three colour bytes of a
/// pixel hold one common value, and the average of three equal values is
/// that value again.
pub proof fn lemma_grayscale_idempotent(s: Seq<u8>)
    requires
        s.len() % 4 == 0,
    ensures
        grayscaled(grayscaled(s)) == grayscaled(s),
{
    let t = grayscaled(s);
    assert forall|k: int| 0 <= k < t.len() implies grayscaled(t)[k] == t[k] by {
        if k % 4 != 3 {
            let p = k - k % 4;
            assert(p + 4 <= s.len());
            let a = gray_average(s[p], s[p + 1], s[p + 2]);
            assert(t[p] == a && t[p + 1] == a && t[p + 2] == a);
            assert((a + a + a) / 3 == a) by (nonlinear_arith);
        }
    }
    assert(grayscaled(t) =~= t);
}

/// A length of the form `w * h * 4` is a multiple of four.
proof fn lemma_len_multiple_of_four(w: u32, h: u32, len: int)
    requires
        len == w as int * h as int * 4,
    ensures
        len % 4 == 0,
{
    let wh = w as int * h as int;
    assert(len == wh * 4);
    assert((wh * 4) % 4 == 0) by (nonlinear_arith);
}

} // verus!
