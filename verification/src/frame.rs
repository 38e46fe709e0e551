//! The composed frame: the library's model of the panel surface.
//!
//! A frame holds one bit per pixel of the physical surface plus the text runs
//! to be rasterized onto it.  The process edge pushes a composed frame to the
//! display transport as one atomic write; the library only ever computes
//! frames, so every drawing operation here is exact and total (drawing outside
//! the surface is clipped, as the hardware layer would).

use vstd::prelude::*;

verus! {

/// Width of the physical surface in pixels.
pub const SURFACE_WIDTH: usize = 64;

/// Height of the physical surface in pixels.
pub const SURFACE_HEIGHT: usize = 128;

/// Number of pixels on the physical surface.
pub const SURFACE_AREA: usize = 64 * 128;

/// A text run to be rasterized at a fixed position, anchored at its top-left
/// corner.
pub struct TextCmd {
    /// Horizontal position of the left edge, in pixels.
    pub x: usize,
    /// Vertical position of the top edge, in pixels.
    pub y: usize,
    /// The characters to show.
    pub text: String,
}

/// Spec-level value of a [`TextCmd`].
pub struct TextV {
    /// Horizontal position of the left edge, in pixels.
    pub x: int,
    /// Vertical position of the top edge, in pixels.
    pub y: int,
    /// The characters to show.
    pub text: Seq<char>,
}

impl View for TextCmd {
    type V = TextV;

    open spec fn view(&self) -> TextV {
        TextV { x: self.x as int, y: self.y as int, text: self.text@ }
    }
}

/// Spec-level value of a [`Frame`]: the pixel bits in row-major order and the
/// text runs in the order they were placed.
pub struct FrameV {
    /// One bit per pixel, row-major, `true` for a lit pixel.
    pub pixels: Seq<bool>,
    /// The text runs placed so far, oldest first.
    pub texts: Seq<TextV>,
}

/// The row-major index of the pixel at `(x, y)`.
pub open spec fn spec_pixel_index(x: int, y: int) -> int {
    y * 64 + x
}

/// `pixels` with the pixel at `(x, y)` lit; unchanged if `(x, y)` lies off the
/// surface.
pub open spec fn spec_set_pixel(pixels: Seq<bool>, x: int, y: int) -> Seq<bool> {
    if 0 <= x < 64 && 0 <= y < 128 {
        pixels.update(spec_pixel_index(x, y), true)
    } else {
        pixels
    }
}

/// `pixels` with the horizontal run `x0 ..= x1` on row `y` lit (clipped to the
/// surface); unchanged if `x1 < x0`.
pub open spec fn spec_hline(pixels: Seq<bool>, x0: int, x1: int, y: int) -> Seq<bool>
    decreases x1 + 1 - x0,
{
    if x1 < x0 {
        pixels
    } else {
        spec_set_pixel(spec_hline(pixels, x0, x1 - 1, y), x1, y)
    }
}

/// `pixels` with the vertical run `y0 ..= y1` on column `x` lit (clipped to
/// the surface); unchanged if `y1 < y0`.
pub open spec fn spec_vline(pixels: Seq<bool>, x: int, y0: int, y1: int) -> Seq<bool>
    decreases y1 + 1 - y0,
{
    if y1 < y0 {
        pixels
    } else {
        spec_set_pixel(spec_vline(pixels, x, y0, y1 - 1), x, y1)
    }
}

/// An all-dark surface.
pub open spec fn spec_blank_pixels() -> Seq<bool> {
    Seq::new(8192, |i: int| false)
}

/// Lighting a pixel never changes the surface's size.
pub proof fn lemma_set_pixel_len(pixels: Seq<bool>, x: int, y: int)
    requires
        pixels.len() == 8192,
    ensures
        spec_set_pixel(pixels, x, y).len() == 8192,
{
}

/// What one lit pixel does to the surface, read pixel by pixel: the target
/// becomes lit, every other position keeps its value.
pub proof fn lemma_set_pixel_effect(pixels: Seq<bool>, x: int, y: int, a: int, b: int)
    requires
        pixels.len() == 8192,
        0 <= a < 64,
        0 <= b < 128,
    ensures
        spec_set_pixel(pixels, x, y)[spec_pixel_index(a, b)] == ((a == x && b == y)
            || pixels[spec_pixel_index(a, b)]),
{
    if 0 <= x < 64 && 0 <= y < 128 {
        assert(spec_pixel_index(a, b) == spec_pixel_index(x, y) ==> a == x && b == y);
    }
}

/// A horizontal run never changes the surface's size.
pub proof fn lemma_hline_len(pixels: Seq<bool>, x0: int, x1: int, y: int)
    requires
        pixels.len() == 8192,
    ensures
        spec_hline(pixels, x0, x1, y).len() == 8192,
    decreases x1 + 1 - x0,
{
    if x1 < x0 {
    } else {
        lemma_hline_len(pixels, x0, x1 - 1, y);
        lemma_set_pixel_len(spec_hline(pixels, x0, x1 - 1, y), x1, y);
    }
}

/// What a horizontal run does to the surface, read pixel by pixel: the
/// positions on row `y` between `x0` and `x1` become lit, every other
/// position keeps its value.
pub proof fn lemma_hline_effect(pixels: Seq<bool>, x0: int, x1: int, y: int, a: int, b: int)
    requires
        pixels.len() == 8192,
        0 <= a < 64,
        0 <= b < 128,
    ensures
        spec_hline(pixels, x0, x1, y)[spec_pixel_index(a, b)] == ((x0 <= a <= x1 && b == y)
            || pixels[spec_pixel_index(a, b)]),
    decreases x1 + 1 - x0,
{
    if x1 < x0 {
    } else {
        lemma_hline_effect(pixels, x0, x1 - 1, y, a, b);
        lemma_hline_len(pixels, x0, x1 - 1, y);
        lemma_set_pixel_effect(spec_hline(pixels, x0, x1 - 1, y), x1, y, a, b);
    }
}

/// A vertical run never changes the surface's size.
pub proof fn lemma_vline_len(pixels: Seq<bool>, x: int, y0: int, y1: int)
    requires
        pixels.len() == 8192,
    ensures
        spec_vline(pixels, x, y0, y1).len() == 8192,
    decreases y1 + 1 - y0,
{
    if y1 < y0 {
    } else {
        lemma_vline_len(pixels, x, y0, y1 - 1);
        lemma_set_pixel_len(spec_vline(pixels, x, y0, y1 - 1), x, y1);
    }
}

/// What a vertical run does to the surface, read pixel by pixel: the
/// positions on column `x` between `y0` and `y1` become lit, every other
/// position keeps its value.
pub proof fn lemma_vline_effect(pixels: Seq<bool>, x: int, y0: int, y1: int, a: int, b: int)
    requires
        pixels.len() == 8192,
        0 <= a < 64,
        0 <= b < 128,
    ensures
        spec_vline(pixels, x, y0, y1)[spec_pixel_index(a, b)] == ((a == x && y0 <= b <= y1)
            || pixels[spec_pixel_index(a, b)]),
    decreases y1 + 1 - y0,
{
    if y1 < y0 {
    } else {
        lemma_vline_effect(pixels, x, y0, y1 - 1, a, b);
        lemma_vline_len(pixels, x, y0, y1 - 1);
        lemma_set_pixel_effect(spec_vline(pixels, x, y0, y1 - 1), x, y1, a, b);
    }
}

/// A frame being composed: pixel bits plus text runs.
pub struct Frame {
    pixels: Vec<bool>,
    texts: Vec<TextCmd>,
}

impl View for Frame {
    type V = FrameV;

    closed spec fn view(&self) -> FrameV {
        FrameV {
            pixels: self.pixels@,
            texts: Seq::new(self.texts@.len(), |i: int| self.texts@[i]@),
        }
    }
}

impl Frame {
    /// A frame is well formed when it covers the surface exactly.
    pub open spec fn wf(&self) -> bool {
        self@.pixels.len() == 8192
    }

    /// A new, blank frame.
    pub fn new() -> (r: Frame)
        ensures
            r.wf(),
            r@.pixels == spec_blank_pixels(),
            r@.texts == Seq::<TextV>::empty(),
    {
        let mut pixels: Vec<bool> = Vec::new();
        let mut i: usize = 0;
        while i < SURFACE_AREA
            invariant
                i <= 8192,
                pixels@.len() == i,
                forall|j: int| 0 <= j < i ==> pixels@[j] == false,
            decreases 8192 - i,
        {
            pixels.push(false);
            i = i + 1;
        }
        let r = Frame { pixels, texts: Vec::new() };
        proof {
            assert(r@.pixels =~= spec_blank_pixels());
            assert(r@.texts =~= Seq::<TextV>::empty());
        }
        r
    }

    /// Darkens every pixel and drops every text run.
    pub fn clear(&mut self)
        requires
            old(self).wf(),
        ensures
            final(self).wf(),
            final(self)@.pixels == spec_blank_pixels(),
            final(self)@.texts == Seq::<TextV>::empty(),
    {
        let mut i: usize = 0;
        while i < SURFACE_AREA
            invariant
                i <= 8192,
                self.pixels@.len() == 8192,
                forall|j: int| 0 <= j < i ==> self.pixels@[j] == false,
            decreases 8192 - i,
        {
            self.pixels.set(i, false);
            i = i + 1;
        }
        self.texts = Vec::new();
        proof {
            assert(self@.pixels =~= spec_blank_pixels());
            assert(self@.texts =~= Seq::<TextV>::empty());
        }
    }

    /// Lights the pixel at `(x, y)`; positions off the surface are clipped.
    pub fn set_pixel(&mut self, x: usize, y: usize)
        requires
            old(self).wf(),
        ensures
            final(self).wf(),
            final(self)@.pixels == spec_set_pixel(old(self)@.pixels, x as int, y as int),
            final(self)@.texts == old(self)@.texts,
    {
        if x < SURFACE_WIDTH && y < SURFACE_HEIGHT {
            self.pixels.set(y * SURFACE_WIDTH + x, true);
        }
    }

    /// Lights the horizontal run `x0 ..= x1` on row `y`, clipped to the
    /// surface.
    pub fn draw_hline(&mut self, x0: usize, x1: usize, y: usize)
        requires
            old(self).wf(),
            x1 < usize::MAX,
        ensures
            final(self).wf(),
            final(self)@.pixels == spec_hline(old(self)@.pixels, x0 as int, x1 as int, y as int),
            final(self)@.texts == old(self)@.texts,
    {
        let mut x = x0;
        while x <= x1
            invariant
                old(self).wf(),
                self.wf(),
                x1 < usize::MAX,
                x0 <= x,
                x == x0 || x <= x1 + 1,
                self@.pixels == spec_hline(old(self)@.pixels, x0 as int, x as int - 1, y as int),
                self@.texts == old(self)@.texts,
            decreases x1 + 1 - x,
        {
            self.set_pixel(x, y);
            x = x + 1;
        }
    }

    /// Lights the vertical run `y0 ..= y1` on column `x`, clipped to the
    /// surface.
    pub fn draw_vline(&mut self, x: usize, y0: usize, y1: usize)
        requires
            old(self).wf(),
            y1 < usize::MAX,
        ensures
            final(self).wf(),
            final(self)@.pixels == spec_vline(old(self)@.pixels, x as int, y0 as int, y1 as int),
            final(self)@.texts == old(self)@.texts,
    {
        let mut y = y0;
        while y <= y1
            invariant
                old(self).wf(),
                self.wf(),
                y1 < usize::MAX,
                y0 <= y,
                y == y0 || y <= y1 + 1,
                self@.pixels == spec_vline(old(self)@.pixels, x as int, y0 as int, y as int - 1),
                self@.texts == old(self)@.texts,
            decreases y1 + 1 - y,
        {
            self.set_pixel(x, y);
            y = y + 1;
        }
    }

    /// Places a text run with its top-left corner at `(x, y)`.
    pub fn push_text(&mut self, x: usize, y: usize, text: String)
        requires
            old(self).wf(),
        ensures
            final(self).wf(),
            final(self)@.pixels == old(self)@.pixels,
            final(self)@.texts == old(self)@.texts.push(
                TextV { x: x as int, y: y as int, text: text@ },
            ),
    {
        let ghost t = text@;
        self.texts.push(TextCmd { x, y, text });
        proof {
            assert(self@.texts =~= old(self)@.texts.push(
                TextV { x: x as int, y: y as int, text: t },
            ));
        }
    }

    /// Whether the pixel at `(x, y)` is lit; positions off the surface read as
    /// dark.
    pub fn pixel(&self, x: usize, y: usize) -> (r: bool)
        requires
            self.wf(),
        ensures
            r == if 0 <= x < 64 && 0 <= y < 128 {
                self@.pixels[spec_pixel_index(x as int, y as int)]
            } else {
                false
            },
    {
        if x < SURFACE_WIDTH && y < SURFACE_HEIGHT {
            self.pixels[y * SURFACE_WIDTH + x]
        } else {
            false
        }
    }

    /// The text runs placed on this frame, oldest first.
    pub fn texts(&self) -> (r: &Vec<TextCmd>)
        ensures
            r@.len() == self@.texts.len(),
            forall|i: int| 0 <= i < r@.len() ==> r@[i]@ == self@.texts[i],
    {
        &self.texts
    }
}

} // verus!
