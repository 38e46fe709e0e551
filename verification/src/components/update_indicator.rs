//! The liveness indicator: a tiny two-phase glyph in the bottom corner of
//! the surface, driven purely by the tick at render time.

use vstd::prelude::*;

use crate::errors::Error;
use crate::frame::{spec_set_pixel, Frame, FrameV};

verus! {

/// Blinks a 3 by 3 pixel glyph once a second so a frozen display is
/// noticeable.
#[derive(Debug)]
pub struct UpdateIndicator {}

/// The indicator never asks to update: the tick alone drives it.
pub open spec fn spec_indicator_should_update(u: UpdateIndicator, elapsed: u64) -> bool {
    false
}

/// The frame effect of rendering: one of two glyph phases at the fixed
/// bottom-corner position, chosen by the parity of the tick; the burn-in
/// offset does not move it.
pub open spec fn spec_indicator_render(f: FrameV, tick: u64) -> FrameV {
    FrameV {
        pixels: if tick % 2 == 0 {
            spec_set_pixel(spec_set_pixel(f.pixels, 62, 125), 62, 127)
        } else {
            spec_set_pixel(spec_set_pixel(f.pixels, 61, 126), 63, 126)
        },
        texts: f.texts,
    }
}

impl UpdateIndicator {
    /// An indicator is always well formed.
    pub open spec fn wf(&self) -> bool {
        true
    }

    /// Whether the indicator should update: never.
    pub fn should_update(&self, elapsed: u64) -> (r: bool)
        ensures
            r == spec_indicator_should_update(*self, elapsed),
    {
        false
    }

    /// Updating is a no-op: the indicator holds no state.
    pub fn update(&mut self) -> (r: Result<(), Error>)
        ensures
            *final(self) == *old(self),
            r is Ok,
    {
        Ok(())
    }

    /// Draws the glyph phase picked by the tick's parity.
    pub fn render(&self, frame: &mut Frame, tick: u64) -> (r: Result<(), Error>)
        requires
            old(frame).wf(),
        ensures
            final(frame).wf(),
            final(frame)@ == spec_indicator_render(old(frame)@, tick),
            r is Ok,
    {
        if tick % 2 == 0 {
            frame.set_pixel(62, 125);
            frame.set_pixel(62, 127);
        } else {
            frame.set_pixel(61, 126);
            frame.set_pixel(63, 126);
        }
        Ok(())
    }

    /// The panel's identifying label.
    pub fn label(&self) -> (r: String)
        ensures
            r@ == "UpdateIndicator"@,
    {
        "UpdateIndicator".to_owned()
    }
}

} // verus!
