//! The memory panel: a rolling sparkline of the used share of physical
//! memory.

use vstd::arithmetic::div_mod::lemma_multiply_divide_le;
use vstd::prelude::*;

use crate::errors::Error;
use crate::frame::{Frame, FrameV};
use crate::history::{spec_insert, History};
use crate::layout::WIDTH;

use super::sparkline::{draw_sparkline, spec_sparkline};

verus! {

/// One reading of the memory counters.
pub struct MemStat {
    /// Total physical memory in bytes.
    pub total: u64,
    /// Free memory in bytes.
    pub free: u64,
}

impl MemStat {
    /// A reading is well formed when some memory exists and no more is free
    /// than exists.
    pub open spec fn wf(&self) -> bool {
        &&& self.total > 0
        &&& self.free <= self.total
    }
}

/// The used share of memory in thousandths, rounded down.
pub open spec fn spec_mem_fraction(m: MemStat) -> int {
    ((m.total - m.free) * 1000) / (m.total as int)
}

/// Shows memory pressure as a sparkline over the most recent readings.
pub struct Memory {
    /// The used-share fractions, newest first, in thousandths.
    pub graph: History,
}

/// The memory panel refreshes after more than 60 seconds.
pub open spec fn spec_memory_should_update(m: Memory, elapsed: u64) -> bool {
    elapsed > 60
}

/// The frame effect of rendering: the sparkline of the stored fractions.
pub open spec fn spec_memory_render(m: Memory, f: FrameV, ox: int, oy: int) -> FrameV {
    FrameV { pixels: spec_sparkline(f.pixels, m.graph@, ox, oy), texts: f.texts }
}

impl Memory {
    /// A memory panel is well formed when its history is and spans the
    /// drawable width.
    pub open spec fn wf(&self) -> bool {
        &&& self.graph.wf()
        &&& self.graph.spec_cap() == 59
    }

    /// A fresh memory panel with an empty history.
    pub fn new() -> (r: Result<Memory, Error>)
        ensures
            r matches Ok(m) && m.wf() && m.graph@ == Seq::<u16>::empty(),
    {
        Ok(Memory { graph: History::new(WIDTH) })
    }

    /// Whether the counters should be re-read after `elapsed` seconds: every
    /// 60 seconds.
    pub fn should_update(&self, elapsed: u64) -> (r: bool)
        ensures
            r == spec_memory_should_update(*self, elapsed),
    {
        elapsed > 60
    }

    /// Applies one reading of the memory counters: the used share enters the
    /// history; a failed reading leaves the history untouched.
    pub fn update(&mut self, input: Result<MemStat, Error>) -> (r: Result<(), Error>)
        requires
            old(self).wf(),
            input matches Ok(m) ==> m.wf(),
        ensures
            final(self).wf(),
            final(self).graph.spec_cap() == old(self).graph.spec_cap(),
            match input {
                Ok(m) => final(self).graph@ == spec_insert(
                    old(self).graph@,
                    59,
                    spec_mem_fraction(m) as u16,
                ),
                Err(_) => *final(self) == *old(self),
            },
            match r {
                Ok(()) => input is Ok,
                Err(e) => input matches Err(e0) && e == e0,
            },
    {
        match input {
            Ok(m) => {
                let used = m.total - m.free;
                let wide: u128 = (used as u128) * 1000u128;
                let frac = (wide / (m.total as u128)) as u16;
                proof {
                    assert((used as int) * 1000 <= (m.total as int) * 1000) by (nonlinear_arith)
                        requires
                            0 <= used as int <= m.total as int,
                    ;
                    lemma_multiply_divide_le((used as int) * 1000, m.total as int, 1000);
                }
                self.graph.insert(frac);
                Ok(())
            },
            Err(e) => Err(e),
        }
    }

    /// Draws the sparkline of the stored fractions.
    pub fn render(&self, frame: &mut Frame, ox: usize, oy: usize) -> (r: Result<(), Error>)
        requires
            old(frame).wf(),
            self.wf(),
            ox + 64 <= usize::MAX,
            oy + 128 <= usize::MAX,
        ensures
            final(frame).wf(),
            final(frame)@ == spec_memory_render(*self, old(frame)@, ox as int, oy as int),
            r is Ok,
    {
        draw_sparkline(frame, &self.graph, ox, oy);
        Ok(())
    }

    /// The panel's identifying label.
    pub fn label(&self) -> (r: String)
        ensures
            r@ == "Memory"@,
    {
        "Memory".to_owned()
    }
}

} // verus!
