//! The load panel: a rolling sparkline of the CPU busy fraction, fed by a
//! two-phase sampler (begin a sample, collect it about a second later).

use vstd::prelude::*;

use crate::errors::{Error, ErrorV};
use crate::frame::{Frame, FrameV};
use crate::history::{spec_insert, History};
use crate::layout::WIDTH;

use super::sparkline::{draw_sparkline, spec_sparkline};

verus! {

/// The outcome of one scheduler-driven step of the two-phase CPU sampler.
pub enum LoadInput {
    /// A new sample was begun (or beginning one failed, leaving none in
    /// flight).
    Started(bool),
    /// The in-flight sample was collected: the busy fraction in thousandths,
    /// or the collector's failure.
    Collected(Result<u16, Error>),
}

/// A load input is well formed when a collected fraction is normalized.
pub open spec fn spec_load_input_wf(input: LoadInput) -> bool {
    input matches LoadInput::Collected(Ok(v)) ==> v <= 1000
}

/// Shows the CPU load as a sparkline over the most recent samples.
pub struct Load {
    /// Whether a begun sample is waiting to be collected.
    pub measurement_in_flight: bool,
    /// The collected busy fractions, newest first, in thousandths.
    pub graph: History,
}

/// With a sample in flight the panel updates after 1 second, to collect it;
/// otherwise after 60 seconds, to begin the next one.
pub open spec fn spec_load_should_update(l: Load, elapsed: u64) -> bool {
    elapsed > (if l.measurement_in_flight {
        1u64
    } else {
        60u64
    })
}

/// The frame effect of rendering: the sparkline of the stored fractions.
pub open spec fn spec_load_render(l: Load, f: FrameV, ox: int, oy: int) -> FrameV {
    FrameV { pixels: spec_sparkline(f.pixels, l.graph@, ox, oy), texts: f.texts }
}

impl Load {
    /// A load panel is well formed when its history is and spans the
    /// drawable width.
    pub open spec fn wf(&self) -> bool {
        &&& self.graph.wf()
        &&& self.graph.spec_cap() == 59
    }

    /// A fresh load panel with no sample in flight and an empty history.
    pub fn new() -> (r: Result<Load, Error>)
        ensures
            r matches Ok(l) && l.wf() && !l.measurement_in_flight && l.graph@ == Seq::<
                u16,
            >::empty(),
    {
        Ok(Load { measurement_in_flight: false, graph: History::new(WIDTH) })
    }

    /// Whether the sampler should be driven after `elapsed` seconds: after 1
    /// second while a sample is in flight, else after 60.
    pub fn should_update(&self, elapsed: u64) -> (r: bool)
        ensures
            r == spec_load_should_update(*self, elapsed),
    {
        elapsed > (if self.measurement_in_flight {
            1
        } else {
            60
        })
    }

    /// Notes whether beginning a new sample succeeded; a failed start leaves
    /// no sample in flight and is not an update failure.
    pub fn start_measurement(&mut self, started: bool) -> (r: Result<(), Error>)
        requires
            old(self).wf(),
        ensures
            final(self).wf(),
            final(self).measurement_in_flight == started,
            final(self).graph@ == old(self).graph@,
            final(self).graph.spec_cap() == old(self).graph.spec_cap(),
            r is Ok,
    {
        self.measurement_in_flight = started;
        Ok(())
    }

    /// Applies the outcome of collecting the in-flight sample: a delivered
    /// fraction enters the history and the sampler goes idle; a failed
    /// collection keeps the sample in flight; with no sample in flight there
    /// is nothing to collect.
    pub fn collect_measurement(&mut self, result: Result<u16, Error>) -> (r: Result<(), Error>)
        requires
            old(self).wf(),
            result matches Ok(v) ==> v <= 1000,
        ensures
            final(self).wf(),
            final(self).graph.spec_cap() == old(self).graph.spec_cap(),
            if old(self).measurement_in_flight {
                match result {
                    Ok(v) => {
                        &&& !final(self).measurement_in_flight
                        &&& final(self).graph@ == spec_insert(old(self).graph@, 59, v)
                        &&& r is Ok
                    },
                    Err(_) => {
                        &&& final(self).measurement_in_flight
                        &&& final(self).graph@ == old(self).graph@
                        &&& (r matches Err(e) && result matches Err(e0) && e == e0)
                    },
                }
            } else {
                &&& *final(self) == *old(self)
                &&& (r matches Err(e) && e@ == ErrorV::Message(
                    "No measurement active to collect"@,
                ))
            },
    {
        if !self.measurement_in_flight {
            return Err(Error::Message("No measurement active to collect".to_owned()));
        }
        match result {
            Ok(v) => {
                self.measurement_in_flight = false;
                self.graph.insert(v);
                Ok(())
            },
            Err(e) => Err(e),
        }
    }

    /// Draws the sparkline of the stored fractions.
    pub fn render(&self, frame: &mut Frame, ox: usize, oy: usize) -> (r: Result<(), Error>)
        requires
            old(frame).wf(),
            self.wf(),
            ox + 64 <= usize::MAX,
            oy + 128 <= usize::MAX,
        ensures
            final(frame).wf(),
            final(frame)@ == spec_load_render(*self, old(frame)@, ox as int, oy as int),
            r is Ok,
    {
        draw_sparkline(frame, &self.graph, ox, oy);
        Ok(())
    }

    /// The panel's identifying label.
    pub fn label(&self) -> (r: String)
        ensures
            r@ == "Load"@,
    {
        "Load".to_owned()
    }
}

} // verus!
