//! The uptime panel: the monotonic uptime rendered as days, hours and
//! minutes.

use vstd::prelude::*;

use crate::digits::{spec_dec, spec_pad2, u64_to_string, u64_to_string_pad2};
use crate::errors::Error;
use crate::frame::{Frame, FrameV, TextV};

verus! {

/// The label shown for an uptime of `secs` seconds: days, then zero-padded
/// hours and minutes, e.g. `1d01h01m`.
pub open spec fn spec_uptime_label(secs: nat) -> Seq<char> {
    spec_dec(secs / 86400).push('d').add(spec_pad2((secs / 3600) % 24)).push('h').add(
        spec_pad2((secs / 60) % 60),
    ).push('m')
}

/// Shows how long the host has been up; the cached label is refreshed every
/// 15 seconds.
#[derive(Debug)]
pub struct Uptime {
    /// The rendered label; empty until the first successful update.
    pub display_string: String,
}

/// The uptime panel refreshes after more than 15 seconds.
pub open spec fn spec_uptime_should_update(u: Uptime, elapsed: u64) -> bool {
    elapsed > 15
}

/// The frame effect of rendering: the cached label placed at the slot
/// origin.
pub open spec fn spec_uptime_render(u: Uptime, f: FrameV, ox: int, oy: int) -> FrameV {
    FrameV {
        pixels: f.pixels,
        texts: f.texts.push(TextV { x: ox, y: oy, text: u.display_string@ }),
    }
}

impl Uptime {
    /// An uptime panel is always well formed.
    pub open spec fn wf(&self) -> bool {
        true
    }

    /// A fresh uptime panel with an empty label.
    pub fn new() -> (r: Uptime)
        ensures
            r.display_string@ == Seq::<char>::empty(),
    {
        let r = Uptime { display_string: String::new() };
        r
    }

    /// Whether the label should be refreshed after `elapsed` seconds: every
    /// 15 seconds.
    pub fn should_update(&self, elapsed: u64) -> (r: bool)
        ensures
            r == spec_uptime_should_update(*self, elapsed),
    {
        elapsed > 15
    }

    /// Applies the outcome of an uptime reading: a delivered duration is
    /// rendered to the day/hour/minute label; a failed reading keeps the
    /// previous label and reports the failure.
    pub fn update(&mut self, input: Result<u64, Error>) -> (r: Result<(), Error>)
        ensures
            match input {
                Ok(secs) => final(self).display_string@ == spec_uptime_label(secs as nat),
                Err(_) => *final(self) == *old(self),
            },
            match r {
                Ok(()) => input is Ok,
                Err(e) => input matches Err(e0) && e == e0,
            },
    {
        match input {
            Ok(secs) => {
                let mut s = u64_to_string(secs / 86400);
                s.append("d");
                s.append(u64_to_string_pad2((secs / 3600) % 24).as_str());
                s.append("h");
                s.append(u64_to_string_pad2((secs / 60) % 60).as_str());
                s.append("m");
                proof {
                    reveal_strlit("d");
                    reveal_strlit("h");
                    reveal_strlit("m");
                    assert(s@ =~= spec_uptime_label(secs as nat));
                }
                self.display_string = s;
                Ok(())
            },
            Err(e) => Err(e),
        }
    }

    /// Draws the cached label at the slot origin.
    pub fn render(&self, frame: &mut Frame, ox: usize, oy: usize) -> (r: Result<(), Error>)
        requires
            old(frame).wf(),
        ensures
            final(frame).wf(),
            final(frame)@ == spec_uptime_render(*self, old(frame)@, ox as int, oy as int),
            r is Ok,
    {
        frame.push_text(ox, oy, self.display_string.clone());
        Ok(())
    }

    /// The panel's identifying label.
    pub fn label(&self) -> (r: String)
        ensures
            r@ == "Uptime"@,
    {
        "Uptime".to_owned()
    }
}

} // verus!
