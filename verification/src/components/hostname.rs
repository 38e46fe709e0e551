//! The hostname panel: one line of text, fetched once.

use vstd::prelude::*;

use crate::errors::Error;
use crate::frame::{Frame, FrameV, TextV};

verus! {

/// Shows the host's name; the name is looked up once and cached for the
/// process lifetime.
#[derive(Debug)]
pub struct Hostname {
    /// The cached name; absent until the first successful update.
    pub hostname: Option<String>,
}

/// The hostname panel updates only while no name is cached yet.
pub open spec fn spec_hostname_should_update(h: Hostname, elapsed: u64) -> bool {
    h.hostname is None
}

/// The cached state after applying a lookup outcome: a delivered name is
/// cached, a failed lookup leaves the previous state.
pub open spec fn spec_hostname_updated(h: Hostname, input: Result<String, Error>) -> Hostname {
    match input {
        Ok(name) => Hostname { hostname: Some(name) },
        Err(_) => h,
    }
}

/// The frame effect of rendering: the cached name placed at the slot origin.
/// While no name has ever been delivered the panel falls back to showing
/// nothing, so rendering succeeds before the first update.
pub open spec fn spec_hostname_render(h: Hostname, f: FrameV, ox: int, oy: int) -> FrameV {
    match h.hostname {
        Some(name) => FrameV {
            pixels: f.pixels,
            texts: f.texts.push(TextV { x: ox, y: oy, text: name@ }),
        },
        None => f,
    }
}

impl Hostname {
    /// A hostname panel is always well formed.
    pub open spec fn wf(&self) -> bool {
        true
    }

    /// Whether the cached name should be (re)fetched after `elapsed` seconds:
    /// only while no name is cached.
    pub fn should_update(&self, elapsed: u64) -> (r: bool)
        ensures
            r == spec_hostname_should_update(*self, elapsed),
    {
        self.hostname.is_none()
    }

    /// Applies the outcome of a hostname lookup: a delivered name is cached;
    /// a failed lookup keeps the previous state and reports the failure.
    pub fn update(&mut self, input: Result<String, Error>) -> (r: Result<(), Error>)
        ensures
            *final(self) == spec_hostname_updated(*old(self), input),
            match r {
                Ok(()) => input is Ok,
                Err(e) => input matches Err(e0) && e == e0,
            },
    {
        match input {
            Ok(name) => {
                self.hostname = Some(name);
                Ok(())
            },
            Err(e) => Err(e),
        }
    }

    /// Draws the cached name at the slot origin; with no name ever
    /// delivered, the panel's placeholder is an empty slot, never a failure.
    pub fn render(&self, frame: &mut Frame, ox: usize, oy: usize) -> (r: Result<(), Error>)
        requires
            old(frame).wf(),
        ensures
            final(frame).wf(),
            final(frame)@ == spec_hostname_render(*self, old(frame)@, ox as int, oy as int),
            r is Ok,
    {
        match &self.hostname {
            Some(name) => {
                frame.push_text(ox, oy, name.clone());
            },
            None => {},
        }
        Ok(())
    }

    /// The panel's identifying label.
    pub fn label(&self) -> (r: String)
        ensures
            r@ == "Hostname"@,
    {
        "Hostname".to_owned()
    }
}

} // verus!
