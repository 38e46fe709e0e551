//! The status components: heterogeneous data sources sharing one
//! update/render contract and a per-variant refresh cadence.
//!
//! Each component caches its last successfully collected measurement and
//! renders that cache into a frame slot; collecting itself happens at the
//! process edge, which hands the outcome in as a plain [`UpdateInput`] value.

use vstd::prelude::*;

pub mod disk;
pub mod hostname;
pub mod load;
pub mod memory;
pub mod sparkline;
pub mod update_indicator;
pub mod uptime;

pub use disk::Disk;
pub use disk::DiskProbe;
pub use disk::FsStat;
pub use disk::lemma_usage_bar_geometry;
pub use disk::spec_disk_render;
pub use disk::spec_disk_should_update;
pub use disk::spec_disk_update_err;
pub use disk::spec_disk_updated;
pub use disk::spec_probe_wf;
pub use hostname::Hostname;
pub use hostname::spec_hostname_render;
pub use hostname::spec_hostname_should_update;
pub use hostname::spec_hostname_updated;
pub use load::Load;
pub use load::LoadInput;
pub use load::spec_load_input_wf;
pub use load::spec_load_render;
pub use load::spec_load_should_update;
pub use memory::MemStat;
pub use memory::Memory;
pub use memory::spec_mem_fraction;
pub use memory::spec_memory_render;
pub use memory::spec_memory_should_update;
pub use sparkline::draw_sparkline;
pub use sparkline::spec_spark_points;
pub use sparkline::spec_spark_ticks;
pub use sparkline::spec_spark_y;
pub use sparkline::spec_sparkline;
pub use update_indicator::UpdateIndicator;
pub use update_indicator::spec_indicator_render;
pub use update_indicator::spec_indicator_should_update;
pub use uptime::Uptime;
pub use uptime::spec_uptime_label;
pub use uptime::spec_uptime_render;
pub use uptime::spec_uptime_should_update;

use crate::errors::{Error, ErrorV};
use crate::frame::{Frame, FrameV};
use crate::history::spec_insert;

verus! {

/// One status component: a self-contained data source with its own cached
/// measurement, refresh cadence and rendering.  Insertion order in the
/// component list is render order.
pub enum Component {
    /// The host identity panel.
    Hostname(Hostname),
    /// The uptime panel.
    Uptime(Uptime),
    /// A disk capacity panel.
    Disk(Disk),
    /// The CPU load sparkline.
    Load(Load),
    /// The memory pressure sparkline.
    Memory(Memory),
    /// The liveness indicator.
    UpdateIndicator(UpdateIndicator),
}

/// The outcome of collecting one component's measurement at the process
/// edge, handed to [`Component::update`].
pub enum UpdateInput {
    /// A hostname lookup outcome.
    Hostname(Result<String, Error>),
    /// A monotonic uptime reading in whole seconds.
    Uptime(Result<u64, Error>),
    /// A probe of a disk's mount point.
    Disk(DiskProbe),
    /// One step of the two-phase CPU sampler.
    Load(LoadInput),
    /// A reading of the memory counters.
    Memory(Result<MemStat, Error>),
    /// No measurement: for components that hold no collected state.
    Nothing,
}

/// Whether `input` is the kind of measurement `c` consumes, well formed, and
/// consistent with `c`'s sampler state.
pub open spec fn spec_input_matches(c: Component, input: UpdateInput) -> bool {
    match (c, input) {
        (Component::Hostname(_), UpdateInput::Hostname(_)) => true,
        (Component::Uptime(_), UpdateInput::Uptime(_)) => true,
        (Component::Disk(_), UpdateInput::Disk(probe)) => spec_probe_wf(probe),
        (Component::Load(l), UpdateInput::Load(li)) => spec_load_input_wf(li) && (
        l.measurement_in_flight <==> li is Collected),
        (Component::Memory(_), UpdateInput::Memory(i)) => i matches Ok(m) ==> m.wf(),
        (Component::UpdateIndicator(_), UpdateInput::Nothing) => true,
        _ => false,
    }
}

/// How a component's cached state after an update relates to its state
/// before: a delivered measurement is absorbed, a failed one leaves the
/// previous state intact.
pub open spec fn spec_updated_rel(c: Component, input: UpdateInput, c2: Component) -> bool {
    match (c, input, c2) {
        (Component::Hostname(h), UpdateInput::Hostname(i), Component::Hostname(h2)) => h2
            == spec_hostname_updated(h, i),
        (Component::Uptime(u), UpdateInput::Uptime(i), Component::Uptime(u2)) => match i {
            Ok(secs) => u2.display_string@ == spec_uptime_label(secs as nat),
            Err(_) => u2 == u,
        },
        (Component::Disk(d), UpdateInput::Disk(probe), Component::Disk(d2)) => d2
            == spec_disk_updated(d, probe),
        (Component::Load(l), UpdateInput::Load(li), Component::Load(l2)) => {
            &&& l2.graph.spec_cap() == l.graph.spec_cap()
            &&& match li {
                LoadInput::Started(ok) => l2.measurement_in_flight == ok && l2.graph@ == l.graph@,
                LoadInput::Collected(Ok(v)) => !l2.measurement_in_flight && l2.graph@
                    == spec_insert(l.graph@, 59, v),
                LoadInput::Collected(Err(_)) => l2.measurement_in_flight
                    == l.measurement_in_flight && l2.graph@ == l.graph@,
            }
        },
        (Component::Memory(m), UpdateInput::Memory(i), Component::Memory(m2)) => {
            &&& m2.graph.spec_cap() == m.graph.spec_cap()
            &&& match i {
                Ok(ms) => m2.graph@ == spec_insert(m.graph@, 59, spec_mem_fraction(ms) as u16),
                Err(_) => m2 == m,
            }
        },
        (Component::UpdateIndicator(u), UpdateInput::Nothing, Component::UpdateIndicator(u2)) => u2
            == u,
        _ => false,
    }
}

/// The failure an update reports, if any: exactly the failure of the
/// delivered measurement.
pub open spec fn spec_update_err(c: Component, input: UpdateInput) -> Option<ErrorV> {
    match input {
        UpdateInput::Hostname(i) => match i {
            Ok(_) => None,
            Err(e) => Some(e@),
        },
        UpdateInput::Uptime(i) => match i {
            Ok(_) => None,
            Err(e) => Some(e@),
        },
        UpdateInput::Disk(probe) => spec_disk_update_err(probe),
        UpdateInput::Load(li) => match li {
            LoadInput::Started(_) => None,
            LoadInput::Collected(i) => match i {
                Ok(_) => None,
                Err(e) => Some(e@),
            },
        },
        UpdateInput::Memory(i) => match i {
            Ok(_) => None,
            Err(e) => Some(e@),
        },
        UpdateInput::Nothing => None,
    }
}

/// Each component's refresh cadence at a given elapsed time since its last
/// update.
pub open spec fn spec_should_update(c: Component, elapsed: u64) -> bool {
    match c {
        Component::Hostname(h) => spec_hostname_should_update(h, elapsed),
        Component::Uptime(u) => spec_uptime_should_update(u, elapsed),
        Component::Disk(d) => spec_disk_should_update(d, elapsed),
        Component::Load(l) => spec_load_should_update(l, elapsed),
        Component::Memory(m) => spec_memory_should_update(m, elapsed),
        Component::UpdateIndicator(u) => spec_indicator_should_update(u, elapsed),
    }
}

/// The frame effect of rendering a component into the slot at `(ox, oy)`.
pub open spec fn spec_render(c: Component, f: FrameV, ox: int, oy: int, tick: u64) -> FrameV {
    match c {
        Component::Hostname(h) => spec_hostname_render(h, f, ox, oy),
        Component::Uptime(u) => spec_uptime_render(u, f, ox, oy),
        Component::Disk(d) => spec_disk_render(d, f, ox, oy),
        Component::Load(l) => spec_load_render(l, f, ox, oy),
        Component::Memory(m) => spec_memory_render(m, f, ox, oy),
        Component::UpdateIndicator(_) => spec_indicator_render(f, tick),
    }
}

/// Each component's identifying label.
pub open spec fn spec_component_label(c: Component) -> Seq<char> {
    match c {
        Component::Hostname(_) => "Hostname"@,
        Component::Uptime(_) => "Uptime"@,
        Component::Disk(d) => d.name@,
        Component::Load(_) => "Load"@,
        Component::Memory(_) => "Memory"@,
        Component::UpdateIndicator(_) => "UpdateIndicator"@,
    }
}

impl Component {
    /// A component is well formed when its variant state is.
    pub open spec fn wf(&self) -> bool {
        match self {
            Component::Hostname(h) => h.wf(),
            Component::Uptime(u) => u.wf(),
            Component::Disk(d) => d.wf(),
            Component::Load(l) => l.wf(),
            Component::Memory(m) => m.wf(),
            Component::UpdateIndicator(u) => u.wf(),
        }
    }

    /// Pure cadence predicate: whether this component wants an update after
    /// `elapsed` seconds without one.
    pub fn should_update(&self, elapsed: u64) -> (r: bool)
        ensures
            r == spec_should_update(*self, elapsed),
    {
        match self {
            Component::Hostname(h) => h.should_update(elapsed),
            Component::Uptime(u) => u.should_update(elapsed),
            Component::Disk(d) => d.should_update(elapsed),
            Component::Load(l) => l.should_update(elapsed),
            Component::Memory(m) => m.should_update(elapsed),
            Component::UpdateIndicator(u) => u.should_update(elapsed),
        }
    }

    /// Absorbs one collected measurement into the cached state.  A failed
    /// measurement leaves the previous cache intact and is reported, so
    /// rendering can fall back to stale content.
    pub fn update(&mut self, input: UpdateInput) -> (r: Result<(), Error>)
        requires
            old(self).wf(),
            spec_input_matches(*old(self), input),
        ensures
            final(self).wf(),
            spec_updated_rel(*old(self), input, *final(self)),
            match r {
                Ok(()) => spec_update_err(*old(self), input) is None,
                Err(e) => spec_update_err(*old(self), input) == Some(e@),
            },
    {
        match self {
            Component::Hostname(h) => match input {
                UpdateInput::Hostname(i) => h.update(i),
                _ => vstd::pervasive::unreached(),
            },
            Component::Uptime(u) => match input {
                UpdateInput::Uptime(i) => u.update(i),
                _ => vstd::pervasive::unreached(),
            },
            Component::Disk(d) => match input {
                UpdateInput::Disk(probe) => d.update(probe),
                _ => vstd::pervasive::unreached(),
            },
            Component::Load(l) => match input {
                UpdateInput::Load(li) => match li {
                    LoadInput::Started(ok) => l.start_measurement(ok),
                    LoadInput::Collected(i) => l.collect_measurement(i),
                },
                _ => vstd::pervasive::unreached(),
            },
            Component::Memory(m) => match input {
                UpdateInput::Memory(i) => m.update(i),
                _ => vstd::pervasive::unreached(),
            },
            Component::UpdateIndicator(u) => match input {
                UpdateInput::Nothing => u.update(),
                _ => vstd::pervasive::unreached(),
            },
        }
    }

    /// Draws the cached state into the slot at `(ox, oy)`; never touches the
    /// cache, and succeeds even on stale or placeholder content: a component
    /// that has never been updated renders its placeholder.
    pub fn render(&self, frame: &mut Frame, ox: usize, oy: usize, tick: u64) -> (r: Result<
        (),
        Error,
    >)
        requires
            old(frame).wf(),
            self.wf(),
            ox + 64 <= usize::MAX,
            oy + 128 <= usize::MAX,
        ensures
            final(frame).wf(),
            final(frame)@ == spec_render(*self, old(frame)@, ox as int, oy as int, tick),
            r is Ok,
    {
        match self {
            Component::Hostname(h) => h.render(frame, ox, oy),
            Component::Uptime(u) => u.render(frame, ox, oy),
            Component::Disk(d) => d.render(frame, ox, oy),
            Component::Load(l) => l.render(frame, ox, oy),
            Component::Memory(m) => m.render(frame, ox, oy),
            Component::UpdateIndicator(u) => u.render(frame, tick),
        }
    }

    /// The component's identifying label, for diagnostics.
    pub fn label(&self) -> (r: String)
        ensures
            r@ == spec_component_label(*self),
    {
        match self {
            Component::Hostname(h) => h.label(),
            Component::Uptime(u) => u.label(),
            Component::Disk(d) => d.label(),
            Component::Load(l) => l.label(),
            Component::Memory(m) => m.label(),
            Component::UpdateIndicator(u) => u.label(),
        }
    }
}

} // verus!
