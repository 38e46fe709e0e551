//! Status-display pipeline: scheduling, frame composition and rendering for a
//! small monochrome panel, with the operating-system and hardware edges kept
//! outside the library behind plain-value interfaces.
//!
//! The library owns the decision logic: what each component caches, when it
//! is due for a refresh, and exactly which pixels and text runs make up a
//! composed frame.  The process edge collects measurements, hands them in as
//! plain values, and pushes finished frames to the display transport.

use vstd::prelude::*;

pub mod brightness;
pub mod components;
pub mod digits;
pub mod errors;
pub mod frame;
pub mod history;
pub mod layout;
pub mod sched;
pub mod units;

pub use brightness::Brightness;
pub use brightness::parse_brightness;
pub use brightness::spec_lower_eq;
pub use brightness::spec_parse_brightness;
pub use components::Component;
pub use components::Disk;
pub use components::DiskProbe;
pub use components::FsStat;
pub use components::Hostname;
pub use components::Load;
pub use components::LoadInput;
pub use components::MemStat;
pub use components::Memory;
pub use components::UpdateIndicator;
pub use components::UpdateInput;
pub use components::Uptime;
pub use components::lemma_usage_bar_geometry;
pub use components::spec_render;
pub use components::spec_should_update;
pub use components::spec_update_err;
pub use components::spec_updated_rel;
pub use components::spec_uptime_label;
pub use errors::Error;
pub use errors::ErrorV;
pub use frame::Frame;
pub use frame::FrameV;
pub use frame::TextCmd;
pub use frame::TextV;
pub use frame::spec_blank_pixels;
pub use history::History;
pub use history::lemma_history_rolling;
pub use history::spec_insert;
pub use history::spec_insert_all;
pub use layout::BURNIN_OFFSET_MAX;
pub use layout::HEIGHT;
pub use layout::LINE_HEIGHT;
pub use layout::WIDTH;
pub use sched::Scheduler;
pub use sched::lemma_scheduler_independence;
pub use sched::spec_due;
pub use sched::spec_tick_rel;
pub use sched::spec_tick_stamp;
pub use units::Base;
pub use units::GlancableSizesWithOrdersOfMagnitude;
pub use units::lemma_magnitude_within_prefixes;
pub use units::lemma_rounded_at_most_base;
pub use units::lemma_rounded_below_base;

verus! {

/// The horizontal burn-in offset for a tick: it cycles with a 17-tick step
/// so static content sweeps slowly across a small neighborhood of pixels.
pub open spec fn spec_burn_x(tick: u64) -> int {
    ((tick / 17) % 5) as int
}

/// The vertical burn-in offset for a tick: it cycles with an 11-tick step,
/// deliberately out of phase with the horizontal one.
pub open spec fn spec_burn_y(tick: u64) -> int {
    ((tick / 11) % 5) as int
}

/// The burn-in offset applied to the whole frame at a tick.
pub fn burn_in_offset(tick: u64) -> (r: (usize, usize))
    ensures
        r.0 == spec_burn_x(tick),
        r.1 == spec_burn_y(tick),
{
    (((tick / 17) % 5) as usize, ((tick / 11) % 5) as usize)
}

/// The frame after composing the first `n` components at a tick: starting
/// from a cleared surface, each component in list order is rendered at the
/// burn-in offset plus its slot's line offset.  No render can fail: a
/// component that has never been updated renders its placeholder.
pub open spec fn spec_compose(cs: Seq<Component>, tick: u64, n: int) -> FrameV
    decreases n,
{
    if n <= 0 {
        FrameV { pixels: spec_blank_pixels(), texts: Seq::<TextV>::empty() }
    } else {
        spec_render(
            cs[n - 1],
            spec_compose(cs, tick, n - 1),
            spec_burn_x(tick),
            spec_burn_y(tick) + (n - 1) * 11,
            tick,
        )
    }
}

/// Frame-composition idempotence: the composed frame is a pure function of
/// the components' cached state and the tick, so recomposing from identical
/// state yields a byte-identical frame.
pub proof fn lemma_frame_composition_idempotent(
    cs: Seq<Component>,
    tick: u64,
    first: FrameV,
    second: FrameV,
)
    requires
        first == spec_compose(cs, tick, cs.len() as int),
        second == spec_compose(cs, tick, cs.len() as int),
    ensures
        first == second,
{
}

/// Owns the frame being composed: stacks all components at fixed vertical
/// line offsets, shifted by the slowly cycling burn-in offset, once per
/// tick.  The process edge takes the finished frame and pushes it to the
/// display transport as one atomic write.
pub struct Drawer {
    /// The frame the next flush will push.
    pub frame: Frame,
}

impl Drawer {
    /// A drawer is well formed when its frame is.
    pub open spec fn wf(&self) -> bool {
        self.frame.wf()
    }

    /// A drawer over a blank frame.
    pub fn new() -> (r: Drawer)
        ensures
            r.wf(),
            r.frame@.pixels == spec_blank_pixels(),
            r.frame@.texts == Seq::<TextV>::empty(),
    {
        Drawer { frame: Frame::new() }
    }

    /// Composes one frame: clears the surface, then renders every component
    /// in list order at `burn-in offset + (index * line height)`.  The
    /// result is exactly [`spec_compose`] of the component list and the
    /// tick; composition itself cannot fail, only the transport behind it
    /// can.
    pub fn draw(&mut self, tick: u64, components: &Vec<Component>) -> (r: Result<(), Error>)
        requires
            old(self).wf(),
            forall|i: int|
                0 <= i < components@.len() ==> (#[trigger] components@[i]).wf(),
            components@.len() * 11 + 132 <= usize::MAX,
        ensures
            final(self).wf(),
            final(self).frame@ == spec_compose(components@, tick, components@.len() as int),
            r is Ok,
    {
        self.frame.clear();
        let (ox, oy0) = burn_in_offset(tick);
        let n = components.len();
        let mut i: usize = 0;
        while i < n
            invariant
                self.wf(),
                i <= n,
                n == components@.len(),
                forall|k: int|
                    0 <= k < components@.len() ==> (#[trigger] components@[k]).wf(),
                components@.len() * 11 + 132 <= usize::MAX,
                ox == spec_burn_x(tick),
                oy0 == spec_burn_y(tick),
                ox <= 4,
                oy0 <= 4,
                self.frame@ == spec_compose(components@, tick, i as int),
            decreases n - i,
        {
            proof {
                assert(i * 11 <= components@.len() * 11) by (nonlinear_arith)
                    requires
                        0 <= i as int <= components@.len(),
                ;
            }
            let oy = oy0 + i * LINE_HEIGHT;
            let _ = components[i].render(&mut self.frame, ox, oy, tick);
            i = i + 1;
        }
        Ok(())
    }

    /// The frame composed by the last draw.
    pub fn frame(&self) -> (r: &Frame)
        ensures
            r == self.frame,
    {
        &self.frame
    }
}


} // verus!
