//! The disk panel: verifies that a candidate path is a genuine mount point
//! and renders a usage bar with a capacity label, or a placeholder while the
//! disk is away.

use vstd::arithmetic::div_mod::{
    lemma_fundamental_div_mod, lemma_mod_division_less_than_divisor, lemma_multiply_divide_le,
};
use vstd::prelude::*;

use crate::errors::{Error, ErrorV};
use crate::frame::{
    lemma_hline_effect, lemma_hline_len, lemma_vline_effect, lemma_vline_len, spec_hline,
    spec_pixel_index, spec_vline, Frame, FrameV, TextV,
};
use crate::layout::{center_x, spec_center_x, WIDTH};
use crate::units::{spec_base_value, spec_mag, spec_rounded, spec_unit, Base,
    GlancableSizesWithOrdersOfMagnitude};

verus! {

/// One filesystem observation for a path: capacity counters and the identity
/// token of the filesystem instance the path lives on.
///
/// The available count is the blocks available to a non-privileged user, not
/// the raw free count: the shown figure should reflect what a normal consumer
/// of the disk could actually write.
pub struct FsStat {
    /// Total data blocks on the filesystem.
    pub blocks: u64,
    /// Blocks available to a non-privileged user.
    pub blocks_available: u64,
    /// Size of one block in bytes.
    pub block_size: u64,
    /// Opaque identity token: equal for two paths iff they live on the same
    /// mounted filesystem instance.
    pub fs_id: u64,
}

impl FsStat {
    /// An observation is well formed when its byte counts fit in 64 bits and
    /// no more is available than exists.
    pub open spec fn wf(&self) -> bool {
        &&& self.blocks * self.block_size <= u64::MAX
        &&& self.blocks_available <= self.blocks
    }

    /// Packs a filesystem observation, refusing counter combinations whose
    /// byte totals cannot be represented.
    pub fn new(blocks: u64, blocks_available: u64, block_size: u64, fs_id: u64) -> (r: Option<
        FsStat,
    >)
        ensures
            r is Some <==> (blocks * block_size <= u64::MAX && blocks_available <= blocks),
            r matches Some(s) ==> s == (FsStat { blocks, blocks_available, block_size, fs_id }),
    {
        if blocks_available <= blocks && (block_size == 0 || blocks <= u64::MAX / block_size) {
            proof {
                if block_size != 0 {
                    let q = u64::MAX as int / block_size as int;
                    lemma_fundamental_div_mod(u64::MAX as int, block_size as int);
                    lemma_mod_division_less_than_divisor(u64::MAX as int, block_size as int);
                    assert((block_size as int) * q <= u64::MAX as int);
                    assert(blocks * block_size <= (block_size as int) * q) by (nonlinear_arith)
                        requires
                            0 <= blocks as int <= q,
                            block_size as int > 0,
                    ;
                }
            }
            Some(FsStat { blocks, blocks_available, block_size, fs_id })
        } else {
            proof {
                if blocks_available <= blocks && block_size != 0 {
                    let q = u64::MAX as int / block_size as int;
                    lemma_fundamental_div_mod(u64::MAX as int, block_size as int);
                    lemma_mod_division_less_than_divisor(u64::MAX as int, block_size as int);
                    assert((block_size as int) * (q + 1) == (block_size as int) * q
                        + block_size) by (nonlinear_arith);
                    assert((u64::MAX as int) < (block_size as int) * (q + 1));
                    assert((block_size as int) * (q + 1) <= blocks * block_size) by (nonlinear_arith)
                        requires
                            q + 1 <= blocks as int,
                            block_size as int > 0,
                    ;
                }
            }
            None
        }
    }
}

/// One probe of a disk's mount point: the filesystem observations of the
/// mount point's parent directory and of the mount point itself, or the
/// report that the path has no parent.
pub enum DiskProbe {
    /// The candidate path has no parent directory.
    NoParent,
    /// The two observations, parent directory first.
    Stats(Result<FsStat, Error>, Result<FsStat, Error>),
}

/// A probe is well formed when a delivered mount-point observation is.
pub open spec fn spec_probe_wf(probe: DiskProbe) -> bool {
    probe matches DiskProbe::Stats(_, Ok(ts)) ==> ts.wf()
}

/// Shows one disk: whether its mount point carries a real filesystem, and how
/// full that filesystem is.
#[derive(Debug)]
pub struct Disk {
    /// The disk's name: the last path component of its mount point.
    pub name: String,
    /// The candidate mount point, fixed at construction.
    pub mount_point: String,
    /// Whether the last probe found a genuine mount point.
    pub mounted: bool,
    /// Total capacity in bytes; stale unless `mounted`.
    pub size: u64,
    /// Bytes available to a non-privileged user; stale unless `mounted`.
    pub available: u64,
}

/// The index of the last `/` in `p`, or `-1` if there is none.
pub open spec fn spec_last_slash(p: Seq<char>) -> int
    decreases p.len(),
{
    if p.len() == 0 {
        -1
    } else if p.last() == '/' {
        p.len() - 1
    } else {
        spec_last_slash(p.drop_last())
    }
}

/// What follows the last `/` of `p`; all of `p` if it has no `/`.
pub open spec fn spec_file_name(p: Seq<char>) -> Seq<char> {
    p.subrange(spec_last_slash(p) + 1, p.len() as int)
}

/// Whether `p` ends in a usable name: a non-empty last component that is not
/// the `.` or `..` directory reference.
pub open spec fn spec_name_ok(p: Seq<char>) -> bool {
    &&& spec_file_name(p).len() > 0
    &&& spec_file_name(p) != seq!['.']
    &&& spec_file_name(p) != seq!['.', '.']
}

/// The last-slash index lies within the sequence.
proof fn lemma_last_slash_bounds(p: Seq<char>)
    ensures
        -1 <= spec_last_slash(p) < p.len(),
    decreases p.len(),
{
    if p.len() == 0 {
    } else if p.last() == '/' {
    } else {
        lemma_last_slash_bounds(p.drop_last());
    }
}

/// A mounted disk is re-probed every 300 seconds; an unmounted one every 5
/// seconds, so a disk plugged in is noticed quickly.
pub open spec fn spec_disk_should_update(d: Disk, elapsed: u64) -> bool {
    elapsed > (if d.mounted {
        300u64
    } else {
        5u64
    })
}

/// The cached state after applying a probe: with both observations delivered,
/// the path is a mount point iff the two filesystem identities differ, and a
/// mounted disk's capacity is derived from the mount point's counters; any
/// failure leaves the previous state, and an unmounted result keeps the stale
/// capacity figures.
pub open spec fn spec_disk_updated(d: Disk, probe: DiskProbe) -> Disk {
    match probe {
        DiskProbe::NoParent => d,
        DiskProbe::Stats(parent, target) => match (parent, target) {
            (Ok(ps), Ok(ts)) => {
                if ts.fs_id != ps.fs_id {
                    Disk {
                        mounted: true,
                        size: (ts.blocks * ts.block_size) as u64,
                        available: (ts.blocks_available * ts.block_size) as u64,
                        ..d
                    }
                } else {
                    Disk { mounted: false, ..d }
                }
            },
            _ => d,
        },
    }
}

/// The failure reported for a probe, if any: a missing parent is a
/// domain-specific error, a failed observation is passed through (parent
/// first, as it is queried first).
pub open spec fn spec_disk_update_err(probe: DiskProbe) -> Option<ErrorV> {
    match probe {
        DiskProbe::NoParent => Some(ErrorV::Message("Could not get parent of mountpoint"@)),
        DiskProbe::Stats(parent, target) => match (parent, target) {
            (Ok(_), Ok(_)) => None,
            (Err(e), _) => Some(e@),
            (Ok(_), Err(e)) => Some(e@),
        },
    }
}

/// The filled width of the usage bar: the used share of the drawable width,
/// rounded down; zero for a zero-sized filesystem.
pub open spec fn spec_bar_width(size: u64, available: u64) -> int {
    if size == 0 {
        0
    } else {
        (59 * (size - available)) / (size as int)
    }
}

/// The capacity label shown over the bar: the size reduced to a metric
/// magnitude.
pub open spec fn spec_size_label(size: u64) -> Seq<char> {
    crate::digits::spec_dec(spec_rounded(size as nat, spec_base_value(Base::Ten))).add(
        spec_unit(Base::Ten, spec_mag(size as nat, spec_base_value(Base::Ten))),
    )
}

/// The frame effect of rendering a mounted disk: the usage bar on row 5 of
/// the slot, border verticals on rows 2 ..= 8 at both edges of the drawable
/// area, and the centered capacity label.
pub open spec fn spec_disk_render_mounted(d: Disk, f: FrameV, ox: int, oy: int) -> FrameV {
    let with_bar = spec_hline(f.pixels, ox, ox + spec_bar_width(d.size, d.available), oy + 5);
    let with_left = spec_vline(with_bar, ox, oy + 2, oy + 8);
    let with_right = spec_vline(with_left, ox + 59, oy + 2, oy + 8);
    FrameV {
        pixels: with_right,
        texts: f.texts.push(
            TextV {
                x: ox + spec_center_x(spec_size_label(d.size).len()),
                y: oy,
                text: spec_size_label(d.size),
            },
        ),
    }
}

/// The frame effect of rendering an unmounted disk: the centered `-/-`
/// placeholder, never a fraction of nothing.
pub open spec fn spec_disk_render_unmounted(f: FrameV, ox: int, oy: int) -> FrameV {
    FrameV {
        pixels: f.pixels,
        texts: f.texts.push(
            TextV { x: ox + spec_center_x(3), y: oy, text: seq!['-', '/', '-'] },
        ),
    }
}

/// Usage-bar geometry, the mounted panel's rendered frame read pixel by
/// pixel: the filled bar spans exactly the filled width from the slot's left
/// edge on row 5, border verticals stand at both edges of the drawable area
/// on rows 2 ..= 8, every other pixel keeps its value, and the centered
/// capacity label is appended to the text runs.
pub proof fn lemma_usage_bar_geometry(d: Disk, f: FrameV, ox: int, oy: int, a: int, b: int)
    requires
        d.mounted,
        f.pixels.len() == 8192,
        0 <= a < 64,
        0 <= b < 128,
    ensures
        spec_disk_render(d, f, ox, oy).pixels[spec_pixel_index(a, b)] == ((b == oy + 5 && ox <= a
            <= ox + spec_bar_width(d.size, d.available)) || ((a == ox || a == ox + 59) && oy + 2
            <= b <= oy + 8) || f.pixels[spec_pixel_index(a, b)]),
        spec_disk_render(d, f, ox, oy).texts == f.texts.push(
            TextV {
                x: ox + spec_center_x(spec_size_label(d.size).len()),
                y: oy,
                text: spec_size_label(d.size),
            },
        ),
{
    let bw = spec_bar_width(d.size, d.available);
    lemma_hline_effect(f.pixels, ox, ox + bw, oy + 5, a, b);
    lemma_hline_len(f.pixels, ox, ox + bw, oy + 5);
    let p1 = spec_hline(f.pixels, ox, ox + bw, oy + 5);
    lemma_vline_effect(p1, ox, oy + 2, oy + 8, a, b);
    lemma_vline_len(p1, ox, oy + 2, oy + 8);
    let p2 = spec_vline(p1, ox, oy + 2, oy + 8);
    lemma_vline_effect(p2, ox + 59, oy + 2, oy + 8, a, b);
}

/// The frame effect of rendering a disk panel.
pub open spec fn spec_disk_render(d: Disk, f: FrameV, ox: int, oy: int) -> FrameV {
    if d.mounted {
        spec_disk_render_mounted(d, f, ox, oy)
    } else {
        spec_disk_render_unmounted(f, ox, oy)
    }
}

impl Disk {
    /// A disk panel is well formed when no more is available than its size
    /// while mounted.
    pub open spec fn wf(&self) -> bool {
        self.mounted ==> self.available <= self.size
    }

    /// A fresh, unmounted disk panel for a candidate mount point; the disk's
    /// name is the path's last component, and a path without one (empty, or
    /// a bare `.` or `..` reference) is refused.
    pub fn new_from_path(path: &str) -> (r: Result<Disk, Error>)
        ensures
            r is Ok <==> spec_name_ok(path@),
            r matches Ok(d) ==> {
                &&& d.name@ == spec_file_name(path@)
                &&& d.mount_point@ == path@
                &&& !d.mounted
                &&& d.size == 0
                &&& d.available == 0
                &&& d.wf()
            },
            r matches Err(e) ==> e@ == ErrorV::Message("Could not get name from mountpoint"@),
    {
        proof {
            lemma_last_slash_bounds(path@);
            assert(path@.take(path@.len() as int) =~= path@);
        }
        let n = path.unicode_len();
        let mut i = n;
        while i > 0 && path.get_char(i - 1) != '/'
            invariant
                i <= n,
                n == path@.len(),
                spec_last_slash(path@) == spec_last_slash(path@.take(i as int)),
            decreases i,
        {
            proof {
                assert(path@.take(i as int).last() == path@[i - 1]);
                assert(path@.take(i as int).drop_last() =~= path@.take(i - 1));
            }
            i = i - 1;
        }
        proof {
            if i == 0 {
                assert(path@.take(0) =~= Seq::<char>::empty());
                assert(spec_last_slash(path@) == -1);
            } else {
                assert(path@.take(i as int).last() == path@[i - 1]);
                assert(spec_last_slash(path@.take(i as int)) == i - 1);
            }
            assert(i as int == spec_last_slash(path@) + 1);
        }
        if i == n {
            return Err(Error::Message("Could not get name from mountpoint".to_owned()));
        }
        proof {
            assert(spec_file_name(path@) =~= path@.subrange(i as int, n as int));
        }
        if n - i == 1 && path.get_char(i) == '.' {
            proof {
                assert(spec_file_name(path@) =~= seq!['.']);
            }
            return Err(Error::Message("Could not get name from mountpoint".to_owned()));
        }
        if n - i == 2 && path.get_char(i) == '.' && path.get_char(i + 1) == '.' {
            proof {
                assert(spec_file_name(path@) =~= seq!['.', '.']);
            }
            return Err(Error::Message("Could not get name from mountpoint".to_owned()));
        }
        proof {
            if spec_file_name(path@).len() == 1 && spec_file_name(path@)[0] == '.' {
                assert(spec_file_name(path@) =~= seq!['.']);
            }
            if spec_file_name(path@).len() == 2 && spec_file_name(path@)[0] == '.'
                && spec_file_name(path@)[1] == '.' {
                assert(spec_file_name(path@) =~= seq!['.', '.']);
            }
        }
        let name = path.substring_char(i, n).to_owned();
        proof {
            assert(name@ =~= spec_file_name(path@));
        }
        Ok(
            Disk {
                name,
                mount_point: path.to_owned(),
                mounted: false,
                size: 0,
                available: 0,
            },
        )
    }

    /// Whether two filesystem identity tokens witness a genuine mount point:
    /// they do iff they differ, since equal tokens mean the candidate is an
    /// ordinary directory of its parent's filesystem.
    pub fn is_mounted(parent_fs_id: u64, mount_point_fs_id: u64) -> (r: bool)
        ensures
            r == (mount_point_fs_id != parent_fs_id),
    {
        mount_point_fs_id != parent_fs_id
    }

    /// Whether the disk should be re-probed after `elapsed` seconds: every
    /// 300 seconds while mounted, every 5 seconds while not.
    pub fn should_update(&self, elapsed: u64) -> (r: bool)
        ensures
            r == spec_disk_should_update(*self, elapsed),
    {
        elapsed > if self.mounted {
            300
        } else {
            5
        }
    }

    /// Applies one probe of the mount point: recomputes whether the path is a
    /// genuine mount point and, if so, the capacity figures; any failure
    /// leaves the previous state intact, stale figures being preferred over a
    /// blank panel.
    pub fn update(&mut self, probe: DiskProbe) -> (r: Result<(), Error>)
        requires
            old(self).wf(),
            spec_probe_wf(probe),
        ensures
            *final(self) == spec_disk_updated(*old(self), probe),
            final(self).wf(),
            match r {
                Ok(()) => spec_disk_update_err(probe) is None,
                Err(e) => spec_disk_update_err(probe) == Some(e@),
            },
    {
        match probe {
            DiskProbe::NoParent => Err(
                Error::Message("Could not get parent of mountpoint".to_owned()),
            ),
            DiskProbe::Stats(parent, target) => match (parent, target) {
                (Ok(ps), Ok(ts)) => {
                    self.mounted = Disk::is_mounted(ps.fs_id, ts.fs_id);
                    if self.mounted {
                        proof {
                            assert(ts.blocks_available * ts.block_size <= ts.blocks
                                * ts.block_size) by (nonlinear_arith)
                                requires
                                    ts.blocks_available <= ts.blocks,
                                    ts.block_size >= 0,
                            ;
                        }
                        self.size = ts.blocks * ts.block_size;
                        self.available = ts.blocks_available * ts.block_size;
                    }
                    Ok(())
                },
                (Err(e), _) => Err(e),
                (Ok(_), Err(e)) => Err(e),
            },
        }
    }

    /// Draws the usage bar and capacity label while mounted, the `-/-`
    /// placeholder while not.
    pub fn render(&self, frame: &mut Frame, ox: usize, oy: usize) -> (r: Result<(), Error>)
        requires
            old(frame).wf(),
            self.wf(),
            ox + 64 <= usize::MAX,
            oy + 128 <= usize::MAX,
        ensures
            final(frame).wf(),
            final(frame)@ == spec_disk_render(*self, old(frame)@, ox as int, oy as int),
            r is Ok,
    {
        if self.mounted {
            let bw = self.bar_width();
            frame.draw_hline(ox, ox + bw, oy + 5);
            frame.draw_vline(ox, oy + 2, oy + 8);
            frame.draw_vline(ox + WIDTH, oy + 2, oy + 8);
            let label = GlancableSizesWithOrdersOfMagnitude::new(self.size, Base::Ten).label();
            let cx = center_x(label.as_str().unicode_len());
            frame.push_text(ox + cx, oy, label);
        } else {
            let placeholder = "-/-";
            proof {
                reveal_strlit("-/-");
                assert(placeholder@ =~= seq!['-', '/', '-']);
            }
            let cx = center_x(placeholder.unicode_len());
            frame.push_text(ox + cx, oy, placeholder.to_owned());
        }
        Ok(())
    }

    /// The filled width of the usage bar in pixels: the used share of the
    /// drawable width, rounded down.
    pub fn bar_width(&self) -> (r: usize)
        requires
            self.wf(),
            self.mounted,
        ensures
            r == spec_bar_width(self.size, self.available),
            r <= 59,
    {
        if self.size == 0 {
            0
        } else {
            let used = self.size - self.available;
            let wide: u128 = 59u128 * (used as u128);
            let r = (wide / (self.size as u128)) as usize;
            proof {
                assert(59 * (used as int) <= (self.size as int) * 59) by (nonlinear_arith)
                    requires
                        0 <= used as int <= self.size as int,
                ;
                lemma_multiply_divide_le(59 * (used as int), self.size as int, 59);
            }
            r
        }
    }

    /// The panel's identifying label: the disk's name.
    pub fn label(&self) -> (r: String)
        ensures
            r@ == self.name@,
    {
        self.name.clone()
    }
}

} // verus!
