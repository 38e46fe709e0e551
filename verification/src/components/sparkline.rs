//! The sparkline shared by the rolling-history panels: one pixel per stored
//! sample, newest at the rightmost column, with tick marks every tenth
//! column and border pixels at both ends to orient the eye.

use vstd::prelude::*;

use crate::frame::{spec_set_pixel, Frame};
use crate::history::History;
use crate::layout::{LINE_HEIGHT, WIDTH};

verus! {

/// The row of a sample within the slot: a full fraction sits at the top, an
/// empty one on the baseline, the fraction rounded to the nearest pixel.
pub open spec fn spec_spark_y(v: u16) -> int {
    11 - (11 * v + 500) / 1000
}

/// The pixels after plotting the first `n` stored samples, sample `i` at
/// column `59 - i` of the slot.
pub open spec fn spec_spark_points(
    pixels: Seq<bool>,
    graph: Seq<u16>,
    ox: int,
    oy: int,
    n: int,
) -> Seq<bool>
    decreases n,
{
    if n <= 0 {
        pixels
    } else {
        spec_set_pixel(
            spec_spark_points(pixels, graph, ox, oy, n - 1),
            ox + 59 - (n - 1),
            oy + spec_spark_y(graph[n - 1]),
        )
    }
}

/// The pixels after placing baseline tick marks on every tenth of the first
/// `n` columns.
pub open spec fn spec_spark_ticks(pixels: Seq<bool>, ox: int, oy: int, n: int) -> Seq<bool>
    decreases n,
{
    if n <= 0 {
        pixels
    } else {
        let p = spec_spark_ticks(pixels, ox, oy, n - 1);
        if (n - 1) % 10 == 0 {
            spec_set_pixel(p, ox + n - 1, oy + 11)
        } else {
            p
        }
    }
}

/// The full sparkline: all samples plotted, tick marks on the baseline, and
/// one border pixel at each top corner of the slot.
pub open spec fn spec_sparkline(pixels: Seq<bool>, graph: Seq<u16>, ox: int, oy: int) -> Seq<
    bool,
> {
    spec_set_pixel(
        spec_set_pixel(
            spec_spark_ticks(spec_spark_points(pixels, graph, ox, oy, graph.len() as int), ox, oy, 59),
            ox,
            oy,
        ),
        ox + 59,
        oy,
    )
}

/// Draws the sparkline for `graph` into the slot at `(ox, oy)`.
pub fn draw_sparkline(frame: &mut Frame, graph: &History, ox: usize, oy: usize)
    requires
        old(frame).wf(),
        graph.wf(),
        graph.spec_cap() <= 59,
        ox + 64 <= usize::MAX,
        oy + 128 <= usize::MAX,
    ensures
        final(frame).wf(),
        final(frame)@.pixels == spec_sparkline(old(frame)@.pixels, graph@, ox as int, oy as int),
        final(frame)@.texts == old(frame)@.texts,
{
    let n = graph.len();
    let mut i: usize = 0;
    while i < n
        invariant
            old(frame).wf(),
            frame.wf(),
            i <= n,
            n == graph@.len(),
            graph.wf(),
            graph.spec_cap() <= 59,
            ox + 64 <= usize::MAX,
            oy + 128 <= usize::MAX,
            frame@.pixels == spec_spark_points(
                old(frame)@.pixels,
                graph@,
                ox as int,
                oy as int,
                i as int,
            ),
            frame@.texts == old(frame)@.texts,
        decreases n - i,
    {
        let v = graph.get(i);
        let y = LINE_HEIGHT - (LINE_HEIGHT * (v as usize) + 500) / 1000;
        frame.set_pixel(ox + (WIDTH - i), oy + y);
        i = i + 1;
    }
    let ghost plotted = frame@.pixels;
    let mut j: usize = 0;
    while j < WIDTH
        invariant
            old(frame).wf(),
            frame.wf(),
            j <= 59,
            ox + 64 <= usize::MAX,
            oy + 128 <= usize::MAX,
            frame@.pixels == spec_spark_ticks(plotted, ox as int, oy as int, j as int),
            frame@.texts == old(frame)@.texts,
        decreases 59 - j,
    {
        if j % 10 == 0 {
            frame.set_pixel(ox + j, oy + LINE_HEIGHT);
        }
        j = j + 1;
    }
    frame.set_pixel(ox, oy);
    frame.set_pixel(ox + WIDTH, oy);
}

} // verus!
