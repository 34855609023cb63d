//! Plot points, wave frames and the point buffer: the ordered sequence of
//! (x, y) samples the renderer draws, replaced wholesale on each tick, and
//! the single scan that derives the displayed x range from a frame.

use vstd::prelude::*;
use crate::fixed::FP_ONE;

verus! {

/// One plotted sample: a fixed-point plane coordinate pair, `x` a time or
/// index coordinate, `y` an amplitude.
#[derive(Clone, Copy, PartialEq, Eq, Structural, Debug)]
pub struct PlotPoint {
    pub x: i64,
    pub y: i64,
}

/// True when the frame is ordered by strictly ascending x, the invariant a
/// wave frame keeps.
pub open spec fn frame_x_strictly_increasing(frame: Seq<PlotPoint>) -> bool {
    forall|i: int, j: int| 0 <= i < j < frame.len() ==> frame[i].x < frame[j].x
}

/// Holds the frame currently on display. `replace` swaps it wholesale, so a
/// reader sees either the old or the new frame in full, never a mix.
pub struct PointBuffer {
    frame: Vec<PlotPoint>,
}

impl PointBuffer {
    /// The empty pre-first-tick buffer.
    pub fn new() -> (r: PointBuffer)
        ensures
            r.frame_seq() =~= Seq::<PlotPoint>::empty(),
    {
        PointBuffer { frame: Vec::new() }
    }

    /// The frame on display.
    pub closed spec fn frame_seq(self) -> Seq<PlotPoint> {
        self.frame@
    }

    /// Swaps in a freshly produced frame, discarding the old one.
    pub fn replace(&mut self, frame: Vec<PlotPoint>)
        ensures
            final(self).frame_seq() =~= frame@,
    {
        self.frame = frame;
    }

    /// The current frame, for the renderer and for range computation.
    pub fn current(&self) -> (r: &Vec<PlotPoint>)
        ensures
            r@ =~= self.frame_seq(),
    {
        &self.frame
    }
}

/// The smallest and largest x coordinate of a frame: every point lies within
/// the returned pair, and both bounds are attained. The empty frame falls
/// back to the degenerate range `(FP_ONE, FP_ONE)` — an edge case by design,
/// not an error — so an empty frame alone never sends a zero span onward.
pub fn get_min_max_x_values(points: &Vec<PlotPoint>) -> (r: (i64, i64))
    ensures
        points@.len() == 0 ==> r == (FP_ONE, FP_ONE),
        points@.len() > 0 ==> {
            &&& forall|i: int| 0 <= i < points@.len() ==> r.0 <= #[trigger] points@[i].x <= r.1
            &&& exists|i: int| 0 <= i < points@.len() && points@[i].x == r.0
            &&& exists|i: int| 0 <= i < points@.len() && points@[i].x == r.1
        },
        r.0 <= r.1,
{
    if points.len() == 0 {
        return (FP_ONE, FP_ONE);
    }
    let mut min_x = points[0].x;
    let mut max_x = points[0].x;
    let mut k: usize = 1;
    while k < points.len()
        invariant
            1 <= k <= points@.len(),
            forall|i: int| 0 <= i < k ==> min_x <= #[trigger] points@[i].x <= max_x,
            exists|i: int| 0 <= i < k && points@[i].x == min_x,
            exists|i: int| 0 <= i < k && points@[i].x == max_x,
        decreases points@.len() - k,
    {
        if points[k].x < min_x {
            min_x = points[k].x;
        }
        if points[k].x > max_x {
            max_x = points[k].x;
        }
        k = k + 1;
    }
    (min_x, max_x)
}

} // verus!
