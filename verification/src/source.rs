//! The wave source: produces the plot frame for each render tick, either by
//! synthesizing a sine wave from per-call random factors or by draining the
//! bounded ring of most recently captured samples. Both strategies produce
//! frames of the same shape, so the rest of the pipeline is agnostic to the
//! source.

use vstd::prelude::*;
use vstd::pervasive::VecAdditionalExecFns;
use crate::fixed::FP_ONE;
use crate::fixed::FP_PI;
use crate::fixed::spec_sin_fp;
use crate::fixed::sin_fp;
use crate::frame::PlotPoint;
use crate::frame::frame_x_strictly_increasing;
use vstd::arithmetic::div_mod::lemma_div_pos_is_pos;
use vstd::arithmetic::div_mod::lemma_div_is_ordered;
use vstd::arithmetic::div_mod::lemma_div_plus_one;

verus! {

/// Number of points in every produced frame, bounding render cost.
pub const FRAME_LEN: usize = 100;

/// Largest x coordinate a synthetic frame can hold:
/// `(FP_ONE - 1) * FRAME_LEN / 10`.
pub const SYNTH_X_MAX: i64 = 99990;

/// Smallest scale factor the synthetic source draws: one fixed-point
/// thousandth. From this scale up, consecutive time steps survive the floor
/// division, so the x values of a frame are strictly increasing.
pub const SCALE_MIN: i64 = 10;

/// The x coordinate of the synthetic point with one-based index `i`:
/// the time value `scale * i / 10` in fixed point.
pub open spec fn synthetic_x(scale: int, i: int) -> int {
    scale * i / 10
}

/// The angle fed to the sine for the synthetic point with one-based index
/// `i`: the time value times pi times the random phase factor, carried out
/// in fixed point.
pub open spec fn synthetic_angle(scale: int, phase: int, i: int) -> int {
    synthetic_x(scale, i) * FP_PI / (FP_ONE as int) * phase / (FP_ONE as int)
}

/// The synthetic point with one-based index `i`.
pub open spec fn synthetic_point(scale: int, phase: int, i: int) -> PlotPoint {
    PlotPoint {
        x: synthetic_x(scale, i) as i64,
        y: spec_sin_fp(synthetic_angle(scale, phase, i)) as i64,
    }
}

/// The full synthetic frame for one tick, given the two per-call random
/// factors.
pub open spec fn spec_synthetic_frame(scale: int, phase: int) -> Seq<PlotPoint> {
    Seq::new(FRAME_LEN as nat, |i: int| synthetic_point(scale, phase, i + 1))
}

/// The synthetic x coordinates stay within `[0, SYNTH_X_MAX]`.
proof fn lemma_synthetic_x_range(scale: int, i: int)
    requires
        0 <= scale < FP_ONE,
        1 <= i <= FRAME_LEN,
    ensures
        0 <= synthetic_x(scale, i) <= SYNTH_X_MAX,
{
    assert(0 <= scale * i <= (FP_ONE - 1) * FRAME_LEN) by (nonlinear_arith)
        requires
            0 <= scale <= FP_ONE - 1,
            1 <= i <= FRAME_LEN,
    ;
    lemma_div_pos_is_pos(scale * i, 10);
    lemma_div_is_ordered(scale * i, (FP_ONE - 1) * (FRAME_LEN as int), 10);
}

/// For a scale of at least `SCALE_MIN`, consecutive synthetic x coordinates
/// grow by at least one unit, so the frame's x values are strictly
/// increasing.
pub proof fn lemma_synthetic_x_strictly_increasing(scale: int, i: int, j: int)
    requires
        SCALE_MIN <= scale,
        1 <= i < j,
    ensures
        synthetic_x(scale, i) < synthetic_x(scale, j),
{
    assert(scale * i + 10 <= scale * j) by (nonlinear_arith)
        requires
            10 <= scale,
            i + 1 <= j,
    ;
    lemma_div_plus_one(scale * i, 10);
    lemma_div_is_ordered(scale * i + 10, scale * j, 10);
}

/// A synthetic frame produced with a scale of at least `SCALE_MIN` is
/// ordered by strictly ascending x.
pub proof fn lemma_synthetic_frame_strictly_increasing(scale: int, phase: int)
    requires
        SCALE_MIN <= scale < FP_ONE,
    ensures
        frame_x_strictly_increasing(spec_synthetic_frame(scale, phase)),
{
    let frame = spec_synthetic_frame(scale, phase);
    assert forall|i: int, j: int| 0 <= i < j < frame.len() implies frame[i].x < frame[j].x by {
        lemma_synthetic_x_range(scale, i + 1);
        lemma_synthetic_x_range(scale, j + 1);
        lemma_synthetic_x_strictly_increasing(scale, i + 1, j + 1);
    }
}

/// Builds the synthetic frame for one tick from the two random factors:
/// exactly `FRAME_LEN` points `(t, sin(t * pi * phase))` with
/// `t = scale * i / 10` for one-based `i`, ordered by strictly ascending x.
pub fn synthetic_frame(scale: i64, phase: i64) -> (r: Vec<PlotPoint>)
    requires
        SCALE_MIN <= scale < FP_ONE,
        0 <= phase < FP_ONE,
    ensures
        r@ =~= spec_synthetic_frame(scale as int, phase as int),
        r@.len() == FRAME_LEN,
        frame_x_strictly_increasing(r@),
{
    let mut result: Vec<PlotPoint> = Vec::new();
    let mut i: i64 = 1;
    while i <= 100
        invariant
            1 <= i <= 101,
            SCALE_MIN <= scale < FP_ONE,
            0 <= phase < FP_ONE,
            result@.len() == i - 1,
            forall|k: int| 0 <= k < result@.len()
                ==> result@[k] == synthetic_point(scale as int, phase as int, k + 1),
        decreases 101 - i,
    {
        proof {
            lemma_synthetic_x_range(scale as int, i as int);
        }
        let t = scale * i / 10;
        let half_angle = t * FP_PI / FP_ONE;
        proof {
            lemma_div_pos_is_pos(t * FP_PI, FP_ONE as int);
            lemma_div_is_ordered(t * FP_PI, SYNTH_X_MAX * FP_PI, FP_ONE as int);
            assert(0 <= half_angle * phase <= 314148 * (FP_ONE - 1)) by (nonlinear_arith)
                requires
                    0 <= half_angle <= 314148,
                    0 <= phase <= FP_ONE - 1,
            ;
            lemma_div_pos_is_pos(half_angle * phase, FP_ONE as int);
            lemma_div_is_ordered(half_angle * phase, 314148 * (FP_ONE as int - 1), FP_ONE as int);
        }
        let angle = half_angle * phase / FP_ONE;
        let y = sin_fp(angle);
        result.push(PlotPoint { x: t, y });
        i = i + 1;
    }
    proof {
        lemma_synthetic_frame_strictly_increasing(scale as int, phase as int);
        assert(result@ =~= spec_synthetic_frame(scale as int, phase as int));
    }
    result
}

/// Distance between the x coordinates of two consecutive captured points:
/// one tenth of a fixed-point unit, matching the synthetic spacing at full
/// scale.
pub const CAPTURE_X_STEP: i64 = 1000;

/// A bounded ring of the most recently captured samples, written by the
/// audio callback and drained by the wave source on each tick. When full,
/// the newest sample overwrites the oldest in place, so a push is constant
/// work — the audio callback never does more.
pub struct SampleBuffer {
    data: Vec<i64>,
    head: usize,
    cap: usize,
}

impl SampleBuffer {
    /// The samples currently held, oldest first: the physical storage
    /// rotated so that the oldest sample, at `head` once the ring has
    /// filled, comes first.
    pub closed spec fn samples(self) -> Seq<i64> {
        if self.data@.len() < self.cap {
            self.data@
        } else {
            self.data@.subrange(self.head as int, self.data@.len() as int).add(
                self.data@.subrange(0, self.head as int),
            )
        }
    }

    /// The fixed bound on how many samples are held at once.
    pub closed spec fn capacity(self) -> int {
        self.cap as int
    }

    /// The ring's internal shape: the storage never outgrows the capacity,
    /// and the rotation point is zero until the ring has filled, within the
    /// storage afterwards.
    pub closed spec fn ring_inv(self) -> bool {
        &&& self.data@.len() <= self.cap
        &&& if self.data@.len() < self.cap {
            self.head == 0
        } else {
            self.head < self.cap
        }
    }

    /// Well-formed: never holds more than its capacity, and every sample is
    /// an amplitude within one fixed-point unit.
    pub open spec fn wf(self) -> bool {
        &&& self.ring_inv()
        &&& 1 <= self.capacity()
        &&& self.samples().len() <= self.capacity()
        &&& forall|i: int|
            0 <= i < self.samples().len() ==> -FP_ONE <= #[trigger] self.samples()[i] <= FP_ONE
    }

    /// An empty ring with the given capacity.
    pub fn new(cap: usize) -> (r: SampleBuffer)
        requires
            1 <= cap,
        ensures
            r.wf(),
            r.samples() =~= Seq::<i64>::empty(),
            r.capacity() == cap,
    {
        SampleBuffer { data: Vec::new(), head: 0, cap }
    }

    /// Accepts one captured sample; when the ring is full, the oldest sample
    /// is overwritten to make room. Constant work per call, as the audio
    /// callback demands.
    pub fn push_sample(&mut self, s: i64)
        requires
            old(self).wf(),
            -FP_ONE <= s <= FP_ONE,
        ensures
            final(self).wf(),
            final(self).capacity() == old(self).capacity(),
            old(self).samples().len() < old(self).capacity() ==> final(self).samples()
                =~= old(self).samples().push(s),
            old(self).samples().len() == old(self).capacity() ==> final(self).samples()
                =~= old(self).samples().subrange(1, old(self).samples().len() as int).push(s),
    {
        if self.data.len() < self.cap {
            self.data.push(s);
            proof {
                if self.data@.len() == self.cap {
                    assert(self.samples() =~= old(self).samples().push(s));
                }
            }
        } else {
            self.data.set(self.head, s);
            let ghost mid = self.data@;
            self.head = if self.head + 1 == self.cap {
                0
            } else {
                self.head + 1
            };
            proof {
                let prev = old(self).data@;
                let h = old(self).head as int;
                let cap = self.cap as int;
                assert(mid == prev.update(h, s));
                assert forall|i: int|
                    0 <= i < cap implies self.samples()[i] == old(self).samples().subrange(
                    1,
                    cap,
                ).push(s)[i] by {
                    if i < cap - 1 {
                        assert(old(self).samples().subrange(1, cap)[i] == old(self).samples()[i
                            + 1]);
                        assert(old(self).samples()[i + 1] == if i + 1 < cap - h {
                            prev[h + i + 1]
                        } else {
                            prev[h + i + 1 - cap]
                        });
                    }
                }
                assert(self.samples() =~= old(self).samples().subrange(1, cap).push(s));
            }
        }
    }

    /// The sample with the given logical index, oldest first.
    fn get_sample(&self, i: usize) -> (r: i64)
        requires
            self.wf(),
            i < self.samples().len(),
        ensures
            r == self.samples()[i as int],
    {
        if self.data.len() < self.cap {
            self.data[i]
        } else if i < self.cap - self.head {
            self.data[self.head + i]
        } else {
            self.data[i - (self.cap - self.head)]
        }
    }

    /// Drains the ring into one frame: the window of at most `FRAME_LEN`
    /// most recent samples becomes the frame, sample index mapped to x and
    /// sample value to y, and the ring is left empty.
    pub fn take_frame(&mut self) -> (r: Vec<PlotPoint>)
        requires
            old(self).wf(),
        ensures
            final(self).wf(),
            final(self).capacity() == old(self).capacity(),
            final(self).samples() =~= Seq::<i64>::empty(),
            r@ =~= spec_captured_frame(old(self).samples()),
    {
        let len = self.data.len();
        let n = if len <= FRAME_LEN {
            len
        } else {
            FRAME_LEN
        };
        let start = len - n;
        let mut result: Vec<PlotPoint> = Vec::new();
        let mut k: usize = 0;
        while k < n
            invariant
                0 <= k <= n,
                n <= FRAME_LEN,
                start + n == len,
                len == self.samples().len(),
                self.wf(),
                result@.len() == k,
                forall|i: int| 0 <= i < k ==> #[trigger] result@[i] == (PlotPoint {
                    x: (CAPTURE_X_STEP * (i + 1)) as i64,
                    y: self.samples()[start + i],
                }),
            decreases n - k,
        {
            let x = CAPTURE_X_STEP * (k as i64 + 1);
            let y = self.get_sample(start + k);
            result.push(PlotPoint { x, y });
            k = k + 1;
        }
        self.data.clear();
        self.head = 0;
        result
    }
}

/// A captured frame is ordered by strictly ascending x, like a synthetic
/// one: the captured x coordinates grow by a fixed step.
pub proof fn lemma_captured_frame_strictly_increasing(samples: Seq<i64>)
    ensures
        frame_x_strictly_increasing(spec_captured_frame(samples)),
{
    let frame = spec_captured_frame(samples);
    assert forall|i: int, j: int| 0 <= i < j < frame.len() implies frame[i].x < frame[j].x by {
        assert(frame[i].x == CAPTURE_X_STEP * (i + 1));
        assert(frame[j].x == CAPTURE_X_STEP * (j + 1));
    }
}

/// The frame the captured strategy derives from the ring contents: the at
/// most `FRAME_LEN` most recent samples, in capture order, each mapped to
/// `(CAPTURE_X_STEP * (index + 1), sample)`.
pub open spec fn spec_captured_frame(samples: Seq<i64>) -> Seq<PlotPoint> {
    let n = if samples.len() <= FRAME_LEN { samples.len() as int } else { FRAME_LEN as int };
    Seq::new(
        n as nat,
        |i: int| PlotPoint {
            x: (CAPTURE_X_STEP * (i + 1)) as i64,
            y: samples[samples.len() - n + i],
        },
    )
}

/// Relies on rand::Rng::gen_range (rand 0.8): returns a value drawn from
/// the half-open range handed to it; it panics only on an empty range,
/// which the precondition rules out.
#[verifier::external_body]
fn random_in_range(low: i64, high: i64) -> (r: i64)
    requires
        low < high,
    ensures
        low <= r < high,
{
    rand::Rng::gen_range(&mut rand::thread_rng(), low..high)
}

/// Synthesizes one tick's frame from freshly drawn random phase and scale
/// factors, as the synthetic strategy does each tick: always exactly
/// `FRAME_LEN` points of the synthetic shape, ordered by strictly ascending
/// x. The scale is drawn from `[SCALE_MIN, FP_ONE)`: below `SCALE_MIN` the
/// fixed-point time step collapses and x values would repeat.
pub fn generate_random_wave() -> (r: Vec<PlotPoint>)
    ensures
        r@.len() == FRAME_LEN,
        frame_x_strictly_increasing(r@),
        exists|scale: int, phase: int|
            SCALE_MIN <= scale < FP_ONE && 0 <= phase < FP_ONE
                && r@ =~= spec_synthetic_frame(scale, phase),
{
    let random_factor = random_in_range(0, FP_ONE);
    let scale_factor = random_in_range(SCALE_MIN, FP_ONE);
    let r = synthetic_frame(scale_factor, random_factor);
    proof {
        assert(SCALE_MIN <= scale_factor < FP_ONE && 0 <= random_factor < FP_ONE
            && r@ =~= spec_synthetic_frame(scale_factor as int, random_factor as int));
    }
    r
}

/// One of the two interchangeable frame-producing strategies, selected at
/// construction time: synthesize a wave from random factors, or drain the
/// ring of captured samples.
pub enum WaveSource {
    Synthetic,
    Captured(SampleBuffer),
}

impl WaveSource {
    /// Well-formed: a captured source holds a well-formed ring.
    pub open spec fn wf(self) -> bool {
        match self {
            WaveSource::Synthetic => true,
            WaveSource::Captured(buf) => buf.wf(),
        }
    }

    /// Produces the frame for one render tick. The synthetic strategy
    /// returns a fresh full-length random wave; the captured strategy drains
    /// the ring into a frame, empty when no sample has arrived yet.
    pub fn next_frame(&mut self) -> (r: Vec<PlotPoint>)
        requires
            old(self).wf(),
        ensures
            final(self).wf(),
            *old(self) is Synthetic ==> {
                &&& *final(self) is Synthetic
                &&& r@.len() == FRAME_LEN
                &&& frame_x_strictly_increasing(r@)
                &&& exists|scale: int, phase: int|
                    SCALE_MIN <= scale < FP_ONE && 0 <= phase < FP_ONE
                        && r@ =~= spec_synthetic_frame(scale, phase)
            },
            *old(self) is Captured ==> {
                &&& *final(self) is Captured
                &&& (*final(self))->Captured_0.capacity() == (*old(self))->Captured_0.capacity()
                &&& (*final(self))->Captured_0.samples() =~= Seq::<i64>::empty()
                &&& r@ =~= spec_captured_frame((*old(self))->Captured_0.samples())
            },
    {
        match self {
            WaveSource::Synthetic => generate_random_wave(),
            WaveSource::Captured(buf) => buf.take_frame(),
        }
    }
}

} // verus!
