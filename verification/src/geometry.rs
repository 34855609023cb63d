//! The screen-space geometry for one rendered update, computed from the
//! current frame and the canvas size: the two axes through the canvas
//! centre, ten axis markers with their plane-value labels, and the wave
//! polyline. The renderer draws these; nothing here touches a pixel.

use vstd::prelude::*;
use crate::coords::COORD_MAX;
use crate::coords::EXTENT_MAX;
use crate::coords::plane_to_screen_spec;
use crate::coords::screen_to_plane_spec;
use crate::coords::plane_coords_to_screen_coords;
use crate::coords::screen_coords_to_plane_coords;
use crate::fixed::FP_ONE;
use crate::frame::PlotPoint;
use crate::frame::get_min_max_x_values;

verus! {

/// Number of axis markers drawn along the x axis.
pub const MARKER_COUNT: usize = 10;

/// Pixel extent of a full amplitude unit: a y of `FP_ONE` is drawn this many
/// pixels above the centre line.
pub const AMPLITUDE_PX: i64 = 50;

/// Half-height of an axis marker stroke, in pixels.
pub const MARKER_HALF_PX: i64 = 20;

/// Distance of a marker label above the centre line, in pixels.
pub const LABEL_OFFSET_PX: i64 = 30;

/// Largest magnitude of a frame x coordinate the geometry accepts, leaving
/// room under `COORD_MAX` for the epsilon span of a degenerate range.
pub const GEOMETRY_X_MAX: i64 = 100_000_000;

/// A point in screen space, in pixels.
#[derive(Clone, Copy, PartialEq, Eq, Structural, Debug)]
pub struct ScreenPoint {
    pub x: i64,
    pub y: i64,
}

/// A straight stroke in screen space.
#[derive(Clone, Copy, PartialEq, Eq, Structural, Debug)]
pub struct Stroke {
    pub from: ScreenPoint,
    pub to: ScreenPoint,
}

/// One axis marker: its stroke across the centre line, the plane value it
/// labels, and where the label text goes.
#[derive(Clone, Copy, PartialEq, Eq, Structural, Debug)]
pub struct AxisMarker {
    pub stroke: Stroke,
    pub label_value: i64,
    pub label_pos: ScreenPoint,
}

/// Everything the renderer draws for one update, along with the displayed
/// x range the labels and the polyline were mapped with.
pub struct WaveGeometry {
    pub h_axis: Stroke,
    pub v_axis: Stroke,
    pub markers: Vec<AxisMarker>,
    pub wave: Vec<ScreenPoint>,
    pub min_x: i64,
    pub max_x: i64,
}

/// Pixel offset of an amplitude from the centre line, magnitude scaled down
/// from fixed point and the sign kept.
pub open spec fn spec_amplitude_px(y: int) -> int {
    if y >= 0 {
        y * AMPLITUDE_PX / (FP_ONE as int)
    } else {
        -((-y) * AMPLITUDE_PX / (FP_ONE as int))
    }
}

/// The expected marker with index `k`: an even tenth of the width, a stroke
/// across the centre line, and the plane value its screen position maps
/// back to as the label.
pub open spec fn spec_marker(k: int, width: int, height: int, min_x: int, max_x: int) -> AxisMarker {
    AxisMarker {
        stroke: Stroke {
            from: ScreenPoint {
                x: (k * width / 10) as i64,
                y: (height / 2 - MARKER_HALF_PX) as i64,
            },
            to: ScreenPoint {
                x: (k * width / 10) as i64,
                y: (height / 2 + MARKER_HALF_PX) as i64,
            },
        },
        label_value: screen_to_plane_spec(k * width / 10, width, min_x, max_x) as i64,
        label_pos: ScreenPoint {
            x: (k * width / 10) as i64,
            y: (height / 2 - LABEL_OFFSET_PX) as i64,
        },
    }
}

/// The expected screen point for one plot point: x mapped through the
/// coordinate mapper, the amplitude drawn as an offset from the centre line.
pub open spec fn spec_wave_point(
    p: PlotPoint,
    width: int,
    height: int,
    min_x: int,
    max_x: int,
) -> ScreenPoint {
    ScreenPoint {
        x: plane_to_screen_spec(p.x as int, width, min_x, max_x) as i64,
        y: (height / 2 - spec_amplitude_px(p.y as int)) as i64,
    }
}

/// Executable counterpart of `spec_amplitude_px`, keeping every division
/// nonnegative.
fn amplitude_px(y: i64) -> (r: i64)
    requires
        -FP_ONE <= y <= FP_ONE,
    ensures
        r == spec_amplitude_px(y as int),
        -AMPLITUDE_PX <= r <= AMPLITUDE_PX,
{
    if y >= 0 {
        y * AMPLITUDE_PX / FP_ONE
    } else {
        -((-y) * AMPLITUDE_PX / FP_ONE)
    }
}

/// Computes the geometry of one rendered update from the frame and the
/// canvas size. The displayed x range comes from the frame's own x values;
/// an empty frame falls back to the degenerate unit range, and a constant-x
/// frame widens the range by one unit, so the coordinate mapper is never
/// reached with a zero span.
pub fn wave_geometry(points: &Vec<PlotPoint>, width: i64, height: i64) -> (r: WaveGeometry)
    requires
        0 < width <= EXTENT_MAX,
        0 < height <= EXTENT_MAX,
        forall|i: int| 0 <= i < points@.len()
            ==> -GEOMETRY_X_MAX <= (#[trigger] points@[i]).x <= GEOMETRY_X_MAX,
        forall|i: int| 0 <= i < points@.len()
            ==> -FP_ONE <= (#[trigger] points@[i]).y <= FP_ONE,
    ensures
        // The displayed range: lower bound attained unless the frame is
        // empty, upper bound attained unless it had to be widened.
        r.min_x < r.max_x,
        points@.len() == 0 ==> r.min_x == FP_ONE && r.max_x == 2 * FP_ONE,
        points@.len() > 0 ==> {
            &&& forall|i: int| 0 <= i < points@.len()
                ==> r.min_x <= (#[trigger] points@[i]).x <= r.max_x
            &&& exists|i: int| 0 <= i < points@.len() && points@[i].x == r.min_x
            &&& (r.max_x == r.min_x + FP_ONE || exists|i: int|
                0 <= i < points@.len() && points@[i].x == r.max_x)
        },
        // The axes cross the canvas centre.
        r.h_axis.from.x == 0 && r.h_axis.from.y == height / 2,
        r.h_axis.to.x == width && r.h_axis.to.y == height / 2,
        r.v_axis.from.x == width / 2 && r.v_axis.from.y == 0,
        r.v_axis.to.x == width / 2 && r.v_axis.to.y == height,
        // Ten markers, evenly spaced, each labelled with the plane value its
        // screen position maps back to.
        r.markers@.len() == MARKER_COUNT,
        forall|k: int| 0 <= k < MARKER_COUNT ==> #[trigger] r.markers@[k] == spec_marker(
            k,
            width as int,
            height as int,
            r.min_x as int,
            r.max_x as int,
        ),
        // The wave polyline: each plot point mapped into screen space.
        r.wave@.len() == points@.len(),
        forall|i: int| 0 <= i < points@.len() ==> #[trigger] r.wave@[i] == spec_wave_point(
            points@[i],
            width as int,
            height as int,
            r.min_x as int,
            r.max_x as int,
        ),
{
    let center_x = width / 2;
    let center_y = height / 2;
    let h_axis = Stroke {
        from: ScreenPoint { x: 0, y: center_y },
        to: ScreenPoint { x: width, y: center_y },
    };
    let v_axis = Stroke {
        from: ScreenPoint { x: center_x, y: 0 },
        to: ScreenPoint { x: center_x, y: height },
    };

    let (low, high) = get_min_max_x_values(points);
    let min_x = low;
    let max_x = if high == low {
        low + FP_ONE
    } else {
        high
    };

    let mut markers: Vec<AxisMarker> = Vec::new();
    let mut k: i64 = 0;
    while k < 10
        invariant
            0 <= k <= 10,
            0 < width <= EXTENT_MAX,
            0 < height <= EXTENT_MAX,
            min_x < max_x,
            -COORD_MAX <= min_x,
            max_x <= COORD_MAX,
            center_y == height / 2,
            markers@.len() == k,
            forall|j: int| 0 <= j < k ==> #[trigger] markers@[j] == spec_marker(
                j,
                width as int,
                height as int,
                min_x as int,
                max_x as int,
            ),
        decreases 10 - k,
    {
        proof {
            assert(0 <= k * width <= 10_000_000int) by (nonlinear_arith)
                requires
                    0 <= k <= 10,
                    0 < width <= 1_000_000,
            ;
            vstd::arithmetic::div_mod::lemma_div_pos_is_pos(k * width, 10);
            vstd::arithmetic::div_mod::lemma_div_is_ordered(k * width, 10_000_000int, 10);
        }
        let screen_coord = k * width / 10;
        let label_value = screen_coords_to_plane_coords(screen_coord, width, min_x, max_x);
        markers.push(AxisMarker {
            stroke: Stroke {
                from: ScreenPoint { x: screen_coord, y: center_y - MARKER_HALF_PX },
                to: ScreenPoint { x: screen_coord, y: center_y + MARKER_HALF_PX },
            },
            label_value,
            label_pos: ScreenPoint { x: screen_coord, y: center_y - LABEL_OFFSET_PX },
        });
        k = k + 1;
    }

    let mut wave: Vec<ScreenPoint> = Vec::new();
    let mut i: usize = 0;
    while i < points.len()
        invariant
            0 <= i <= points@.len(),
            0 < width <= EXTENT_MAX,
            0 < height <= EXTENT_MAX,
            min_x < max_x,
            -COORD_MAX <= min_x,
            max_x <= COORD_MAX,
            center_y == height / 2,
            forall|j: int| 0 <= j < points@.len()
                ==> min_x <= (#[trigger] points@[j]).x <= COORD_MAX,
            forall|j: int| 0 <= j < points@.len()
                ==> -FP_ONE <= (#[trigger] points@[j]).y <= FP_ONE,
            wave@.len() == i,
            forall|j: int| 0 <= j < i ==> #[trigger] wave@[j] == spec_wave_point(
                points@[j],
                width as int,
                height as int,
                min_x as int,
                max_x as int,
            ),
        decreases points@.len() - i,
    {
        let x = plane_coords_to_screen_coords(points[i].x, width, min_x, max_x);
        let y = center_y - amplitude_px(points[i].y);
        wave.push(ScreenPoint { x, y });
        i = i + 1;
    }

    WaveGeometry { h_axis, v_axis, markers, wave, min_x, max_x }
}

} // verus!
