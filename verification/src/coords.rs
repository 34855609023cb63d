//! The coordinate mapper: linear maps between plane (data) coordinates and
//! screen (pixel) coordinates, given the value range shown and the screen
//! extent. Plane coordinates are fixed-point values, screen coordinates are
//! pixel counts; the linear map itself is scale-free, so the two mix freely.

use vstd::prelude::*;
use vstd::arithmetic::div_mod::lemma_fundamental_div_mod;
use vstd::arithmetic::div_mod::lemma_fundamental_div_mod_converse;
use vstd::arithmetic::div_mod::lemma_div_pos_is_pos;
use vstd::arithmetic::div_mod::lemma_mod_division_less_than_divisor;

verus! {

/// Largest magnitude of a plane coordinate or range bound the mapper accepts,
/// chosen so every intermediate product fits in an `i64`.
pub const COORD_MAX: i64 = 1_000_000_000;

/// Largest screen extent in pixels the mapper accepts.
pub const EXTENT_MAX: i64 = 1_000_000;

/// The linear map from plane to screen space:
/// `extent / (max - min) * (value - min)`, carried out as an exact product
/// followed by one integer division.
pub open spec fn plane_to_screen_spec(value: int, extent: int, min: int, max: int) -> int {
    extent * (value - min) / (max - min)
}

/// The inverse linear map from screen to plane space:
/// `coord * (max - min) / extent + min`.
pub open spec fn screen_to_plane_spec(coord: int, extent: int, min: int, max: int) -> int {
    coord * (max - min) / extent + min
}

/// Maps a plane coordinate into screen space. The caller guards the
/// degenerate range `min_value == max_value`, where the map is undefined.
/// The remaining bounds are this integer carrier's own: `min_value <= value`
/// and an ascending range keep the dividend nonnegative, where truncating
/// machine division and the Euclidean division of the spec agree, and the
/// magnitude caps keep every intermediate product inside an `i64`. Every
/// value the pipeline maps lies within the displayed range, so nothing is
/// narrowed in practice.
pub fn plane_coords_to_screen_coords(
    value: i64,
    screen_size: i64,
    min_value: i64,
    max_value: i64,
) -> (r: i64)
    requires
        min_value < max_value,
        0 < screen_size <= EXTENT_MAX,
        min_value <= value <= COORD_MAX,
        -COORD_MAX <= min_value,
        max_value <= COORD_MAX,
    ensures
        r == plane_to_screen_spec(value as int, screen_size as int, min_value as int, max_value as int),
        0 <= r <= screen_size * (value - min_value),
{
    proof {
        assert(0 <= screen_size * (value - min_value) <= 2_000_000_000_000_000int)
            by (nonlinear_arith)
            requires
                0 < screen_size <= 1_000_000,
                0 <= value - min_value <= 2_000_000_000,
        ;
        lemma_div_pos_is_pos(screen_size * (value - min_value), max_value - min_value as int);
        lemma_div_is_at_most_numerator(screen_size * (value - min_value), max_value - min_value as int);
    }
    (screen_size * (value - min_value)) / (max_value - min_value)
}

/// Maps a screen coordinate back into plane space, for axis labelling.
/// As with the forward map, a nonnegative screen coordinate and an ascending
/// range keep the dividend nonnegative — truncating and Euclidean division
/// agree there — and the magnitude caps rule out overflow; screen positions
/// are nonnegative by construction, so nothing is narrowed in practice.
pub fn screen_coords_to_plane_coords(
    value: i64,
    screen_size: i64,
    min_value: i64,
    max_value: i64,
) -> (r: i64)
    requires
        min_value < max_value,
        0 < screen_size <= EXTENT_MAX,
        0 <= value <= EXTENT_MAX,
        -COORD_MAX <= min_value,
        max_value <= COORD_MAX,
    ensures
        r == screen_to_plane_spec(value as int, screen_size as int, min_value as int, max_value as int),
        min_value <= r,
{
    proof {
        assert(0 <= value * (max_value - min_value) <= 2_000_000_000_000_000int)
            by (nonlinear_arith)
            requires
                0 <= value <= 1_000_000,
                0 < max_value - min_value <= 2_000_000_000,
        ;
        lemma_div_pos_is_pos(value * (max_value - min_value), screen_size as int);
        lemma_div_is_at_most_numerator(value * (max_value - min_value), screen_size as int);
    }
    value * (max_value - min_value) / screen_size + min_value
}

/// A nonnegative quotient never exceeds its numerator when the divisor is
/// at least one.
proof fn lemma_div_is_at_most_numerator(x: int, d: int)
    requires
        0 <= x,
        1 <= d,
    ensures
        x / d <= x,
{
    lemma_fundamental_div_mod(x, d);
    lemma_div_pos_is_pos(x, d);
    lemma_mod_division_less_than_divisor(x, d);
    assert(x / d <= d * (x / d)) by (nonlinear_arith)
        requires
            1 <= d,
            0 <= x / d,
    ;
}

/// Scaling a nonnegative value by a/b under floor division and scaling the
/// result back by b/a returns to at most the value it started from, and
/// falls short of it by less than b/a + 1: the one floor that the first
/// scaling can lose. Both round-trip lemmas below are instances.
proof fn lemma_scaled_round_trip(c: int, a: int, b: int)
    requires
        0 <= c,
        0 < a,
        0 < b,
    ensures
        c * a / b * b / a <= c,
        0 <= c - c * a / b * b / a,
        (c - c * a / b * b / a) * a < b + a,
{
    let q = c * a / b;
    let r = c * a % b;
    assert(0 <= c * a) by (nonlinear_arith)
        requires
            0 <= c,
            0 < a,
    ;
    lemma_fundamental_div_mod(c * a, b);
    lemma_mod_division_less_than_divisor(c * a, b);
    lemma_div_pos_is_pos(c * a, b);
    assert(q * b == c * a - r) by (nonlinear_arith)
        requires
            c * a == b * (c * a / b) + c * a % b,
            q == c * a / b,
            r == c * a % b,
    ;
    // e is the shortfall: the remainder r rounded up to whole a-units.
    let e = (r + a - 1) / a;
    let s = (r + a - 1) % a;
    lemma_fundamental_div_mod(r + a - 1, a);
    lemma_mod_division_less_than_divisor(r + a - 1, a);
    lemma_div_pos_is_pos(r + a - 1, a);
    assert(a * e == r + a - 1 - s);
    assert(0 <= a * e - r < a);
    assert(q * b == (c - e) * a + (a * e - r)) by (nonlinear_arith)
        requires
            q * b == c * a - r,
    ;
    lemma_fundamental_div_mod_converse(q * b, a, c - e, a * e - r);
    assert(c * a / b * b / a == c - e);
    // e is nonnegative and small: a * e == r + a - 1 - s < b + a.
    assert(0 <= e);
    assert(e * a < b + a) by (nonlinear_arith)
        requires
            a * e == r + a - 1 - s,
            r < b,
            0 <= s,
            0 < a,
            0 <= e,
    ;
}

/// Mapping a screen coordinate to the plane and back returns to at most the
/// coordinate it started from, and falls short of it by less than
/// `extent / (max - min) + 1` — the pixel distance that one unit of the
/// truncated plane representation covers. In particular, whenever the range
/// spans at least `extent` plane units, the round trip is exact to within one
/// pixel. This is the integer counterpart of exact inverseness up to
/// representation tolerance.
pub proof fn lemma_map_round_trip(coord: int, extent: int, min: int, max: int)
    requires
        min < max,
        0 < extent,
        0 <= coord,
    ensures
        plane_to_screen_spec(
            screen_to_plane_spec(coord, extent, min, max),
            extent,
            min,
            max,
        ) <= coord,
        0 <= coord - plane_to_screen_spec(
            screen_to_plane_spec(coord, extent, min, max),
            extent,
            min,
            max,
        ),
        (coord - plane_to_screen_spec(
            screen_to_plane_spec(coord, extent, min, max),
            extent,
            min,
            max,
        )) * (max - min) < extent + (max - min),
{
    let d = max - min;
    let q = coord * d / extent;
    lemma_scaled_round_trip(coord, d, extent);
    assert(screen_to_plane_spec(coord, extent, min, max) == q + min);
    assert(extent * q == q * extent) by (nonlinear_arith);
    assert(plane_to_screen_spec(q + min, extent, min, max) == coord * d / extent * extent / d);
}

/// The companion direction: mapping a plane value into screen space and
/// back returns to at most the value it started from, and falls short of it
/// by less than `(max - min) / extent + 1` — the plane distance one pixel
/// covers. Whenever the extent is at least the range's span, the round trip
/// is exact to within one plane unit.
pub proof fn lemma_map_round_trip_plane(value: int, extent: int, min: int, max: int)
    requires
        min < max,
        0 < extent,
        min <= value,
    ensures
        screen_to_plane_spec(
            plane_to_screen_spec(value, extent, min, max),
            extent,
            min,
            max,
        ) <= value,
        0 <= value - screen_to_plane_spec(
            plane_to_screen_spec(value, extent, min, max),
            extent,
            min,
            max,
        ),
        (value - screen_to_plane_spec(
            plane_to_screen_spec(value, extent, min, max),
            extent,
            min,
            max,
        )) * extent < (max - min) + extent,
{
    let d = max - min;
    let c = value - min;
    let w = c * extent / d;
    lemma_scaled_round_trip(c, extent, d);
    assert(extent * c == c * extent) by (nonlinear_arith);
    assert(plane_to_screen_spec(value, extent, min, max) == w);
    assert(screen_to_plane_spec(w, extent, min, max) == c * extent / d * d / extent + min);
}

} // verus!
