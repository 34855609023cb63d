use wave_plotter::coords::plane_coords_to_screen_coords;
use wave_plotter::coords::screen_coords_to_plane_coords;

#[test]
fn plane_to_screen_maps_linearly() {
    // Range 1.0..5.0 in fixed point, 800 px wide: 3.0 sits at the half.
    assert_eq!(plane_coords_to_screen_coords(30000, 800, 10000, 50000), 400);
    assert_eq!(plane_coords_to_screen_coords(10000, 800, 10000, 50000), 0);
    assert_eq!(plane_coords_to_screen_coords(50000, 800, 10000, 50000), 800);
}

#[test]
fn screen_to_plane_maps_back_linearly() {
    assert_eq!(screen_coords_to_plane_coords(400, 800, 10000, 50000), 30000);
    assert_eq!(screen_coords_to_plane_coords(0, 800, 10000, 50000), 10000);
    assert_eq!(screen_coords_to_plane_coords(800, 800, 10000, 50000), 50000);
}

#[test]
fn round_trip_is_exact_when_range_dominates_extent() {
    // The range spans 40000 fixed-point units against 800 px, so mapping a
    // screen coordinate to the plane and back loses at most one pixel; on
    // these inputs it is exact.
    for c in [0_i64, 1, 123, 400, 799, 800] {
        let v = screen_coords_to_plane_coords(c, 800, 10000, 50000);
        assert_eq!(plane_coords_to_screen_coords(v, 800, 10000, 50000), c);
    }
}

#[test]
fn plane_round_trip_is_exact_when_extent_dominates_range() {
    // The extent spans 1000 px against a range of 100 plane units, so
    // mapping a plane value to the screen and back loses at most one plane
    // unit; on these inputs it is exact.
    for v in [0_i64, 1, 25, 99, 100] {
        let c = plane_coords_to_screen_coords(v, 1000, 0, 100);
        assert_eq!(screen_coords_to_plane_coords(c, 1000, 0, 100), v);
    }
}

#[test]
fn plane_round_trip_error_stays_under_tolerance() {
    // A wide range against a narrow extent: the shortfall stays below
    // (max - min) / extent + 1 plane units.
    let (ext, lo, hi) = (800_i64, 10000_i64, 50000_i64);
    for v in [10000_i64, 10037, 23456, 49999, 50000] {
        let c = plane_coords_to_screen_coords(v, ext, lo, hi);
        let back = screen_coords_to_plane_coords(c, ext, lo, hi);
        assert!(back <= v);
        assert!((v - back) * ext < (hi - lo) + ext);
    }
}

#[test]
fn round_trip_error_stays_under_tolerance() {
    // A narrow range against a wide extent: the shortfall stays below
    // extent / (max - min) + 1 pixels.
    let (ext, lo, hi) = (1000_i64, 0_i64, 100_i64);
    for c in [0_i64, 7, 250, 999, 1000] {
        let v = screen_coords_to_plane_coords(c, ext, lo, hi);
        let back = plane_coords_to_screen_coords(v, ext, lo, hi);
        assert!(back <= c);
        assert!((c - back) * (hi - lo) < ext + (hi - lo));
    }
}
