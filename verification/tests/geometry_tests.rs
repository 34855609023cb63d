use wave_plotter::fixed::FP_ONE;
use wave_plotter::frame::PlotPoint;
use wave_plotter::geometry::wave_geometry;

#[test]
fn axes_cross_the_canvas_centre() {
    let geometry = wave_geometry(&Vec::new(), 1000, 600);
    assert_eq!((geometry.h_axis.from.x, geometry.h_axis.from.y), (0, 300));
    assert_eq!((geometry.h_axis.to.x, geometry.h_axis.to.y), (1000, 300));
    assert_eq!((geometry.v_axis.from.x, geometry.v_axis.from.y), (500, 0));
    assert_eq!((geometry.v_axis.to.x, geometry.v_axis.to.y), (500, 600));
}

#[test]
fn empty_frame_uses_the_degenerate_fallback_range() {
    let geometry = wave_geometry(&Vec::new(), 1000, 600);
    assert_eq!(geometry.min_x, FP_ONE);
    assert_eq!(geometry.max_x, 2 * FP_ONE);
    assert!(geometry.wave.is_empty());
    assert_eq!(geometry.markers.len(), 10);
    for (k, marker) in geometry.markers.iter().enumerate() {
        let k = k as i64;
        // Marker k sits at an even tenth of the width and is labelled with
        // the plane value that screen position maps back to.
        assert_eq!(marker.stroke.from.x, k * 100);
        assert_eq!(marker.stroke.from.y, 280);
        assert_eq!(marker.stroke.to.y, 320);
        assert_eq!(marker.label_pos.y, 270);
        assert_eq!(marker.label_value, k * 1000 + FP_ONE);
    }
}

#[test]
fn constant_x_frame_widens_the_range_by_one_unit() {
    let points = vec![PlotPoint { x: 5000, y: 0 }, PlotPoint { x: 5000, y: 3000 }];
    let geometry = wave_geometry(&points, 1000, 600);
    assert_eq!(geometry.min_x, 5000);
    assert_eq!(geometry.max_x, 5000 + FP_ONE);
}

#[test]
fn wave_points_map_through_the_coordinate_pipeline() {
    let points = vec![
        PlotPoint { x: 0, y: FP_ONE },
        PlotPoint { x: 5000, y: 0 },
        PlotPoint { x: 10000, y: -FP_ONE },
    ];
    let geometry = wave_geometry(&points, 800, 600);
    assert_eq!(geometry.min_x, 0);
    assert_eq!(geometry.max_x, 10000);
    // A full positive amplitude sits 50 px above the centre line, a full
    // negative one 50 px below.
    assert_eq!(geometry.wave[0], wave_plotter::geometry::ScreenPoint { x: 0, y: 250 });
    assert_eq!(geometry.wave[1], wave_plotter::geometry::ScreenPoint { x: 400, y: 300 });
    assert_eq!(geometry.wave[2], wave_plotter::geometry::ScreenPoint { x: 800, y: 350 });
}
