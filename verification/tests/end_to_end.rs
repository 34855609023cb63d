use wave_plotter::capture::AudioInput;
use wave_plotter::capture::CaptureState;
use wave_plotter::geometry::wave_geometry;
use wave_plotter::render::TICK_INTERVAL_MS;
use wave_plotter::render::WavePlotter;
use wave_plotter::source::WaveSource;

#[test]
fn render_keeps_producing_frames_whatever_the_capture_state() {
    let mut audio = AudioInput::new();
    let mut plotter = WavePlotter::new();
    let mut source = WaveSource::Synthetic;

    // Start capture and run two seconds of ticks at the fixed period.
    let two_seconds = 2000 / TICK_INTERVAL_MS;
    assert_eq!(two_seconds, 40);
    audio.start_capture();
    for _ in 0..two_seconds {
        assert!(plotter.tick_enabled());
        plotter.render_tick(&mut source);
        assert_eq!(plotter.current_points().len(), 100);
    }

    // Pause capture; rendering is independent and keeps producing
    // full-length frames from the synthetic path.
    audio.pause_capture();
    assert_eq!(audio.current_state(), CaptureState::Paused);
    for _ in 0..20 {
        assert!(plotter.tick_enabled());
        plotter.render_tick(&mut source);
        assert_eq!(plotter.current_points().len(), 100);
    }
}

#[test]
fn a_ticked_frame_yields_complete_geometry() {
    let mut plotter = WavePlotter::new();
    let mut source = WaveSource::Synthetic;
    plotter.render_tick(&mut source);
    let geometry = wave_geometry(plotter.current_points(), 800, 600);
    assert_eq!(geometry.markers.len(), 10);
    assert_eq!(geometry.wave.len(), 100);
    assert!(geometry.min_x < geometry.max_x);
    // The wave stays within the canvas and around the centre line.
    for p in &geometry.wave {
        assert!(0 <= p.x && p.x <= 800);
        assert!(250 <= p.y && p.y <= 350);
    }
}
