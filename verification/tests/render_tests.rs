use wave_plotter::frame::PlotPoint;
use wave_plotter::render::InputEvent;
use wave_plotter::render::WavePlotter;
use wave_plotter::render::WavePlotterMessage;
use wave_plotter::source::WaveSource;

#[test]
fn fresh_plotter_is_unpaused_and_empty() {
    let plotter = WavePlotter::new();
    assert!(plotter.tick_enabled());
    assert!(plotter.current_points().is_empty());
    assert_eq!(plotter.title(), "Wave Plotter v0.1");
}

#[test]
fn toggling_pause_twice_restores_tick_firing() {
    let mut plotter = WavePlotter::new();
    plotter.update(WavePlotterMessage::EventOccurred(InputEvent::PauseToggleReleased));
    assert!(!plotter.tick_enabled());
    plotter.update(WavePlotterMessage::EventOccurred(InputEvent::PauseToggleReleased));
    assert!(plotter.tick_enabled());
}

#[test]
fn other_events_are_ignored() {
    let mut plotter = WavePlotter::new();
    plotter.update(WavePlotterMessage::UpdatePoints(vec![PlotPoint { x: 1, y: 2 }]));
    for _ in 0..5 {
        plotter.update(WavePlotterMessage::EventOccurred(InputEvent::Other));
    }
    assert!(plotter.tick_enabled());
    assert_eq!(plotter.current_points().len(), 1);
}

#[test]
fn update_points_replaces_the_frame_and_keeps_the_pause_flag() {
    let mut plotter = WavePlotter::new();
    plotter.update(WavePlotterMessage::EventOccurred(InputEvent::PauseToggleReleased));
    plotter.update(WavePlotterMessage::UpdatePoints(vec![
        PlotPoint { x: 1, y: 0 },
        PlotPoint { x: 2, y: 0 },
    ]));
    assert_eq!(plotter.current_points().len(), 2);
    assert!(!plotter.tick_enabled());
}

#[test]
fn no_tick_fires_while_paused() {
    let mut plotter = WavePlotter::new();
    let mut source = WaveSource::Synthetic;
    plotter.update(WavePlotterMessage::EventOccurred(InputEvent::PauseToggleReleased));
    // The driver asks before scheduling any periodic work; over an arbitrary
    // wait window, zero ticks fire.
    let mut ticks = 0;
    for _ in 0..40 {
        if plotter.tick_enabled() {
            plotter.render_tick(&mut source);
            ticks += 1;
        }
    }
    assert_eq!(ticks, 0);
    assert!(plotter.current_points().is_empty());
}
