//! The wave plotter and its render loop driver state: the displayed frame,
//! the render pause flag — independent of the capture lifecycle, on
//! purpose — and the tick step that, while rendering is not paused, pulls a
//! fresh frame from the wave source and swaps it in.

use vstd::prelude::*;
use crate::fixed::FP_ONE;
use crate::frame::PlotPoint;
use crate::frame::frame_x_strictly_increasing;
use crate::source::FRAME_LEN;
use crate::source::SCALE_MIN;
use crate::source::WaveSource;
use crate::source::spec_captured_frame;
use crate::source::spec_synthetic_frame;

verus! {

/// The fixed tick period of the render loop, in milliseconds.
pub const TICK_INTERVAL_MS: u64 = 50;

/// A discrete input event delivered to the render loop driver: the
/// designated pause toggle (a key release), or anything else, which is
/// acknowledged and otherwise ignored.
#[derive(Clone, Copy, PartialEq, Eq, Structural, Debug)]
pub enum InputEvent {
    PauseToggleReleased,
    Other,
}

/// A message handled by the plotter: a freshly produced frame, or an input
/// event.
pub enum WavePlotterMessage {
    UpdatePoints(Vec<PlotPoint>),
    EventOccurred(InputEvent),
}

/// The render pause flag after one input event: the toggle flips it, every
/// other event leaves it alone.
pub open spec fn spec_paused_after(paused: bool, event: InputEvent) -> bool {
    match event {
        InputEvent::PauseToggleReleased => !paused,
        InputEvent::Other => paused,
    }
}

/// Toggling pause twice restores the prior tick-firing behaviour: the
/// toggle is an involution on the render pause flag.
pub proof fn lemma_toggle_twice_identity(paused: bool)
    ensures
        spec_paused_after(
            spec_paused_after(paused, InputEvent::PauseToggleReleased),
            InputEvent::PauseToggleReleased,
        ) == paused,
{
}

/// The plotter: the frame on display and the render pause flag. Pausing
/// rendering does not stop capture, and vice versa; nothing here reads or
/// touches the capture controller.
pub struct WavePlotter {
    points: Vec<PlotPoint>,
    paused: bool,
}

impl WavePlotter {
    /// The frame on display.
    pub closed spec fn points_seq(self) -> Seq<PlotPoint> {
        self.points@
    }

    /// The render pause flag.
    pub closed spec fn is_paused(self) -> bool {
        self.paused
    }

    /// A fresh plotter: empty pre-first-tick frame, not paused.
    pub fn new() -> (r: WavePlotter)
        ensures
            r.points_seq() =~= Seq::<PlotPoint>::empty(),
            !r.is_paused(),
    {
        WavePlotter { points: Vec::new(), paused: false }
    }

    /// The window title.
    pub fn title(&self) -> (r: &'static str)
        ensures
            r@ == "Wave Plotter v0.1"@,
    {
        "Wave Plotter v0.1"
    }

    /// Handles one message: a frame message replaces the displayed frame
    /// wholesale, the pause toggle flips the pause flag, and every other
    /// event changes nothing.
    pub fn update(&mut self, message: WavePlotterMessage)
        ensures
            message matches WavePlotterMessage::UpdatePoints(points) ==> {
                &&& final(self).points_seq() =~= points@
                &&& final(self).is_paused() == old(self).is_paused()
            },
            message matches WavePlotterMessage::EventOccurred(event) ==> {
                &&& final(self).points_seq() =~= old(self).points_seq()
                &&& final(self).is_paused() == spec_paused_after(old(self).is_paused(), event)
            },
    {
        match message {
            WavePlotterMessage::UpdatePoints(points) => {
                self.points = points;
            },
            WavePlotterMessage::EventOccurred(event) => {
                match event {
                    InputEvent::PauseToggleReleased => {
                        self.paused = !self.paused;
                    },
                    InputEvent::Other => {},
                }
            },
        }
    }

    /// Whether the periodic tick is scheduled at all: pausing stops the
    /// periodic work itself, it does not merely skip its effect.
    pub fn tick_enabled(&self) -> (r: bool)
        ensures
            r == !self.is_paused(),
    {
        !self.paused
    }

    /// The current frame, for the renderer.
    pub fn current_points(&self) -> (r: &Vec<PlotPoint>)
        ensures
            r@ =~= self.points_seq(),
    {
        &self.points
    }

    /// One firing of the periodic render update: pulls the next frame from
    /// the wave source and swaps it in. Fires only while rendering is not
    /// paused, and is independent of the capture lifecycle: a synthetic
    /// source hands over a full-length frame whatever the capture state.
    pub fn render_tick(&mut self, source: &mut WaveSource)
        requires
            !old(self).is_paused(),
            old(source).wf(),
        ensures
            final(source).wf(),
            !final(self).is_paused(),
            *old(source) is Synthetic ==> {
                &&& *final(source) is Synthetic
                &&& final(self).points_seq().len() == FRAME_LEN
                &&& frame_x_strictly_increasing(final(self).points_seq())
                &&& exists|scale: int, phase: int|
                    SCALE_MIN <= scale < FP_ONE && 0 <= phase < FP_ONE
                        && final(self).points_seq() =~= spec_synthetic_frame(scale, phase)
            },
            *old(source) is Captured ==> {
                &&& *final(source) is Captured
                &&& (*final(source))->Captured_0.samples() =~= Seq::<i64>::empty()
                &&& final(self).points_seq() =~= spec_captured_frame(
                    (*old(source))->Captured_0.samples(),
                )
            },
    {
        let frame = source.next_frame();
        self.update(WavePlotterMessage::UpdatePoints(frame));
    }
}

} // verus!
