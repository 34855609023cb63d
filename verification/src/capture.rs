//! The capture controller: owns the capture lifecycle state and decides, on
//! every start or pause call, the one action the audio device boundary must
//! perform. It guarantees at most one active stream at a time: a stream is
//! open exactly while the controller is not idle, and a redundant start never
//! asks for a second one.

use vstd::prelude::*;

verus! {

/// The capture lifecycle: no stream yet, stream running, or stream
/// suspended without releasing the device.
#[derive(Clone, Copy, PartialEq, Eq, Structural, Debug)]
pub enum CaptureState {
    Idle,
    Capturing,
    Paused,
}

/// What the device boundary must do after a transition: build and start the
/// stream, resume or suspend the one that exists, or nothing at all.
#[derive(Clone, Copy, PartialEq, Eq, Structural, Debug)]
pub enum StreamAction {
    BuildAndPlay,
    Resume,
    Suspend,
    Stay,
}

/// A fatal device failure: unrecoverable for this controller instance, to be
/// surfaced loudly rather than silently continued from.
#[derive(Clone, Copy, PartialEq, Eq, Structural, Debug)]
pub enum CaptureError {
    NoInputDevice,
    UnsupportedConfig,
    StreamBuildFailure,
}

impl CaptureError {
    /// The message to surface before terminating.
    pub fn describe(&self) -> (r: &'static str)
        ensures
            *self is NoInputDevice ==> r@ == "No input device available"@,
            *self is UnsupportedConfig ==> r@ == "Unsupported input stream configuration"@,
            *self is StreamBuildFailure ==> r@ == "Could not build the input stream"@,
    {
        match self {
            CaptureError::NoInputDevice => "No input device available",
            CaptureError::UnsupportedConfig => "Unsupported input stream configuration",
            CaptureError::StreamBuildFailure => "Could not build the input stream",
        }
    }
}

/// The audio input controller. It holds the lifecycle state and tracks
/// whether a stream object exists; the device boundary performs the actions
/// it hands out, so the bookkeeping never claims a live stream it did not
/// ask for.
pub struct AudioInput {
    state: CaptureState,
    stream_open: bool,
}

impl AudioInput {
    /// The current lifecycle state.
    pub closed spec fn state(self) -> CaptureState {
        self.state
    }

    /// Whether a stream object exists (running or suspended).
    pub closed spec fn stream_open(self) -> bool {
        self.stream_open
    }

    /// The one-stream invariant: a stream exists exactly while the
    /// controller is not idle.
    pub open spec fn wf(self) -> bool {
        self.stream_open() <==> !(self.state() is Idle)
    }

    /// A fresh controller: idle, no stream.
    pub fn new() -> (r: AudioInput)
        ensures
            r.wf(),
            r.state() is Idle,
            !r.stream_open(),
    {
        AudioInput { state: CaptureState::Idle, stream_open: false }
    }

    /// Starts capturing. From idle this asks the boundary to build and start
    /// the stream; from paused it asks to resume the existing one; while
    /// already capturing it is a no-op and asks for nothing, so no duplicate
    /// stream is ever created.
    pub fn start_capture(&mut self) -> (action: StreamAction)
        requires
            old(self).wf(),
        ensures
            final(self).wf(),
            final(self).state() is Capturing,
            final(self).stream_open(),
            old(self).state() is Idle ==> action is BuildAndPlay,
            old(self).state() is Paused ==> action is Resume,
            old(self).state() is Capturing ==> action is Stay && *final(self) == *old(self),
    {
        match self.state {
            CaptureState::Idle => {
                self.state = CaptureState::Capturing;
                self.stream_open = true;
                StreamAction::BuildAndPlay
            },
            CaptureState::Paused => {
                self.state = CaptureState::Capturing;
                StreamAction::Resume
            },
            CaptureState::Capturing => StreamAction::Stay,
        }
    }

    /// Pauses capturing. While capturing this asks the boundary to suspend
    /// the stream without releasing the device; from idle or paused there is
    /// nothing to pause — a benign condition, reported and otherwise
    /// ignored, with the state left unchanged.
    pub fn pause_capture(&mut self) -> (action: StreamAction)
        requires
            old(self).wf(),
        ensures
            final(self).wf(),
            old(self).state() is Capturing ==> {
                &&& action is Suspend
                &&& final(self).state() is Paused
                &&& final(self).stream_open()
            },
            !(old(self).state() is Capturing) ==> action is Stay && *final(self) == *old(self),
    {
        match self.state {
            CaptureState::Capturing => {
                self.state = CaptureState::Paused;
                StreamAction::Suspend
            },
            _ => StreamAction::Stay,
        }
    }

    /// The current lifecycle state, for the owner to inspect.
    pub fn current_state(&self) -> (r: CaptureState)
        ensures
            r == self.state(),
    {
        self.state
    }

    /// Whether a stream object exists, for the owner to inspect.
    pub fn is_stream_open(&self) -> (r: bool)
        ensures
            r == self.stream_open(),
    {
        self.stream_open
    }

    /// The benign notice for a pause call that found nothing to pause.
    pub fn nothing_to_pause_notice(&self) -> (r: &'static str)
        ensures
            r@ == "Trying to pause an audio capture, but no capture was started."@,
    {
        "Trying to pause an audio capture, but no capture was started."
    }
}

} // verus!
