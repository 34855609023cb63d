//! Core logic of a live waveform plotter: fixed-point coordinate mapping
//! between data ("plane") space and screen space, bounded plot frames,
//! a synthetic sine-wave source, the capture-lifecycle state machine and
//! the render-loop pause state.
//!
//! All amplitudes and plane coordinates are fixed-point values scaled by
//! [`fixed::FP_ONE`]; screen coordinates are plain pixel counts.

pub mod capture;
pub mod coords;
pub mod fixed;
pub mod frame;
pub mod geometry;
pub mod render;
pub mod source;
