//! WebXR support for the engine: the conversions between the browser's XR
//! enumerations and the engine's, the tracking source's answers, and the
//! layout of the stereo cameras that render the head-mounted display.
use vstd::prelude::*;

pub mod conversion;
pub mod pawn;
pub mod tracking;

verus! {

/// The plugin that drives the engine from the browser's XR session.
#[derive(Default)]
pub struct WebXrPlugin;

/// Marker for the entity that carries the head transform.
#[derive(Debug)]
pub struct HeadMarker;

/// Marker for the camera that renders the left eye.
pub struct LeftEyeMarker;

/// Marker for the camera that renders the right eye.
pub struct RightEyeMarker;

} // verus!
