//! The head-mounted display's pawn: the two eye cameras share one browser
//! framebuffer, the left eye drawing into its left half and the right eye into
//! its right half.
use vstd::prelude::*;
use crate::conversion::WebXrEye;

verus! {

/// A pair of unsigned pixel coordinates or sizes.
#[derive(Debug, Clone, Copy, PartialEq, Eq, Structural)]
pub struct UVec2 {
    pub x: u32,
    pub y: u32,
}

/// The rectangle of the render target that a camera draws into, in physical pixels.
#[derive(Debug, Clone, Copy, PartialEq, Eq, Structural)]
pub struct Viewport {
    pub physical_position: UVec2,
    pub physical_size: UVec2,
}

/// Whether a camera clears its render target before it draws.
#[derive(Debug, Clone, Copy, PartialEq, Eq, Structural)]
pub enum ClearColorConfig {
    /// Clear with the engine's default clear colour.
    Default,
    /// Leave what is already in the target.
    DontClear,
}

/// What distinguishes one eye camera from the other.
#[derive(Debug, Clone, Copy, PartialEq, Eq, Structural)]
pub struct EyeCamera {
    /// Cameras with a lower priority render first.
    pub priority: isize,
    pub clear_color: ClearColorConfig,
    pub viewport: Viewport,
}

/// The pixel `(x, y)` lies in the viewport.
pub open spec fn covers(v: Viewport, x: int, y: int) -> bool {
    &&& v.physical_position.x <= x < v.physical_position.x + v.physical_size.x
    &&& v.physical_position.y <= y < v.physical_position.y + v.physical_size.y
}

/// The viewport lies inside a target of the given resolution.
pub open spec fn fits(v: Viewport, resolution: UVec2) -> bool {
    &&& v.physical_position.x + v.physical_size.x <= resolution.x
    &&& v.physical_position.y + v.physical_size.y <= resolution.y
}

/// The left and right eye viewports of a framebuffer: each eye gets half of its
/// width (rounded down) and all of its height, the right half starting where the
/// left one ends.
pub open spec fn spec_stereo_viewports(resolution: UVec2) -> (Viewport, Viewport) {
    let size = UVec2 { x: (resolution.x / 2) as u32, y: resolution.y };
    (
        Viewport { physical_position: UVec2 { x: 0, y: 0 }, physical_size: size },
        Viewport { physical_position: UVec2 { x: (resolution.x / 2) as u32, y: 0 }, physical_size: size },
    )
}

/// The left and right eye cameras: the left one renders first and clears the
/// framebuffer, the right one renders after it and keeps what the left one drew,
/// since a viewport does not limit what a clear wipes.
pub open spec fn spec_eye_cameras(resolution: UVec2) -> (EyeCamera, EyeCamera) {
    let (left, right) = spec_stereo_viewports(resolution);
    (
        EyeCamera { priority: 0, clear_color: ClearColorConfig::Default, viewport: left },
        EyeCamera { priority: 1, clear_color: ClearColorConfig::DontClear, viewport: right },
    )
}

/// The eye viewports of a framebuffer of the given resolution.
pub fn stereo_viewports(resolution: UVec2) -> (viewports: (Viewport, Viewport))
    ensures
        viewports == spec_stereo_viewports(resolution),
        viewports.0.physical_position == (UVec2 { x: 0, y: 0 }),
        viewports.1.physical_position == (UVec2 { x: resolution.x / 2, y: 0 }),
        viewports.0.physical_size == (UVec2 { x: resolution.x / 2, y: resolution.y }),
        viewports.1.physical_size == (UVec2 { x: resolution.x / 2, y: resolution.y }),
{
    let physical_size = UVec2 { x: resolution.x / 2, y: resolution.y };
    let left = Viewport { physical_position: UVec2 { x: 0, y: 0 }, physical_size };
    let right = Viewport { physical_position: UVec2 { x: resolution.x / 2, y: 0 }, physical_size };
    (left, right)
}

/// The eye cameras for a framebuffer of the given resolution.
pub fn eye_cameras(resolution: UVec2) -> (cameras: (EyeCamera, EyeCamera))
    ensures
        cameras == spec_eye_cameras(resolution),
        cameras.0.priority == 0,
        cameras.1.priority == 1,
        cameras.0.clear_color == ClearColorConfig::Default,
        cameras.1.clear_color == ClearColorConfig::DontClear,
        cameras.0.viewport.physical_position == (UVec2 { x: 0, y: 0 }),
        cameras.1.viewport.physical_position == (UVec2 { x: resolution.x / 2, y: 0 }),
        cameras.0.viewport.physical_size == (UVec2 { x: resolution.x / 2, y: resolution.y }),
        cameras.1.viewport.physical_size == (UVec2 { x: resolution.x / 2, y: resolution.y }),
{
    let (left_viewport, right_viewport) = stereo_viewports(resolution);
    let left = EyeCamera { priority: 0, clear_color: ClearColorConfig::Default, viewport: left_viewport };
    let right = EyeCamera { priority: 1, clear_color: ClearColorConfig::DontClear, viewport: right_viewport };
    (left, right)
}

/// The index of the first view for the given eye, if there is one.
pub fn find_eye(eyes: &Vec<WebXrEye>, eye: WebXrEye) -> (found: Option<usize>)
    ensures
        match found {
            Some(i) => {
                &&& i < eyes.len()
                &&& eyes@[i as int] == eye
                &&& forall|j: int| 0 <= j < i ==> eyes@[j] != eye
            },
            None => forall|j: int| 0 <= j < eyes.len() ==> eyes@[j] != eye,
        },
{
    let mut i: usize = 0;
    while i < eyes.len()
        invariant
            i <= eyes.len(),
            forall|j: int| 0 <= j < i ==> eyes@[j] != eye,
        decreases eyes.len() - i,
    {
        if eyes[i] == eye {
            return Some(i);
        }
        i = i + 1;
    }
    None
}

/// The two eye viewports lie inside the framebuffer, have the same size, share no
/// pixel, and between them cover every pixel but the last column of a framebuffer
/// of odd width.
pub proof fn lemma_stereo_viewports_split(resolution: UVec2)
    ensures
        ({
            let (left, right) = spec_stereo_viewports(resolution);
            &&& fits(left, resolution)
            &&& fits(right, resolution)
            &&& left.physical_size == right.physical_size
            &&& right.physical_position.x == left.physical_position.x + left.physical_size.x
            &&& forall|x: int, y: int| !(#[trigger] covers(left, x, y) && #[trigger] covers(right, x, y))
            &&& forall|x: int, y: int|
                0 <= x < 2 * (resolution.x / 2) && 0 <= y < resolution.y
                    ==> #[trigger] covers(left, x, y) || #[trigger] covers(right, x, y)
        }),
{
}

/// The left eye's viewport is the left half of the framebuffer, starting at its
/// origin, and the right eye's is the right half, starting at half its width; each is
/// half as wide (rounded down) and as tall as the framebuffer.
pub proof fn lemma_left_eye_draws_left_half(resolution: UVec2)
    ensures
        ({
            let (left, right) = spec_stereo_viewports(resolution);
            &&& left.physical_position.x == 0 && left.physical_position.y == 0
            &&& right.physical_position.x == resolution.x / 2 && right.physical_position.y == 0
            &&& left.physical_size.x == resolution.x / 2 && left.physical_size.y == resolution.y
            &&& right.physical_size.x == resolution.x / 2 && right.physical_size.y == resolution.y
            &&& forall|x: int, y: int| #[trigger] covers(left, x, y) ==> x < resolution.x / 2
            &&& forall|x: int, y: int| #[trigger] covers(right, x, y) ==> x >= resolution.x / 2
        }),
{
}

/// Of the two eye cameras only the one that renders first clears the framebuffer,
/// so the second keeps the first one's half of the picture.
pub proof fn lemma_eye_cameras_keep_both_halves(resolution: UVec2)
    ensures
        ({
            let (left, right) = spec_eye_cameras(resolution);
            &&& left.priority < right.priority
            &&& left.clear_color == ClearColorConfig::Default
            &&& right.clear_color == ClearColorConfig::DontClear
            &&& (left.viewport, right.viewport) == spec_stereo_viewports(resolution)
        }),
{
}

} // verus!
