//! What the WebXR tracking source answers about the reference space, the views
//! and the hands, given what the browser reported for the current frame.
use vstd::prelude::*;
use crate::conversion::{
    WebXrReferenceSpaceType, XrReferenceSpaceType, is_supported_space_type, space_type_from_web,
};

verus! {

/// A tracked pose: a rigid transform of type `T`, velocities of type `V` where the
/// browser measures them, and whether the position is emulated rather than tracked.
#[derive(Debug)]
pub struct XrPose<T, V> {
    pub transform: T,
    pub linear_velocity: Option<V>,
    pub angular_velocity: Option<V>,
    pub emulated_position: bool,
}

/// The tracking source of a WebXR session, by the reference space type it was
/// created with.
#[derive(Debug, Clone, Copy, PartialEq, Eq, Structural)]
pub struct TrackingSource {
    pub space_type: WebXrReferenceSpaceType,
}

/// The pose that a view gets: the view's transform, no measured velocity, and the
/// viewer's flag for an emulated position.
pub open spec fn view_pose<T, V>(transform: T, emulated_position: bool) -> XrPose<T, V> {
    XrPose { transform, linear_velocity: None, angular_velocity: None, emulated_position }
}

/// The input sources that the left and the right hand read: the first and the
/// second source of the session, where the session has them and a frame is running.
pub open spec fn spec_hand_source_indices(frame_present: bool, source_count: u32) -> (
    Option<u32>,
    Option<u32>,
) {
    if frame_present {
        (
            if source_count > 0 { Some(0u32) } else { None },
            if source_count > 1 { Some(1u32) } else { None },
        )
    } else {
        (None, None)
    }
}

impl TrackingSource {
    /// The engine's reference space type for the session's space type.
    pub fn reference_space_type(&self) -> (space_type: XrReferenceSpaceType)
        requires
            is_supported_space_type(self.space_type),
        ensures
            space_type_from_web(self.space_type) == Some(space_type),
    {
        XrReferenceSpaceType::xr_from(self.space_type)
    }

    /// Asks for another reference space type while the session runs. The browser
    /// hands out reference spaces only asynchronously, so the request is always
    /// refused; the space type is chosen before the session starts.
    pub fn set_reference_space_type(&self, _reference_space_type: XrReferenceSpaceType) -> (changed: bool)
        ensures
            !changed,
    {
        false
    }

    /// The poses of the views of the current frame. `viewer` holds the transforms of
    /// the viewer's views and whether its position is emulated; it is `None` when no
    /// frame runs or the browser has no viewer pose for it, and then there are no poses.
    pub fn views_poses<T: Copy, V>(&self, viewer: Option<(Vec<T>, bool)>) -> (poses: Vec<XrPose<T, V>>)
        ensures
            match viewer {
                None => poses@.len() == 0,
                Some((views, emulated_position)) => {
                    &&& poses@.len() == views@.len()
                    &&& forall|i: int|
                        0 <= i < views@.len() ==> #[trigger] poses@[i] == view_pose::<T, V>(
                            views@[i],
                            emulated_position,
                        )
                    &&& forall|i: int|
                        0 <= i < views@.len() ==> {
                            &&& (#[trigger] poses@[i]).transform == views@[i]
                            &&& poses@[i].linear_velocity is None
                            &&& poses@[i].angular_velocity is None
                            &&& poses@[i].emulated_position == emulated_position
                        }
                },
            },
    {
        let mut poses: Vec<XrPose<T, V>> = Vec::new();
        match viewer {
            None => {},
            Some((views, emulated_position)) => {
                let mut i: usize = 0;
                while i < views.len()
                    invariant
                        i <= views@.len(),
                        poses@.len() == i,
                        forall|k: int|
                            0 <= k < i ==> #[trigger] poses@[k] == view_pose::<T, V>(
                                views@[k],
                                emulated_position,
                            ),
                    decreases views@.len() - i,
                {
                    let pose = XrPose {
                        transform: views[i],
                        linear_velocity: None,
                        angular_velocity: None,
                        emulated_position,
                    };
                    poses.push(pose);
                    i = i + 1;
                }
            },
        }
        poses
    }

    /// The input sources that the left and the right hand read for their poses and
    /// skeletons.
    pub fn hand_source_indices(&self, frame_present: bool, source_count: u32) -> (indices: (
        Option<u32>,
        Option<u32>,
    ))
        ensures
            indices == spec_hand_source_indices(frame_present, source_count),
            indices.0 is Some <==> (frame_present && source_count > 0),
            indices.1 is Some <==> (frame_present && source_count > 1),
            indices.0 is Some ==> indices.0->0 == 0,
            indices.1 is Some ==> indices.1->0 == 1,
    {
        if !frame_present {
            return (None, None);
        }
        let left = if source_count > 0 { Some(0u32) } else { None };
        let right = if source_count > 1 { Some(1u32) } else { None };
        (left, right)
    }
}

/// A view's pose keeps the view's transform unchanged, carries no velocity, and
/// passes the viewer's emulated-position flag through unchanged, whichever it is.
pub proof fn lemma_view_pose_passes_viewer_data<T, V>(transform: T, emulated_position: bool)
    ensures
        view_pose::<T, V>(transform, emulated_position).transform == transform,
        view_pose::<T, V>(transform, emulated_position).linear_velocity is None,
        view_pose::<T, V>(transform, emulated_position).angular_velocity is None,
        view_pose::<T, V>(transform, emulated_position).emulated_position == emulated_position,
{
}

/// While a frame runs, the left hand reads the first input source exactly when the
/// session has one, and the right hand reads the second exactly when it has two,
/// whatever the number of sources; without a frame neither reads any.
pub proof fn lemma_hands_read_first_and_second_source(frame_present: bool, source_count: u32)
    ensures
        ({
            let (left, right) = spec_hand_source_indices(frame_present, source_count);
            &&& (left == if frame_present && source_count > 0 { Some(0u32) } else { None::<u32> })
            &&& (right == if frame_present && source_count > 1 { Some(1u32) } else { None::<u32> })
            &&& (!frame_present ==> left is None && right is None)
        }),
{
}

/// The two hands never read the same input source, and each reads one only while a
/// frame runs and the session has that many sources.
pub proof fn lemma_hands_read_distinct_sources(frame_present: bool, source_count: u32)
    ensures
        ({
            let (left, right) = spec_hand_source_indices(frame_present, source_count);
            &&& (left is Some && right is Some ==> left->0 != right->0)
            &&& (left is Some ==> frame_present && left->0 < source_count)
            &&& (right is Some ==> frame_present && right->0 < source_count)
            &&& (frame_present && source_count >= 2 ==> left is Some && right is Some)
        }),
{
}

} // verus!
