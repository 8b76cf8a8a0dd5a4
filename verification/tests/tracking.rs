use bevy_webxr::conversion::{WebXrReferenceSpaceType, XrReferenceSpaceType};
use bevy_webxr::tracking::{TrackingSource, XrPose};

#[test]
fn reports_the_engine_space_type() {
    let source = TrackingSource { space_type: WebXrReferenceSpaceType::LocalFloor };
    assert_eq!(source.reference_space_type(), XrReferenceSpaceType::Stage);
    let source = TrackingSource { space_type: WebXrReferenceSpaceType::Viewer };
    assert_eq!(source.reference_space_type(), XrReferenceSpaceType::Viewer);
}

#[test]
fn refuses_to_change_space_type() {
    let source = TrackingSource { space_type: WebXrReferenceSpaceType::Local };
    assert!(!source.set_reference_space_type(XrReferenceSpaceType::Stage));
    assert!(!source.set_reference_space_type(XrReferenceSpaceType::Local));
}

#[test]
fn one_pose_per_view() {
    let source = TrackingSource { space_type: WebXrReferenceSpaceType::Local };
    let poses: Vec<XrPose<u8, u8>> = source.views_poses(Some((vec![10u8, 20u8], true)));
    assert_eq!(poses.len(), 2);
    assert_eq!(poses[0].transform, 10);
    assert_eq!(poses[1].transform, 20);
    for pose in &poses {
        assert!(pose.linear_velocity.is_none());
        assert!(pose.angular_velocity.is_none());
        assert!(pose.emulated_position);
    }
}

#[test]
fn no_poses_without_viewer() {
    let source = TrackingSource { space_type: WebXrReferenceSpaceType::Local };
    let poses: Vec<XrPose<u8, u8>> = source.views_poses(None);
    assert!(poses.is_empty());
    let poses: Vec<XrPose<u8, u8>> = source.views_poses(Some((Vec::new(), false)));
    assert!(poses.is_empty());
}

#[test]
fn hands_read_the_first_two_sources() {
    let source = TrackingSource { space_type: WebXrReferenceSpaceType::Local };
    assert_eq!(source.hand_source_indices(true, 2), (Some(0), Some(1)));
    assert_eq!(source.hand_source_indices(true, 5), (Some(0), Some(1)));
    assert_eq!(source.hand_source_indices(true, 1), (Some(0), None));
    assert_eq!(source.hand_source_indices(true, 0), (None, None));
    assert_eq!(source.hand_source_indices(false, 2), (None, None));
}
