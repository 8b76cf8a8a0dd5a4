use bevy_webxr::conversion::{
    WebXrEye, WebXrHandedness, WebXrReferenceSpaceType, XrHandType, XrReferenceSpaceType,
};

#[test]
fn space_type_from_browser() {
    assert_eq!(XrReferenceSpaceType::xr_from(WebXrReferenceSpaceType::Viewer), XrReferenceSpaceType::Viewer);
    assert_eq!(XrReferenceSpaceType::xr_from(WebXrReferenceSpaceType::Local), XrReferenceSpaceType::Local);
    assert_eq!(XrReferenceSpaceType::xr_from(WebXrReferenceSpaceType::LocalFloor), XrReferenceSpaceType::Stage);
}

#[test]
fn space_type_to_browser() {
    assert_eq!(WebXrReferenceSpaceType::xr_from(XrReferenceSpaceType::Viewer), WebXrReferenceSpaceType::Viewer);
    assert_eq!(WebXrReferenceSpaceType::xr_from(XrReferenceSpaceType::Local), WebXrReferenceSpaceType::Local);
    assert_eq!(WebXrReferenceSpaceType::xr_from(XrReferenceSpaceType::Stage), WebXrReferenceSpaceType::LocalFloor);
}

#[test]
fn unsupported_space_types() {
    assert!(WebXrReferenceSpaceType::Viewer.is_supported());
    assert!(WebXrReferenceSpaceType::Local.is_supported());
    assert!(WebXrReferenceSpaceType::LocalFloor.is_supported());
    assert!(!WebXrReferenceSpaceType::BoundedFloor.is_supported());
    assert!(!WebXrReferenceSpaceType::Unbounded.is_supported());
}

#[test]
fn space_type_round_trips() {
    for t in [XrReferenceSpaceType::Viewer, XrReferenceSpaceType::Local, XrReferenceSpaceType::Stage] {
        assert_eq!(XrReferenceSpaceType::xr_from(WebXrReferenceSpaceType::xr_from(t)), t);
    }
    for w in [WebXrReferenceSpaceType::Viewer, WebXrReferenceSpaceType::Local, WebXrReferenceSpaceType::LocalFloor] {
        assert_eq!(WebXrReferenceSpaceType::xr_from(XrReferenceSpaceType::xr_from(w)), w);
    }
}

#[test]
fn handedness_conversions() {
    assert_eq!(XrHandType::xr_from(WebXrHandedness::Left), XrHandType::Left);
    assert_eq!(XrHandType::xr_from(WebXrHandedness::Right), XrHandType::Right);
    assert_eq!(WebXrHandedness::xr_from(XrHandType::Left), WebXrHandedness::Left);
    assert_eq!(WebXrHandedness::xr_from(XrHandType::Right), WebXrHandedness::Right);
    assert!(!WebXrHandedness::NoHand.is_supported());
    assert!(WebXrHandedness::Left.is_supported());
    assert!(WebXrHandedness::Right.is_supported());
}

#[test]
fn handedness_round_trips() {
    for h in [XrHandType::Left, XrHandType::Right] {
        assert_eq!(XrHandType::xr_from(WebXrHandedness::xr_from(h)), h);
    }
    for w in [WebXrHandedness::Left, WebXrHandedness::Right] {
        assert_eq!(WebXrHandedness::xr_from(XrHandType::xr_from(w)), w);
    }
}

#[test]
fn eyes_compare_by_variant() {
    assert_ne!(WebXrEye::Left, WebXrEye::Right);
    assert_ne!(WebXrEye::Mono, WebXrEye::Left);
}
