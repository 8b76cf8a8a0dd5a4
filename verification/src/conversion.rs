//! The enumerations that the browser's WebXR Device API and the engine's XR layer
//! each use for reference spaces, handedness and eyes, and the conversions between them.
use vstd::prelude::*;

verus! {

/// Reference space types of the WebXR Device API, as the browser names them.
#[derive(Debug, Clone, Copy, PartialEq, Eq, Structural)]
pub enum WebXrReferenceSpaceType {
    Viewer,
    Local,
    LocalFloor,
    BoundedFloor,
    Unbounded,
}

/// Reference space types of the engine's XR layer.
#[derive(Debug, Clone, Copy, PartialEq, Eq, Structural)]
pub enum XrReferenceSpaceType {
    Viewer,
    Local,
    Stage,
}

/// Handedness of an input source, as the browser reports it.
#[derive(Debug, Clone, Copy, PartialEq, Eq, Structural)]
pub enum WebXrHandedness {
    /// The source is not held in a hand (the browser's `none`).
    NoHand,
    Left,
    Right,
}

/// The hands that the engine's XR layer tracks.
#[derive(Debug, Clone, Copy, PartialEq, Eq, Structural)]
pub enum XrHandType {
    Left,
    Right,
}

/// The eye a browser view renders for.
#[derive(Debug, Clone, Copy, PartialEq, Eq, Structural)]
pub enum WebXrEye {
    /// A view that is not for either eye (the browser's `none`).
    Mono,
    Left,
    Right,
}

/// The engine space type that a browser space type stands for, if the engine has one:
/// `local-floor` is the engine's stage; bounded and unbounded spaces have no counterpart.
pub open spec fn space_type_from_web(t: WebXrReferenceSpaceType) -> Option<XrReferenceSpaceType> {
    match t {
        WebXrReferenceSpaceType::Viewer => Some(XrReferenceSpaceType::Viewer),
        WebXrReferenceSpaceType::Local => Some(XrReferenceSpaceType::Local),
        WebXrReferenceSpaceType::LocalFloor => Some(XrReferenceSpaceType::Stage),
        WebXrReferenceSpaceType::BoundedFloor => None,
        WebXrReferenceSpaceType::Unbounded => None,
    }
}

/// The browser space type that stands for an engine space type.
pub open spec fn web_space_type(t: XrReferenceSpaceType) -> WebXrReferenceSpaceType {
    match t {
        XrReferenceSpaceType::Viewer => WebXrReferenceSpaceType::Viewer,
        XrReferenceSpaceType::Local => WebXrReferenceSpaceType::Local,
        XrReferenceSpaceType::Stage => WebXrReferenceSpaceType::LocalFloor,
    }
}

/// A browser space type that the engine can represent.
pub open spec fn is_supported_space_type(t: WebXrReferenceSpaceType) -> bool {
    space_type_from_web(t) is Some
}

/// The engine hand that a browser handedness names, if any.
pub open spec fn hand_type_from_web(h: WebXrHandedness) -> Option<XrHandType> {
    match h {
        WebXrHandedness::NoHand => None,
        WebXrHandedness::Left => Some(XrHandType::Left),
        WebXrHandedness::Right => Some(XrHandType::Right),
    }
}

/// The browser handedness of an engine hand.
pub open spec fn web_handedness(h: XrHandType) -> WebXrHandedness {
    match h {
        XrHandType::Left => WebXrHandedness::Left,
        XrHandType::Right => WebXrHandedness::Right,
    }
}

/// A browser handedness that names a hand.
pub open spec fn is_supported_handedness(h: WebXrHandedness) -> bool {
    hand_type_from_web(h) is Some
}

impl WebXrReferenceSpaceType {
    /// Whether the engine has a counterpart for this space type.
    pub fn is_supported(&self) -> (supported: bool)
        ensures
            supported == is_supported_space_type(*self),
            !supported <==> (*self == WebXrReferenceSpaceType::BoundedFloor
                || *self == WebXrReferenceSpaceType::Unbounded),
    {
        match self {
            WebXrReferenceSpaceType::Viewer => true,
            WebXrReferenceSpaceType::Local => true,
            WebXrReferenceSpaceType::LocalFloor => true,
            WebXrReferenceSpaceType::BoundedFloor => false,
            WebXrReferenceSpaceType::Unbounded => false,
        }
    }

    /// The browser space type for an engine space type (stage becomes `local-floor`).
    pub fn xr_from(space_type: XrReferenceSpaceType) -> (web: WebXrReferenceSpaceType)
        ensures
            web == web_space_type(space_type),
            is_supported_space_type(web),
            (space_type == XrReferenceSpaceType::Viewer) == (web == WebXrReferenceSpaceType::Viewer),
            (space_type == XrReferenceSpaceType::Local) == (web == WebXrReferenceSpaceType::Local),
            (space_type == XrReferenceSpaceType::Stage) == (web == WebXrReferenceSpaceType::LocalFloor),
    {
        match space_type {
            XrReferenceSpaceType::Viewer => WebXrReferenceSpaceType::Viewer,
            XrReferenceSpaceType::Local => WebXrReferenceSpaceType::Local,
            XrReferenceSpaceType::Stage => WebXrReferenceSpaceType::LocalFloor,
        }
    }
}

impl XrReferenceSpaceType {
    /// The engine space type for a browser space type that has one
    /// (`local-floor` becomes stage).
    pub fn xr_from(space_type: WebXrReferenceSpaceType) -> (engine: XrReferenceSpaceType)
        requires
            is_supported_space_type(space_type),
        ensures
            space_type_from_web(space_type) == Some(engine),
            (space_type == WebXrReferenceSpaceType::Viewer) == (engine == XrReferenceSpaceType::Viewer),
            (space_type == WebXrReferenceSpaceType::Local) == (engine == XrReferenceSpaceType::Local),
            (space_type == WebXrReferenceSpaceType::LocalFloor) == (engine == XrReferenceSpaceType::Stage),
    {
        match space_type {
            WebXrReferenceSpaceType::Viewer => XrReferenceSpaceType::Viewer,
            WebXrReferenceSpaceType::Local => XrReferenceSpaceType::Local,
            _ => XrReferenceSpaceType::Stage,
        }
    }
}

impl WebXrHandedness {
    /// Whether this handedness names a hand.
    pub fn is_supported(&self) -> (supported: bool)
        ensures
            supported == is_supported_handedness(*self),
            !supported <==> *self == WebXrHandedness::NoHand,
    {
        match self {
            WebXrHandedness::NoHand => false,
            WebXrHandedness::Left => true,
            WebXrHandedness::Right => true,
        }
    }

    /// The browser handedness of an engine hand.
    pub fn xr_from(hand: XrHandType) -> (web: WebXrHandedness)
        ensures
            web == web_handedness(hand),
            is_supported_handedness(web),
            (hand == XrHandType::Left) == (web == WebXrHandedness::Left),
            (hand == XrHandType::Right) == (web == WebXrHandedness::Right),
    {
        match hand {
            XrHandType::Left => WebXrHandedness::Left,
            XrHandType::Right => WebXrHandedness::Right,
        }
    }
}

impl XrHandType {
    /// The engine hand that a browser handedness names.
    pub fn xr_from(handedness: WebXrHandedness) -> (hand: XrHandType)
        requires
            is_supported_handedness(handedness),
        ensures
            hand_type_from_web(handedness) == Some(hand),
            (handedness == WebXrHandedness::Left) == (hand == XrHandType::Left),
            (handedness == WebXrHandedness::Right) == (hand == XrHandType::Right),
    {
        match handedness {
            WebXrHandedness::Left => XrHandType::Left,
            _ => XrHandType::Right,
        }
    }
}

/// Converting an engine space type to the browser's and back gives it unchanged.
pub proof fn lemma_space_type_round_trip(t: XrReferenceSpaceType)
    ensures
        is_supported_space_type(web_space_type(t)),
        space_type_from_web(web_space_type(t)) == Some(t),
{
}

/// Converting a supported browser space type to the engine's and back gives it unchanged.
pub proof fn lemma_web_space_type_round_trip(t: WebXrReferenceSpaceType)
    requires
        is_supported_space_type(t),
    ensures
        web_space_type(space_type_from_web(t).unwrap()) == t,
{
}

/// The browser's `viewer` and `local` spaces are the engine's viewer and local
/// spaces, its `local-floor` space is the engine's stage, and it has no engine
/// counterpart for bounded or unbounded spaces; a left or right hand keeps its side.
pub proof fn lemma_names_keep_their_meaning(t: WebXrReferenceSpaceType, h: WebXrHandedness)
    ensures
        (space_type_from_web(t) == Some(XrReferenceSpaceType::Viewer)) == (t == WebXrReferenceSpaceType::Viewer),
        (space_type_from_web(t) == Some(XrReferenceSpaceType::Local)) == (t == WebXrReferenceSpaceType::Local),
        (space_type_from_web(t) == Some(XrReferenceSpaceType::Stage)) == (t == WebXrReferenceSpaceType::LocalFloor),
        (hand_type_from_web(h) == Some(XrHandType::Left)) == (h == WebXrHandedness::Left),
        (hand_type_from_web(h) == Some(XrHandType::Right)) == (h == WebXrHandedness::Right),
{
}

/// Distinct engine space types go to distinct browser space types.
pub proof fn lemma_web_space_type_injective(a: XrReferenceSpaceType, b: XrReferenceSpaceType)
    requires
        web_space_type(a) == web_space_type(b),
    ensures
        a == b,
{
    lemma_space_type_round_trip(a);
    lemma_space_type_round_trip(b);
}

/// Converting an engine hand to the browser's handedness and back gives it unchanged.
pub proof fn lemma_hand_type_round_trip(h: XrHandType)
    ensures
        is_supported_handedness(web_handedness(h)),
        hand_type_from_web(web_handedness(h)) == Some(h),
{
}

/// Converting a browser handedness that names a hand to the engine's and back gives it unchanged.
pub proof fn lemma_web_handedness_round_trip(h: WebXrHandedness)
    requires
        is_supported_handedness(h),
    ensures
        web_handedness(hand_type_from_web(h).unwrap()) == h,
{
}

} // verus!
