[package]
name = "bevy_webxr"
version = "0.1.0"
edition = "2021"
publish = false

[dependencies]
bevy_app = "0.9"
bevy_core_pipeline = "0.9"
bevy_ecs = "0.9"
bevy_hierarchy = "0.9"
bevy_log = "0.9"
bevy_math = "0.9"
bevy_render = "0.9"
bevy_transform = "0.9"
bevy_utils = "0.9"
glow = "0.11"
js-sys = "0.3"
openxr = { version = "0.17", default-features = false }
wasm-bindgen = "0.2"
web-sys = { version = "0.3", features = ["DomPointInit", "DomPointReadOnly", "WebGl2RenderingContext", "WebGlFramebuffer", "XrBoundedReferenceSpace", "XrEye", "XrFrame", "XrHand", "XrHandedness", "XrInputSource", "XrInputSourceArray", "XrJointPose", "XrJointSpace", "XrPose", "XrReferenceSpace", "XrReferenceSpaceType", "XrRenderState", "XrRenderStateInit", "XrRigidTransform", "XrSession", "XrSpace", "XrView", "XrViewerPose", "XrWebGlLayer", "XrWebGlLayerInit"] }
wgpu = "0.14"
wgpu-hal = { version = "0.14", features = ["gles"] }
