# bevy_webxr

WebXR support for the engine, in two parts.

- `src/` is the verified library: the browser's and the engine's enumerations
  for reference spaces, handedness and eyes with the conversions between them
  (`conversion`), the tracking source's answers given what the browser reported
  for a frame (`tracking`), and the stereo layout of the two eye cameras that
  share the browser's framebuffer (`pawn`).
- `app/` holds what talks to the browser, the GPU and the OpenXR runtime: the
  plugin and its systems, the animation-frame runner, the framebuffer texture,
  the conversions of floating point poses, and the OpenXR refresh-rate and
  performance requests. The browser's XR interfaces in `web-sys` exist only
  when built with `--cfg=web_sys_unstable_apis` for a WebAssembly target.
