# xplm_egui

Building blocks for X-Plane plugins whose user interface is drawn with egui.

- `src/` is the verified library (Verus). It holds the decisions between X-Plane's
  plugin API, egui and OpenGL: screen and window geometry and the conversion between
  screen space, window space and egui coordinates; window layers, decorations, cursors
  and resizing limits; the decoding of X-Plane's keyboard, mouse and wheel callbacks;
  the translation of those events into egui input; graphics state records; inter-plugin
  messages; OpenGL texture codes, scissor boxes and error names; and typed datarefs that
  convert their payload element by element.
- `app/` is the host side in ordinary Rust: every call into X-Plane's SDK (`xplm-sys`) and
  OpenGL (`glow`), the egui runtime, the window and draw-callback registries that hold raw
  handles, and the floating-point unit conversions. It asks the library for every decision.
- `tests/` exercises the library on concrete values.
