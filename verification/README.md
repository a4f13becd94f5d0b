# azure_engine

The lowest layer of the Azure platform: a Wayland client that speaks the
binary wire protocol by hand, and a CPU software renderer.

- `src/` is verified with Verus.
  - `platform::wayland::wire`: little-endian words, message headers, padded
    string arguments.
  - `platform::wayland::managers`: every request the client sends, the
    order in which a window is set up and shown, and the handling of each
    event during discovery, while waiting for the first configure, and in
    the running event loop.
  - `platform::wayland::models`: the registry of globals, object ids, shared
    memory handles, window events.
  - `rendering`: canvas, colors, pixel addressing, alpha blending,
    rectangles, axis-aligned lines, the straight part of rounded rectangles,
    glyph metrics read with `ttf_parser`, and contour assembly for outlines.
- `app/` holds what talks to the system (the socket, `memfd`/`mmap`, font
  files) and the rasterizers that work in `f32` (anti-aliased circles and
  lines, gradients, glyph flattening and coverage).
- `tests/` exercises the library on concrete values.
