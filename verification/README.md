# mimiq

A small OpenGL rendering and audio toolkit in the spirit of miniquad, built on
winit, glutin, glow and cpal.

## Layout

- `src/` is the verified core. It decides what the toolkit
  does and leaves the doing to the host:
  - `cache.rs`: the GL state cache. Each request returns the GL commands it
    needs; `gl_state.rs` models what those commands do to a GL context, and
    the cache's laws show that the cache keeps agreeing with that context on
    what it records: bound buffers, program and textures, blending, an
    enabled stencil test, culling and the color mask. Three settings are
    sent to GL but never recorded, so the agreement leaves them out: the
    depth test, the front-face order, and a stencil test being turned off
    (after which the cache still believes it on). `pipeline.rs` states what
    making a pipeline current leaves in GL for each of them.
  - `GlCache::reset` forgets everything the cache holds and turns blending,
    the stencil test and culling off and writes all color channels, so that
    the cache agrees with the context again whatever was done to it; the
    host runs it on every redraw before the handler draws. The host's GL error check
    logs an error found after a call rather than failing.
  - `pipeline.rs`, `vertex.rs`, `uniform.rs`, `render_pass.rs`: making a
    pipeline current, describing vertex layouts, splitting uniform data into
    uploads, framebuffer attachments and clear masks.
  - `pipeline_params.rs`, `texture.rs`, `buffer.rs`, `gl.rs`: the parameter
    enums and the GL enumerants they map to; `texture.rs` also chooses the
    format an image is uploaded in and turns its rows upside down, as GL
    expects row 0 at the bottom.
  - `audio.rs`: WAV sample normalisation, sound buffer and playback slot
    allocation, and playback cursors and the commands that move them.
  - `frame.rs`, `debug.rs`, `error.rs`, `fs.rs`, `color.rs`: the steps taken
    for each window event, GL debug message classification, GL error checks,
    HTTP status classification and hex colors.
- `app/` is the host: windowing, GL context creation, the glow calls that
  carry out the core's commands, floating-point data (colors, clear values,
  volumes) and the audio stream.
- `tests/` exercises the core on concrete values.

## Limits

Plain `f32` values have no uniform type and no vertex field type: the core
holds no floating point, so it cannot implement `UniformVal` or
`VertexFieldTy` for `f32`, and the host crate cannot either (Rust's orphan
rule). Use a `glam` vector or matrix, or `Color`, for float fields; a single
float uniform can be declared as a field of type `glam::Vec2` and the
unused component ignored, or written into a `UniformField` by hand with
`UniformType::F32`.
