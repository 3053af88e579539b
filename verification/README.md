# utopian

The logic of a Vulkan renderer with a render graph, a path tracer and a
deferred rasterizer, written in Verus and proved against its contracts.

## Layout

- `src/` is the verified library.
  - `graph.rs`: the render graph: cached textures, buffers and pipeline
    descriptions, and the pass builder.
  - `frame.rs`: the barriers and render areas of a frame, planned from the
    accesses every resource was last used with.
  - `prepare.rs`: the pipelines and descriptor sets to create before a frame,
    and the uniform uploads.
  - `renderers.rs`: the graphs of the deferred frame, the forward frame, the
    image based lighting maps and the path tracer. The deferred frame has no
    ambient occlusion pass: the `ssao_output` texture it samples is created
    but never written.
  - `shader.rs`: the descriptor sets and push constants of a pipeline,
    merged over its stages, and the layouts planned from them; the stages
    themselves are read from SPIR-V (with `rspirv-reflect`) in `app/`.
  - `descriptor_set.rs`, `renderer.rs`, `raytracing.rs`: binding lookup,
    bindless slots, acceleration structure instances.
  - `image.rs`, `pipeline.rs`, `synch.rs`, `device.rs`, `vulkan_base.rs`:
    image descriptions, layout transitions, pipeline descriptions, access
    types, device and swapchain choices.
  - `input.rs`, `fps_timer.rs`, `frame_control.rs`: key state, frame rate,
    and the per-frame decisions of the application.
- `tests/` runs the library on concrete values.
- `app/` is the program around the library: the window, the Vulkan objects,
  shader compilation, model loading, the camera and the user interface.
