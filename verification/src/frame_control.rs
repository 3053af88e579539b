use vstd::prelude::*;

use crate::paths::{chars_are, extension_of, path_extension};

verus! {

/// What the application keeps from one frame to the next.
#[derive(Clone, Copy, Debug, PartialEq, Eq, Structural)]
pub struct FrameState {
    /// The path tracer renders, instead of the rasterizer.
    pub raytracing_enabled: bool,
    /// The profiler is shown and records.
    pub profiling_enabled: bool,
    /// The profiler's recording is paused; what it recorded stays shown.
    pub profiler_paused: bool,
    /// Samples per pixel the path tracer has accumulated.
    pub total_samples: u32,
    /// The image based lighting maps must be rendered again.
    pub need_environment_map_update: bool,
}

/// What happened since the previous frame.
pub struct FrameEvents {
    /// The user interface changed what the accumulated samples depend on:
    /// samples per frame, bounces, the sun, or a moved object.
    pub restart_accumulation: bool,
    /// The key that toggles path tracing went down.
    pub toggle_raytracing: bool,
    /// The key that selects path tracing went down.
    pub select_path_tracing: bool,
    /// The key that selects the rasterizer went down.
    pub select_rasterization: bool,
    /// The device can trace rays.
    pub raytracing_supported: bool,
    /// The path of a shader file that changed on disk, its components
    /// separated by `/`.
    pub modified_shader: Option<String>,
    /// The key that toggles profiling went down.
    pub toggle_profiling: bool,
    /// The key that pauses and resumes the profiler went down.
    pub toggle_profiler_pause: bool,
    /// The camera moved.
    pub camera_moved: bool,
    /// Samples the path tracer takes per pixel and frame.
    pub samples_per_frame: u32,
}

/// The shaders to compile again.
pub enum ShaderReload {
    Nothing,
    /// An included file changed: every shader.
    All,
    /// The shader at this path.
    One(String),
}

/// Which graph the frame renders.
#[derive(Clone, Copy, Debug, PartialEq, Eq, Structural)]
pub enum FrameGraphKind {
    PathTracing,
    Rasterized,
}

/// What the application does this frame.
pub struct FrameActions {
    pub shader_reload: ShaderReload,
    /// The ray tracing pipeline is created again.
    pub recreate_raytracing_pipeline: bool,
    /// The profiler's scopes are switched to this value: they record while
    /// profiling is on and not paused.
    pub set_profiler_scopes: Option<bool>,
    pub graph: FrameGraphKind,
}

/// Whether the extension is that of an included file.
pub open spec fn is_include_extension(ext: Seq<char>) -> bool {
    ext == "glsl"@
}

/// Whether the extension is that of a ray tracing shader.
pub open spec fn is_raytracing_extension(ext: Seq<char>) -> bool {
    ext == "rchit"@ || ext == "rgen"@ || ext == "rmiss"@
}

/// A key that chooses the renderer went down.
pub open spec fn renderer_key(events: FrameEvents) -> bool {
    events.toggle_raytracing || events.select_path_tracing || events.select_rasterization
}

/// The path tracer's samples restart from zero.
pub open spec fn accumulation_restarts(events: FrameEvents) -> bool {
    events.restart_accumulation || renderer_key(events) || events.modified_shader is Some
        || events.camera_moved
}

/// Whether the path tracer renders after the frame: selecting it turns it
/// on where the device traces rays, selecting the rasterizer turns it off,
/// and the toggle switches it (on only where the device traces rays).
pub open spec fn next_raytracing(state: FrameState, events: FrameEvents) -> bool {
    if events.select_path_tracing {
        events.raytracing_supported
    } else if events.select_rasterization {
        false
    } else if events.toggle_raytracing {
        !state.raytracing_enabled && events.raytracing_supported
    } else {
        state.raytracing_enabled
    }
}

pub open spec fn next_profiling(state: FrameState, events: FrameEvents) -> bool {
    if events.toggle_profiling {
        !state.profiling_enabled
    } else {
        state.profiling_enabled
    }
}

pub open spec fn next_paused(state: FrameState, events: FrameEvents) -> bool {
    if events.toggle_profiler_pause {
        !state.profiler_paused
    } else {
        state.profiler_paused
    }
}

/// The samples after the frame: zero after a restart, then the frame's
/// own when the path tracer renders.
pub open spec fn next_total_samples(state: FrameState, events: FrameEvents) -> int {
    (if accumulation_restarts(events) {
        0
    } else {
        state.total_samples as int
    }) + (if next_raytracing(state, events) {
        events.samples_per_frame as int
    } else {
        0
    })
}

/// The state after a frame.
pub open spec fn next_state(state: FrameState, events: FrameEvents) -> FrameState {
    let raytracing = next_raytracing(state, events);
    FrameState {
        raytracing_enabled: raytracing,
        profiling_enabled: next_profiling(state, events),
        profiler_paused: next_paused(state, events),
        total_samples: next_total_samples(state, events) as u32,
        need_environment_map_update: state.need_environment_map_update && raytracing,
    }
}

/// Whether the samples after the frame fit a `u32`, as `step_frame` needs.
pub fn samples_fit(state: FrameState, events: &FrameEvents) -> (r: bool)
    ensures
        r == (next_total_samples(state, *events) <= u32::MAX),
{
    let restart = events.restart_accumulation || events.toggle_raytracing || events.select_path_tracing
        || events.select_rasterization || events.modified_shader.is_some() || events.camera_moved;
    let raytracing = if events.select_path_tracing {
        events.raytracing_supported
    } else if events.select_rasterization {
        false
    } else if events.toggle_raytracing {
        !state.raytracing_enabled && events.raytracing_supported
    } else {
        state.raytracing_enabled
    };
    let base: u64 = if restart { 0 } else { state.total_samples as u64 };
    let added: u64 = if raytracing { events.samples_per_frame as u64 } else { 0 };
    base + added <= u32::MAX as u64
}

/// Decides a frame: the renderer is chosen (path tracing is selected,
/// rasterization is selected, or the choice is toggled; the path tracer can
/// only be turned on where the device traces rays), profiling is toggled
/// and its recording paused or resumed, changed shaders are
/// compiled again (all of them when an included file changed, and the ray
/// tracing pipeline as well for an included file or a ray tracing shader),
/// and the graph of the chosen renderer is built. The accumulated samples
/// restart after any change and grow while the path tracer renders; the
/// rasterizer renders the image based lighting maps when it builds its graph,
/// so they need no update after it.
pub fn step_frame(state: FrameState, events: &FrameEvents) -> (r: (FrameState, FrameActions))
    requires
        next_total_samples(state, *events) <= u32::MAX,
    ensures
        r.0 == next_state(state, *events),
        r.1.graph == if r.0.raytracing_enabled {
            FrameGraphKind::PathTracing
        } else {
            FrameGraphKind::Rasterized
        },
        r.1.set_profiler_scopes == if events.toggle_profiling || events.toggle_profiler_pause {
            Some(r.0.profiling_enabled && !r.0.profiler_paused)
        } else {
            None
        },
        match events.modified_shader {
            None => r.1.shader_reload is Nothing && !r.1.recreate_raytracing_pipeline,
            Some(path) => match path_extension(path@) {
                None => r.1.shader_reload is Nothing && !r.1.recreate_raytracing_pipeline,
                Some(ext) => {
                    &&& is_include_extension(ext) ==> r.1.shader_reload is All
                    &&& !is_include_extension(ext) ==> (r.1.shader_reload matches ShaderReload::One(p)
                        && p@ == path@)
                    &&& r.1.recreate_raytracing_pipeline == (is_include_extension(ext)
                        || is_raytracing_extension(ext))
                },
            },
        },
{
    let restart = events.restart_accumulation || events.toggle_raytracing || events.select_path_tracing
        || events.select_rasterization || events.modified_shader.is_some() || events.camera_moved;
    let raytracing = if events.select_path_tracing {
        events.raytracing_supported
    } else if events.select_rasterization {
        false
    } else if events.toggle_raytracing {
        !state.raytracing_enabled && events.raytracing_supported
    } else {
        state.raytracing_enabled
    };
    let (shader_reload, recreate_raytracing_pipeline) = match &events.modified_shader {
        None => (ShaderReload::Nothing, false),
        Some(path) => match extension_of(path.as_str()) {
            None => (ShaderReload::Nothing, false),
            Some(ext) => {
                let included_file = chars_are(&ext, "glsl");
                let rt_shader = chars_are(&ext, "rchit") || chars_are(&ext, "rgen")
                    || chars_are(&ext, "rmiss");
                if included_file {
                    (ShaderReload::All, true)
                } else {
                    (ShaderReload::One(path.clone()), rt_shader)
                }
            },
        },
    };
    let profiling_enabled = if events.toggle_profiling {
        !state.profiling_enabled
    } else {
        state.profiling_enabled
    };
    let profiler_paused = if events.toggle_profiler_pause {
        !state.profiler_paused
    } else {
        state.profiler_paused
    };
    let mut total_samples: u32 = if restart {
        0
    } else {
        state.total_samples
    };
    if raytracing {
        total_samples = total_samples + events.samples_per_frame;
    }
    let next = FrameState {
        raytracing_enabled: raytracing,
        profiling_enabled,
        profiler_paused,
        total_samples,
        need_environment_map_update: state.need_environment_map_update && raytracing,
    };
    let actions = FrameActions {
        shader_reload,
        recreate_raytracing_pipeline,
        set_profiler_scopes: if events.toggle_profiling || events.toggle_profiler_pause {
            Some(profiling_enabled && !profiler_paused)
        } else {
            None
        },
        graph: if raytracing {
            FrameGraphKind::PathTracing
        } else {
            FrameGraphKind::Rasterized
        },
    };
    (next, actions)
}

} // verus!
