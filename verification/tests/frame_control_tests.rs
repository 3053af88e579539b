use utopian::frame_control::{samples_fit, step_frame, FrameEvents, FrameGraphKind, FrameState, ShaderReload};

fn idle_state() -> FrameState {
    FrameState {
        raytracing_enabled: false,
        profiling_enabled: false,
        profiler_paused: false,
        total_samples: 0,
        need_environment_map_update: true,
    }
}

fn quiet_events() -> FrameEvents {
    FrameEvents {
        restart_accumulation: false,
        toggle_raytracing: false,
        select_path_tracing: false,
        select_rasterization: false,
        raytracing_supported: true,
        modified_shader: None,
        toggle_profiling: false,
        toggle_profiler_pause: false,
        camera_moved: false,
        samples_per_frame: 4,
    }
}

#[test]
fn rasterizer_frame_keeps_state() {
    let (next, actions) = step_frame(idle_state(), &quiet_events());
    assert!(!next.raytracing_enabled);
    assert_eq!(next.total_samples, 0);
    assert!(!next.need_environment_map_update);
    assert_eq!(actions.graph, FrameGraphKind::Rasterized);
    assert!(matches!(actions.shader_reload, ShaderReload::Nothing));
    assert!(!actions.recreate_raytracing_pipeline);
    assert_eq!(actions.set_profiler_scopes, None);
}

#[test]
fn toggle_turns_path_tracing_on_and_samples_accumulate() {
    let mut events = quiet_events();
    events.toggle_raytracing = true;
    let (on, actions) = step_frame(idle_state(), &events);
    assert!(on.raytracing_enabled);
    assert_eq!(actions.graph, FrameGraphKind::PathTracing);
    assert_eq!(on.total_samples, 4);
    assert!(on.need_environment_map_update);

    let (later, _) = step_frame(on, &quiet_events());
    assert_eq!(later.total_samples, 8);
    let (later, _) = step_frame(later, &quiet_events());
    assert_eq!(later.total_samples, 12);
}

#[test]
fn toggle_without_support_stays_rasterized() {
    let mut events = quiet_events();
    events.toggle_raytracing = true;
    events.raytracing_supported = false;
    let (next, actions) = step_frame(idle_state(), &events);
    assert!(!next.raytracing_enabled);
    assert_eq!(actions.graph, FrameGraphKind::Rasterized);
}

#[test]
fn toggle_turns_path_tracing_off() {
    let state = FrameState {
        raytracing_enabled: true,
        profiling_enabled: false,
        profiler_paused: false,
        total_samples: 100,
        need_environment_map_update: false,
    };
    let mut events = quiet_events();
    events.toggle_raytracing = true;
    let (next, actions) = step_frame(state, &events);
    assert!(!next.raytracing_enabled);
    assert_eq!(next.total_samples, 0);
    assert_eq!(actions.graph, FrameGraphKind::Rasterized);
}

#[test]
fn camera_motion_restarts_accumulation() {
    let state = FrameState {
        raytracing_enabled: true,
        profiling_enabled: false,
        profiler_paused: false,
        total_samples: 100,
        need_environment_map_update: false,
    };
    let mut events = quiet_events();
    events.camera_moved = true;
    let (next, _) = step_frame(state, &events);
    assert_eq!(next.total_samples, 4);

    let mut events = quiet_events();
    events.restart_accumulation = true;
    events.samples_per_frame = 1;
    let (next, _) = step_frame(state, &events);
    assert_eq!(next.total_samples, 1);
}

#[test]
fn profiling_toggle_reports_new_value() {
    let mut events = quiet_events();
    events.toggle_profiling = true;
    let (next, actions) = step_frame(idle_state(), &events);
    assert!(next.profiling_enabled);
    assert_eq!(actions.set_profiler_scopes, Some(true));
    let (next, actions) = step_frame(next, &events);
    assert!(!next.profiling_enabled);
    assert_eq!(actions.set_profiler_scopes, Some(false));
}

#[test]
fn included_file_reloads_every_shader() {
    let mut events = quiet_events();
    events.modified_shader = Some("shaders/include/pbr_lighting.glsl".to_string());
    let (_, actions) = step_frame(idle_state(), &events);
    assert!(matches!(actions.shader_reload, ShaderReload::All));
    assert!(actions.recreate_raytracing_pipeline);
}

#[test]
fn raytracing_shader_reloads_itself_and_the_pipeline() {
    let mut events = quiet_events();
    events.modified_shader = Some("shaders/pathtrace_reference/reference.rgen".to_string());
    let (_, actions) = step_frame(idle_state(), &events);
    match actions.shader_reload {
        ShaderReload::One(p) => assert_eq!(p, "shaders/pathtrace_reference/reference.rgen"),
        _ => panic!("expected one shader"),
    }
    assert!(actions.recreate_raytracing_pipeline);
}

#[test]
fn fragment_shader_reloads_only_itself() {
    let state = FrameState {
        raytracing_enabled: true,
        profiling_enabled: false,
        profiler_paused: false,
        total_samples: 40,
        need_environment_map_update: false,
    };
    let mut events = quiet_events();
    events.modified_shader = Some("shaders/forward/forward.frag".to_string());
    let (next, actions) = step_frame(state, &events);
    match actions.shader_reload {
        ShaderReload::One(p) => assert_eq!(p, "shaders/forward/forward.frag"),
        _ => panic!("expected one shader"),
    }
    assert!(!actions.recreate_raytracing_pipeline);
    assert_eq!(next.total_samples, 4);
}

#[test]
fn file_without_extension_reloads_nothing() {
    let mut events = quiet_events();
    events.modified_shader = Some("shaders/README".to_string());
    let (_, actions) = step_frame(idle_state(), &events);
    assert!(matches!(actions.shader_reload, ShaderReload::Nothing));
    assert!(!actions.recreate_raytracing_pipeline);
}

#[test]
fn number_keys_select_the_renderer() {
    let mut events = quiet_events();
    events.select_path_tracing = true;
    let (on, actions) = step_frame(idle_state(), &events);
    assert!(on.raytracing_enabled);
    assert_eq!(actions.graph, FrameGraphKind::PathTracing);
    assert_eq!(on.total_samples, 4);
    // selecting the path tracer again restarts its samples
    let (again, _) = step_frame(on, &events);
    assert!(again.raytracing_enabled);
    assert_eq!(again.total_samples, 4);

    let mut events = quiet_events();
    events.select_rasterization = true;
    let (off, actions) = step_frame(on, &events);
    assert!(!off.raytracing_enabled);
    assert_eq!(off.total_samples, 0);
    assert_eq!(actions.graph, FrameGraphKind::Rasterized);

    let mut events = quiet_events();
    events.select_path_tracing = true;
    events.raytracing_supported = false;
    let (still_off, _) = step_frame(idle_state(), &events);
    assert!(!still_off.raytracing_enabled);
}

#[test]
fn space_pauses_the_profiler() {
    let mut events = quiet_events();
    events.toggle_profiling = true;
    let (profiling, actions) = step_frame(idle_state(), &events);
    assert_eq!(actions.set_profiler_scopes, Some(true));

    let mut events = quiet_events();
    events.toggle_profiler_pause = true;
    let (paused, actions) = step_frame(profiling, &events);
    assert!(paused.profiling_enabled && paused.profiler_paused);
    assert_eq!(actions.set_profiler_scopes, Some(false));

    let (resumed, actions) = step_frame(paused, &events);
    assert!(!resumed.profiler_paused);
    assert_eq!(actions.set_profiler_scopes, Some(true));
}

#[test]
fn samples_fit_unless_they_overflow() {
    let full = FrameState {
        raytracing_enabled: true,
        profiling_enabled: false,
        profiler_paused: false,
        total_samples: u32::MAX - 2,
        need_environment_map_update: false,
    };
    assert!(!samples_fit(full, &quiet_events()));
    let mut events = quiet_events();
    events.camera_moved = true;
    assert!(samples_fit(full, &events));
    events.camera_moved = false;
    events.samples_per_frame = 2;
    assert!(samples_fit(full, &events));
}
