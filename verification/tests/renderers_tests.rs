use utopian::graph::{
    AttachmentLoadOp, DepthAttachment, Graph, RenderCommand, Resource, ViewType,
    BUFFER_USAGE_STORAGE_BUFFER,
};
use utopian::image::{
    ImageDesc, ImageType, FORMAT_B8G8R8A8_UNORM, FORMAT_D32_SFLOAT, FORMAT_R32G32B32A32_SFLOAT,
    FORMAT_R8_UNORM,
};
use utopian::pipeline::PipelineType;
use utopian::renderers::{
    build_minimal_forward_render_graph, build_path_tracing_render_graph, build_render_graph,
    create_gbuffer_textures, create_shadowmap_texture, decimal_string, setup_cubemap_pass,
    setup_marching_cubes_pass, setup_rt_shadows_pass, setup_shadow_pass, FrameUniforms,
    RenderFeatures, MARCHING_CUBES_VERTEX_BYTES,
};

fn depth() -> ImageDesc {
    ImageDesc::new_2d(1280, 720, FORMAT_D32_SFLOAT)
}

fn names(graph: &Graph) -> Vec<String> {
    graph.passes.iter().map(|p| p.name.clone()).collect()
}

fn cascades() -> Vec<Vec<u8>> {
    (0..4).map(|i| vec![i as u8; 64]).collect()
}

fn faces() -> Vec<Vec<u8>> {
    (0..6).map(|i| vec![i as u8; 128]).collect()
}

#[test]
fn decimal_strings() {
    assert_eq!(decimal_string(0), "0");
    assert_eq!(decimal_string(7), "7");
    assert_eq!(decimal_string(10), "10");
    assert_eq!(decimal_string(4096), "4096");
    assert_eq!(decimal_string(u32::MAX), "4294967295");
}

#[test]
fn gbuffer_and_shadow_map_textures() {
    let mut graph = Graph::new();
    let (p, n, a, m) = create_gbuffer_textures(&mut graph, 320, 200);
    assert_eq!((p, n, a, m), (0, 1, 2, 3));
    assert_eq!(graph.resources.textures[2].name, "gbuffer_albedo");
    assert_eq!(graph.resources.textures[3].desc.format, FORMAT_R32G32B32A32_SFLOAT);
    let s = create_shadowmap_texture(&mut graph);
    assert_eq!(s, 4);
    let d = graph.resources.textures[s].desc;
    assert_eq!((d.width, d.height, d.array_layers), (4096, 4096, 4));
    assert_eq!(d.image_type, ImageType::Tex2dArray);
    // a second frame finds the same textures
    assert_eq!(create_gbuffer_textures(&mut graph, 320, 200), (0, 1, 2, 3));
    assert_eq!(graph.resources.textures.len(), 5);
}

#[test]
fn ray_traced_shadows_only_when_enabled() {
    let mut graph = Graph::new();
    let (p, n, _, _) = create_gbuffer_textures(&mut graph, 320, 200);
    let off = setup_rt_shadows_pass(&mut graph, p, n, 320, 200, false);
    assert_eq!(graph.passes.len(), 0);
    assert_eq!(graph.resources.textures[off].desc.format, FORMAT_R8_UNORM);
    let on = setup_rt_shadows_pass(&mut graph, p, n, 320, 200, true);
    assert_eq!(on, off);
    assert_eq!(names(&graph), vec!["rt_shadows_pass".to_string()]);
    let pass = &graph.passes[0];
    assert_eq!(pass.render_command, RenderCommand::TraceRays(320, 200, 1));
    assert_eq!(pass.reads.len(), 4);
    assert!(matches!(pass.reads[0], Resource::Tlas(0)));
    let pipeline = &graph.pipeline_descs[pass.pipeline_handle];
    assert_eq!(pipeline.pipeline_type(), PipelineType::Raytracing);
    assert_eq!(pipeline.miss_path.as_deref(), Some("utopian/shaders/rt_shadows/rt_shadows.rmiss"));
}

#[test]
fn one_shadow_pass_per_cascade() {
    let mut graph = Graph::new();
    let shadow_map = create_shadowmap_texture(&mut graph);
    setup_shadow_pass(&mut graph, shadow_map, &cascades(), true);
    assert_eq!(
        names(&graph),
        vec!["shadow_pass_0", "shadow_pass_1", "shadow_pass_2", "shadow_pass_3"]
    );
    for (i, pass) in graph.passes.iter().enumerate() {
        match pass.depth_attachment {
            Some(DepthAttachment::GraphHandle(a)) => {
                assert_eq!(a.texture, shadow_map);
                assert_eq!(a.view, ViewType::Layer(i as u32));
            }
            _ => panic!("each cascade renders to its layer"),
        }
        assert_eq!(pass.render_command, RenderCommand::DrawMeshes);
        assert_eq!(pass.uniforms[0].data.data[0], i as u8);
    }
    // one shared pipeline, one uniform buffer per cascade
    assert!(graph.passes.iter().all(|p| p.pipeline_handle == graph.passes[0].pipeline_handle));
    assert_eq!(graph.pipeline_descs.len(), 1);
    assert_eq!(graph.resources.buffers.len(), 4);
    assert_eq!(graph.resources.buffers[2].name, "shadow_pass_2_cascade_view_projection");
    let mut disabled = Graph::new();
    let shadow_map = create_shadowmap_texture(&mut disabled);
    setup_shadow_pass(&mut disabled, shadow_map, &cascades(), false);
    assert_eq!(disabled.passes[0].render_command, RenderCommand::Nothing);
}

#[test]
fn image_based_lighting_passes() {
    let mut graph = Graph::new();
    let (env, irradiance, specular, brdf) = setup_cubemap_pass(&mut graph, &faces(), true);
    assert_eq!((env, irradiance, specular, brdf), (0, 1, 2, 4));
    assert_eq!(graph.resources.textures[env].desc.mip_levels, 8);
    assert_eq!(graph.resources.textures[irradiance].desc.mip_levels, 1);
    assert_eq!(graph.passes.len(), 103);
    assert_eq!(graph.passes[0].name, "cubemap_pass_layer_0_mip_0");
    assert_eq!(graph.passes[47].name, "cubemap_pass_layer_5_mip_7");
    assert_eq!(graph.passes[47].render_command, RenderCommand::FullscreenViewport(4));
    let copy = graph.passes[47].copy_command.expect("faces are copied");
    assert_eq!((copy.src, copy.dst), (3, env));
    assert_eq!(copy.copy_desc.dst_subresource.mip_level, 7);
    assert_eq!(copy.copy_desc.dst_subresource.base_array_layer, 5);
    assert_eq!(copy.copy_desc.extent.width, 4);
    assert_eq!(graph.passes[50].name, "irradiance_filter_pass_layer_2");
    assert_eq!(graph.passes[50].writes[0].view, ViewType::Layer(2));
    assert_eq!(graph.passes[50].uniforms[0].data.data[0], 2);
    assert_eq!(graph.passes[61].name, "specular_filter_pass_layer_1_mip_1");
    assert_eq!(graph.passes[61].render_command, RenderCommand::PrefilterMip(256, 1, 8));
    assert_eq!(graph.passes[102].name, "brdf_lut_pass");
    assert!(graph.passes[102].uniforms.is_empty());
    assert_eq!(graph.resources.buffers.len(), 102);
    // a description is compared in full, attachment formats included, and a
    // built pass has set the formats of its description: every pass that
    // starts from a fresh description gets one of its own
    assert_eq!(graph.pipeline_descs.len(), 103);

    let mut cached = Graph::new();
    setup_cubemap_pass(&mut cached, &faces(), false);
    assert_eq!(cached.passes.len(), 0);
    assert_eq!(cached.resources.textures.len(), 5);

    // without an update the face parameters are not needed
    let mut bare = Graph::new();
    setup_cubemap_pass(&mut bare, &Vec::new(), false);
    assert_eq!(bare.passes.len(), 0);
    assert_eq!(bare.resources.textures.len(), 5);
}

#[test]
fn marching_cubes_passes() {
    let mut graph = Graph::new();
    let output = graph.create_texture("deferred_output", ImageDesc::new_2d(8, 8, FORMAT_R32G32B32A32_SFLOAT));
    let shadow_map = create_shadowmap_texture(&mut graph);
    setup_marching_cubes_pass(&mut graph, depth(), output, shadow_map, &[1, 2, 3], &[4; 32], true);
    assert_eq!(
        names(&graph),
        vec!["marching_cubes_reset_counter_pass", "marching_cubes_pass", "marching_cubes_forward_pass"]
    );
    assert_eq!(graph.resources.buffers[0].size, MARCHING_CUBES_VERTEX_BYTES);
    assert_eq!(graph.resources.buffers[1].size, 16);
    assert_eq!(graph.passes[1].render_command, RenderCommand::Dispatch(32, 32, 32));
    assert_eq!(graph.passes[2].render_command, RenderCommand::DrawIndirect(0, 1));
    assert_eq!(graph.passes[2].extra_barriers.as_ref().map(|b| b.len()), Some(2));
    assert_eq!(graph.passes[2].writes[0].load_op, AttachmentLoadOp::Load);
}

#[test]
fn path_tracing_graph() {
    let mut graph = Graph::new();
    build_path_tracing_render_graph(&mut graph, 100, 50, depth());
    assert_eq!(
        names(&graph),
        vec![
            "gbuffer_pass",
            "reset_reservoirs_pass",
            "initial_ris_pass",
            "temporal_reuse_pass",
            "spatial_reuse_pass",
            "reference_pt_pass",
            "reference_pt_present_pass",
        ]
    );
    assert_eq!(graph.resources.textures[0].desc.format, FORMAT_B8G8R8A8_UNORM);
    assert_eq!(graph.resources.buffers.len(), 3);
    assert_eq!(graph.resources.buffers[0].size, 100 * 50 * 16);
    assert_eq!(graph.resources.buffers[0].usage, BUFFER_USAGE_STORAGE_BUFFER);
    assert_eq!(graph.passes[1].render_command, RenderCommand::Dispatch(7, 4, 1));
    assert!(graph.passes[6].presentation_pass);
    // the next frame reuses every resource
    graph.clear();
    build_path_tracing_render_graph(&mut graph, 100, 50, depth());
    assert_eq!(graph.resources.textures.len(), 6);
    assert_eq!(graph.resources.buffers.len(), 3);
    assert_eq!(graph.passes.len(), 7);
}

fn uniforms() -> FrameUniforms {
    FrameUniforms {
        cascade_view_projections: cascades(),
        cascade_data: vec![0; 272],
        cube_face_params: faces(),
        marching_cubes: vec![0; 200],
        atmosphere: vec![0; 128],
        fxaa_settings: vec![0; 16],
    }
}

#[test]
fn deferred_graph() {
    let features = RenderFeatures {
        shadows_enabled: true,
        raytracing_supported: true,
        marching_cubes_enabled: true,
        need_environment_map_update: false,
    };
    let mut graph = Graph::new();
    build_render_graph(&mut graph, 64, 64, depth(), features, &uniforms());
    let n = names(&graph);
    assert_eq!(n.len(), 4 + 1 + 1 + 1 + 1 + 3 + 1 + 1);
    assert_eq!(&n[0..4], &["shadow_pass_0", "shadow_pass_1", "shadow_pass_2", "shadow_pass_3"]);
    assert_eq!(n[4], "rt_shadows_pass");
    assert_eq!(n[5], "gbuffer_pass");
    assert_eq!(n[6], "rt_reflections_pass");
    assert_eq!(n[7], "deferred_pass");
    assert_eq!(n[11], "atmosphere_pass");
    assert_eq!(n[12], "present_pass");
    assert!(graph.passes[12].presentation_pass);

    let mut minimal = Graph::new();
    build_render_graph(
        &mut minimal,
        64,
        64,
        depth(),
        RenderFeatures {
            shadows_enabled: false,
            raytracing_supported: false,
            marching_cubes_enabled: false,
            need_environment_map_update: true,
        },
        &uniforms(),
    );
    // the environment maps are rendered, nothing is ray traced
    assert_eq!(minimal.passes.len(), 4 + 1 + 103 + 1 + 1 + 1);
    assert_eq!(minimal.passes[0].render_command, RenderCommand::Nothing);
}

#[test]
fn minimal_forward_graph() {
    let mut graph = Graph::new();
    build_minimal_forward_render_graph(&mut graph, 64, 64, depth(), true, &cascades(), &[0; 256], &[0; 16]);
    assert_eq!(
        names(&graph),
        vec!["shadow_pass_0", "shadow_pass_1", "shadow_pass_2", "shadow_pass_3", "forward_pass", "present_pass"]
    );
    assert_eq!(graph.resources.textures[0].name, "forward_output");
    assert_eq!(graph.resources.textures[1].name, "shadow_map");
    let forward = &graph.pipeline_descs[graph.passes[4].pipeline_handle];
    assert_eq!(forward.depth_stencil_attachment_format, FORMAT_D32_SFLOAT);
    assert_eq!(forward.color_attachment_formats, vec![FORMAT_R32G32B32A32_SFLOAT]);
}
