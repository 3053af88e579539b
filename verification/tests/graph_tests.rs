use utopian::frame::{pass_descriptor_bindings, BoundSet};
use utopian::graph::{
    AttachmentLoadOp, Graph, MemoryLocation, RenderCommand, Resource, ViewType,
    BUFFER_USAGE_STORAGE_BUFFER, BUFFER_USAGE_UNIFORM_BUFFER,
};
use utopian::image::{
    ImageDesc, FORMAT_D32_SFLOAT, FORMAT_R16G16_SFLOAT, FORMAT_R32G32B32A32_SFLOAT,
    FORMAT_R8G8B8A8_UNORM, FORMAT_R8_UNORM,
};
use utopian::pipeline::{PipelineDesc, PipelineType};
use utopian::synch::{AccessType, BarrierTarget};

fn desc(format: i32) -> ImageDesc {
    ImageDesc::new_2d(64, 32, format)
}

#[test]
fn textures_are_created_once_per_name() {
    let mut graph = Graph::new();
    let a = graph.create_texture("color", desc(FORMAT_R8G8B8A8_UNORM));
    let b = graph.create_texture("depth", desc(FORMAT_D32_SFLOAT));
    let again = graph.create_texture("color", desc(FORMAT_R8_UNORM));
    assert_eq!((a, b, again), (0, 1, 0));
    assert_eq!(graph.resources.textures.len(), 2);
    // the first description stays
    assert_eq!(graph.resources.textures[0].desc.format, FORMAT_R8G8B8A8_UNORM);
    assert_eq!(graph.resources.textures[0].prev_access, AccessType::Nothing);
}

#[test]
fn buffers_are_created_once_per_name() {
    let mut graph = Graph::new();
    let a = graph.create_buffer("lights", 256, BUFFER_USAGE_STORAGE_BUFFER, MemoryLocation::GpuOnly);
    let again = graph.create_buffer("lights", 512, BUFFER_USAGE_UNIFORM_BUFFER, MemoryLocation::CpuToGpu);
    assert_eq!((a, again), (0, 0));
    assert_eq!(graph.resources.buffers.len(), 1);
    assert_eq!(graph.resources.buffers[0].size, 256);
}

#[test]
fn equal_pipeline_descriptions_share_a_pipeline() {
    let mut graph = Graph::new();
    let a = graph.create_pipeline(PipelineDesc::builder().compute_path("a.comp").build());
    let b = graph.create_pipeline(PipelineDesc::builder().compute_path("b.comp").build());
    let again = graph.create_pipeline(PipelineDesc::builder().compute_path("a.comp").build());
    assert_eq!((a, b, again), (0, 1, 0));
    assert_eq!(graph.pipeline_descs.len(), 2);
    assert_eq!(graph.pipeline_descs[1].pipeline_type(), PipelineType::Compute);
}

#[test]
fn pipeline_types() {
    assert_eq!(PipelineDesc::builder().vertex_path("a.vert").build().pipeline_type(), PipelineType::Graphics);
    assert_eq!(
        PipelineDesc::builder().raygen_path("a.rgen").compute_path("a.comp").build().pipeline_type(),
        PipelineType::Raytracing
    );
}

#[test]
fn uniforms_are_kept_under_the_pass_name() {
    let mut graph = Graph::new();
    let pass = graph
        .add_pass_from_desc("lighting", PipelineDesc::builder().vertex_path("a.vert"))
        .uniforms("params", &[1, 2, 3])
        .uniforms("params", &[9]);
    assert_eq!(pass.uniforms.len(), 1);
    assert_eq!(pass.uniforms[0].key, "lighting_params");
    assert_eq!(pass.uniforms[0].name, "params");
    assert_eq!(pass.uniforms[0].data.size, 1);
    assert_eq!(&pass.uniforms[0].data.data[0..4], &[9, 2, 3, 0]);
    assert_eq!(pass.uniforms[0].data.data.len(), 2048);
}

#[test]
fn building_a_pass_sets_its_formats_and_uniform_buffer() {
    let mut graph = Graph::new();
    let color = graph.create_texture("color", desc(FORMAT_R8G8B8A8_UNORM));
    let depth = graph.create_texture("depth", desc(FORMAT_D32_SFLOAT));
    graph
        .add_pass_from_desc("forward", PipelineDesc::builder().vertex_path("f.vert").fragment_path("f.frag"))
        .write(color)
        .depth_attachment(depth)
        .uniforms("ubo", &[7; 16])
        .draw_meshes()
        .build(&mut graph);
    assert_eq!(graph.passes.len(), 1);
    let pipeline = &graph.pipeline_descs[graph.passes[0].pipeline_handle];
    assert_eq!(pipeline.color_attachment_formats, vec![FORMAT_R8G8B8A8_UNORM]);
    assert_eq!(pipeline.depth_stencil_attachment_format, FORMAT_D32_SFLOAT);
    let ub = graph.passes[0].uniform_buffer.expect("a uniform buffer");
    assert_eq!(graph.resources.buffers[ub].name, "forward_ubo");
    assert_eq!(graph.resources.buffers[ub].size, 16);
    assert_eq!(graph.resources.buffers[ub].usage, BUFFER_USAGE_UNIFORM_BUFFER);
    graph.clear();
    assert_eq!(graph.passes.len(), 0);
    assert_eq!(graph.resources.textures.len(), 2);
    assert_eq!(graph.resources.buffers.len(), 1);
}

#[test]
fn barriers_follow_the_last_access() {
    let mut graph = Graph::new();
    let t = graph.create_texture("t", desc(FORMAT_R8G8B8A8_UNORM));
    graph
        .add_pass_from_desc("produce", PipelineDesc::builder().vertex_path("a.vert"))
        .write(t)
        .build(&mut graph);
    graph
        .add_pass_from_desc("consume", PipelineDesc::builder().vertex_path("b.vert"))
        .read(t)
        .presentation_pass(true)
        .build(&mut graph);
    let plan = graph.plan_frame(true, true, (800, 600));
    assert!(plan.tlas_rebuild_barriers.is_some());
    assert_eq!(plan.passes.len(), 2);
    let first = &plan.passes[0];
    assert_eq!(first.extent, (64, 32));
    assert_eq!(first.barriers.len(), 1);
    assert_eq!(first.barriers[0].target, BarrierTarget::Texture(t));
    assert_eq!(first.barriers[0].prev_access, AccessType::Nothing);
    assert_eq!(first.barriers[0].next_access, AccessType::ColorAttachmentWrite);
    let second = &plan.passes[1];
    assert_eq!(second.extent, (800, 600));
    assert_eq!(second.barriers[0].target, BarrierTarget::Texture(t));
    assert_eq!(second.barriers[0].prev_access, AccessType::ColorAttachmentWrite);
    assert_eq!(second.barriers[0].next_access, AccessType::AnyShaderReadSampledImageOrUniformTexelBuffer);
    assert_eq!(graph.resources.textures[t].prev_access, AccessType::AnyShaderReadSampledImageOrUniformTexelBuffer);
    // without ray tracing there is no rebuild
    assert!(graph.plan_frame(false, true, (800, 600)).tlas_rebuild_barriers.is_none());
}

#[test]
fn a_copy_gets_its_own_barriers() {
    let mut graph = Graph::new();
    let src = graph.create_texture("src", desc(FORMAT_R32G32B32A32_SFLOAT));
    let dst = graph.create_texture("dst", ImageDesc::new_cubemap(64, 64, FORMAT_R32G32B32A32_SFLOAT));
    graph
        .add_pass_from_desc("face", PipelineDesc::builder().vertex_path("a.vert"))
        .write(src)
        .copy_image(src, dst, utopian::graph::ImageCopy::new_region(64, 64, 3, 0))
        .build(&mut graph);
    let plan = graph.plan_pass(0, (1, 1));
    assert_eq!(plan.copy_barriers.len(), 2);
    assert_eq!(plan.copy_barriers[0].prev_access, AccessType::ColorAttachmentWrite);
    assert_eq!(plan.copy_barriers[0].next_access, AccessType::TransferRead);
    assert_eq!(plan.copy_barriers[1].next_access, AccessType::TransferWrite);
    let copy = plan.copy.expect("a copy");
    assert_eq!(copy.copy_desc.dst_subresource.base_array_layer, 3);
}

#[test]
fn a_pass_reads_resources_in_binding_order() {
    let mut graph = Graph::new();
    let t = graph.create_texture("t", desc(FORMAT_R8G8B8A8_UNORM));
    let b = graph.create_buffer("b", 4, BUFFER_USAGE_STORAGE_BUFFER, MemoryLocation::GpuOnly);
    let pass = graph
        .add_pass_from_desc("p", PipelineDesc::builder().compute_path("p.comp"))
        .tlas(0)
        .read(t)
        .read_buffer(b)
        .image_write(t)
        .dispatch(1, 2, 3);
    assert_eq!(pass.reads.len(), 4);
    assert!(matches!(pass.reads[0], Resource::Tlas(0)));
    assert_eq!(pass.render_command, RenderCommand::Dispatch(1, 2, 3));
    pass.build(&mut graph);
    let writes = graph.passes[0].read_resource_writes();
    assert_eq!(writes.len(), 4);
    assert_eq!(
        writes[1],
        utopian::prepare::DescriptorWrite::CombinedImage { binding: 1, texture: t }
    );
    assert_eq!(
        writes[3],
        utopian::prepare::DescriptorWrite::StorageImage { binding: 3, texture: t }
    );
}

#[test]
fn pipelines_using_a_changed_shader() {
    let mut graph = Graph::new();
    graph.create_pipeline(PipelineDesc::builder().vertex_path("shaders/a.vert").fragment_path("shaders/common.frag").build());
    graph.create_pipeline(PipelineDesc::builder().compute_path("shaders/b.comp").build());
    graph.create_pipeline(PipelineDesc::builder().vertex_path("shaders/c.vert").fragment_path("shaders/common.frag").build());
    assert_eq!(graph.pipelines_using_shader(3, "/home/u/project/shaders/common.frag"), vec![0, 2]);
    assert_eq!(graph.pipelines_using_shader(3, "/home/u/project/shaders/b.comp"), vec![1]);
    assert_eq!(graph.pipelines_using_shader(3, "shaders/a.vert"), vec![0]);
    // a path is compared by whole components
    assert!(graph.pipelines_using_shader(3, "/home/u/project/myshaders/common.frag").is_empty());
    assert!(graph.pipelines_using_shader(3, "common.frag").is_empty());
    // pipelines that were not created yet are not recompiled
    assert_eq!(graph.pipelines_using_shader(1, "/p/shaders/common.frag"), vec![0]);
}

#[test]
fn an_external_depth_attachment_keeps_its_load_op() {
    let mut graph = Graph::new();
    let color = graph.create_texture("color", desc(FORMAT_R16G16_SFLOAT));
    let pass = graph
        .add_pass_from_desc("sky", PipelineDesc::builder().vertex_path("s.vert"))
        .load_write(color)
        .write_layer(color, 2)
        .external_depth_attachment(ImageDesc::new_2d(8, 8, FORMAT_D32_SFLOAT), AttachmentLoadOp::Load);
    assert_eq!(pass.writes[0].load_op, AttachmentLoadOp::Load);
    assert_eq!(pass.writes[1].view, ViewType::Layer(2));
    assert!(matches!(
        pass.depth_attachment,
        Some(utopian::graph::DepthAttachment::External(_, AttachmentLoadOp::Load))
    ));
}

#[test]
fn descriptor_sets_are_made_once_and_uniforms_filled_every_frame() {
    let mut graph = Graph::new();
    let t = graph.create_texture("t", desc(FORMAT_R8G8B8A8_UNORM));
    graph
        .add_pass_from_desc("blur", PipelineDesc::builder().compute_path("blur.comp"))
        .read(t)
        .uniforms("params", &[1, 2, 3, 4])
        .dispatch(8, 8, 1)
        .build(&mut graph);

    let first = graph.prepare(0);
    assert_eq!(first.pipelines_to_create, vec![0]);
    assert_eq!(first.passes.len(), 1);
    assert_eq!(
        first.passes[0].read_resource_writes,
        Some(vec![utopian::prepare::DescriptorWrite::CombinedImage { binding: 0, texture: t }])
    );
    let (name, buffer) = first.passes[0].uniform_descriptor.clone().unwrap();
    assert_eq!(name, "params");
    assert_eq!(Some(buffer), graph.passes[0].uniform_buffer);
    let (upload_buffer, bytes) = first.passes[0].uniform_upload.clone().unwrap();
    assert_eq!(upload_buffer, buffer);
    assert_eq!(&bytes[..4], &[1, 2, 3, 4]);

    let again = graph.prepare(1);
    assert!(again.pipelines_to_create.is_empty());
    assert!(again.passes[0].read_resource_writes.is_none());
    assert!(again.passes[0].uniform_descriptor.is_none());
    assert!(again.passes[0].uniform_upload.is_some());
}

#[test]
fn barriers_chain_across_the_whole_frame() {
    let mut graph = Graph::new();
    let t = graph.create_texture("t", desc(FORMAT_R32G32B32A32_SFLOAT));
    let u = graph.create_texture("u", desc(FORMAT_R32G32B32A32_SFLOAT));
    graph
        .add_pass_from_desc("produce", PipelineDesc::builder().vertex_path("a.vert"))
        .write(t)
        .copy_image(t, u, utopian::graph::ImageCopy::new_region(64, 32, 0, 0))
        .build(&mut graph);
    graph
        .add_pass_from_desc("consume", PipelineDesc::builder().vertex_path("b.vert"))
        .read(t)
        .read(u)
        .presentation_pass(true)
        .build(&mut graph);
    for _frame in 0..2 {
        let mut last = vec![graph.resources.textures[t].prev_access, graph.resources.textures[u].prev_access];
        let plan = graph.plan_frame(false, false, (800, 600));
        let mut seen = 0;
        for pass in &plan.passes {
            for b in pass.barriers.iter().chain(pass.copy_barriers.iter()) {
                if let BarrierTarget::Texture(i) = b.target {
                    assert_eq!(b.prev_access, last[i]);
                    last[i] = b.next_access;
                    seen += 1;
                }
            }
        }
        assert_eq!(seen, 5);
        assert_eq!(graph.resources.textures[t].prev_access, last[t]);
        assert_eq!(graph.resources.textures[u].prev_access, last[u]);
    }
}

#[test]
fn a_pass_binds_its_sets_at_their_indices() {
    assert_eq!(pass_descriptor_bindings(false, None), vec![(0, BoundSet::Bindless), (1, BoundSet::View)]);
    assert_eq!(
        pass_descriptor_bindings(true, Some(3)),
        vec![(0, BoundSet::Bindless), (1, BoundSet::View), (2, BoundSet::InputTextures), (3, BoundSet::Uniforms)]
    );
    assert_eq!(
        pass_descriptor_bindings(false, Some(2)),
        vec![(0, BoundSet::Bindless), (1, BoundSet::View), (2, BoundSet::Uniforms)]
    );
}
