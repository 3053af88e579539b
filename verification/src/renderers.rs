use vstd::prelude::*;

use crate::graph::{
    add_buffer, add_texture, buffer_handle, buffers_view, color_target, sampled_texture,
    spec_uniform_key, storage_image_write, texture_handle, textures_view, zero_bytes, Attachment,
    AttachmentLoadOp, DepthAttachment, Graph, RenderCommand, RenderPass, Resource, TextureId,
    TextureCopy, ImageCopy, spec_image_copy, extra_view, BUFFER_USAGE_VERTEX_BUFFER,
    BUFFER_USAGE_INDIRECT_BUFFER,
    ViewType, BUFFER_USAGE_STORAGE_BUFFER, BUFFER_USAGE_UNIFORM_BUFFER, MAX_UNIFORMS_SIZE,
    MemoryLocation, storage_buffer_read, storage_buffer_write, BufferId,
};
use crate::image::{
    ImageDesc, ImageType, DEFAULT_IMAGE_USAGE, FORMAT_D32_SFLOAT, FORMAT_R32G32B32A32_SFLOAT,
    FORMAT_R8G8B8A8_UNORM, FORMAT_R8_UNORM, FORMAT_B8G8R8A8_UNORM, FORMAT_R16G16_SFLOAT,
    FORMAT_R16_UNORM, IMAGE_ASPECT_COLOR, IMAGE_ASPECT_DEPTH,
    IMAGE_USAGE_DEPTH_STENCIL_ATTACHMENT, IMAGE_USAGE_SAMPLED, IMAGE_USAGE_TRANSFER_DST,
};
use crate::synch::AccessType;
use crate::prepare::{read_writes, DescriptorWrite};
use crate::pipeline::{
    spec_primitive_vertex_attributes, spec_primitive_vertex_bindings, PipelineDesc, PipelineDescView,
    VertexInputAttributeDescription, VertexInputBindingDescription,
};

verus! {

// ---------------------------------------------------------------------------
// What the setup functions add to a graph
// ---------------------------------------------------------------------------
/// A single-layer 2D color image of the default usage.
pub open spec fn desc_2d(width: u32, height: u32, format: i32) -> ImageDesc {
    ImageDesc {
        width,
        height,
        depth: 1,
        array_layers: 1,
        mip_levels: 1,
        format,
        image_type: ImageType::Tex2d,
        aspect_flags: IMAGE_ASPECT_COLOR,
        usage: DEFAULT_IMAGE_USAGE,
    }
}

pub type ShaderSet = (
    Option<Seq<char>>,
    Option<Seq<char>>,
    Option<Seq<char>>,
    Option<Seq<char>>,
    Option<Seq<char>>,
    Option<Seq<char>>,
    Seq<VertexInputBindingDescription>,
    Seq<VertexInputAttributeDescription>,
);

/// What a pipeline description says apart from its attachment formats: its
/// vertex, fragment, compute, ray generation, miss and closest hit shaders
/// and its vertex input.
pub open spec fn desc_shaders(d: PipelineDescView) -> ShaderSet {
    (
        d.vertex_path,
        d.fragment_path,
        d.compute_path,
        d.raygen_path,
        d.miss_path,
        d.hit_path,
        d.vertex_input_binding_descriptions,
        d.vertex_input_attribute_descriptions,
    )
}

/// Ray generation, miss and closest hit shaders, no vertex input.
pub open spec fn raytracing_shaders(raygen: Seq<char>, miss: Seq<char>, hit: Seq<char>) -> ShaderSet {
    (None, None, None, Some(raygen), Some(miss), Some(hit), Seq::empty(), Seq::empty())
}

/// A vertex and a fragment shader, no vertex input.
pub open spec fn graphics_shaders(vertex: Seq<char>, fragment: Seq<char>) -> ShaderSet {
    (Some(vertex), Some(fragment), None, None, None, None, Seq::empty(), Seq::empty())
}

/// A vertex and a fragment shader that take the vertices of a primitive.
pub open spec fn mesh_shaders(vertex: Seq<char>, fragment: Seq<char>) -> ShaderSet {
    (
        Some(vertex),
        Some(fragment),
        None,
        None,
        None,
        None,
        spec_primitive_vertex_bindings(),
        spec_primitive_vertex_attributes(),
    )
}

/// A compute shader alone.
pub open spec fn compute_shader(compute: Seq<char>) -> ShaderSet {
    (None, None, Some(compute), None, None, None, Seq::empty(), Seq::empty())
}

/// The shaders of the pipeline a pass of `g` uses.
pub open spec fn pass_shaders(g: Graph, p: RenderPass) -> ShaderSet {
    desc_shaders(g.pipeline_descs@[p.pipeline_handle as int]@)
}

/// What a pass holds, apart from its pipeline and uniforms.
#[verifier::opaque]
pub open spec fn pass_with(
    p: RenderPass,
    name: Seq<char>,
    reads: Seq<Resource>,
    writes: Seq<Attachment>,
    depth: Option<DepthAttachment>,
    command: RenderCommand,
    presentation: bool,
    copy: Option<TextureCopy>,
    extra_barriers: Option<Seq<(BufferId, AccessType)>>,
) -> bool {
    &&& p.name@ == name
    &&& p.reads@ == reads
    &&& p.writes@ == writes
    &&& p.depth_attachment == depth
    &&& p.render_command == command
    &&& p.presentation_pass == presentation
    &&& p.copy_command == copy
    &&& extra_view(p.extra_barriers) == extra_barriers
}

/// What a pass without a copy holds, apart from its pipeline and uniforms.
#[verifier::opaque]
pub open spec fn pass_is(
    p: RenderPass,
    name: Seq<char>,
    reads: Seq<Resource>,
    writes: Seq<Attachment>,
    depth: Option<DepthAttachment>,
    command: RenderCommand,
    presentation: bool,
) -> bool {
    pass_with(p, name, reads, writes, depth, command, presentation, None, None)
}

/// The graph keeps its passes and appends `count` passes.
pub open spec fn passes_appended(old_graph: Graph, new_graph: Graph, count: nat) -> bool {
    &&& new_graph.passes@.len() == old_graph.passes@.len() + count
    &&& new_graph.passes@.take(old_graph.passes@.len() as int) == old_graph.passes@
}

/// The pass holds one uniform, `data` under `uniform_name`.
pub open spec fn one_uniform(p: RenderPass, uniform_name: Seq<char>, data: Seq<u8>) -> bool {
    &&& p.uniforms@.len() == 1
    &&& p.uniforms@[0].key@ == spec_uniform_key(p.name@, uniform_name)
    &&& p.uniforms@[0].name@ == uniform_name
    &&& p.uniforms@[0].data.size == data.len()
    &&& p.uniforms@[0].data.data@ == data + zero_bytes((MAX_UNIFORMS_SIZE - data.len()) as nat)
}

/// The buffers after a pass whose uniform is kept under `key` was built:
/// a uniform buffer of `size` bytes under that key.
pub open spec fn uniform_buffer_added(old_graph: Graph, new_graph: Graph, key: Seq<char>, size: nat) -> bool {
    buffers_view(new_graph.resources.buffers@) == add_buffer(
        buffers_view(old_graph.resources.buffers@),
        key,
        size as u64,
        BUFFER_USAGE_UNIFORM_BUFFER,
        MemoryLocation::CpuToGpu,
    )
}

/// The pipeline descriptions of `a` are still in `b`, with the same
/// shaders and vertex input; only attachment formats may have changed.
#[verifier::opaque]
pub open spec fn pipelines_kept(a: Graph, b: Graph) -> bool {
    &&& a.pipeline_descs@.len() <= b.pipeline_descs@.len()
    &&& forall|i: int|
        0 <= i < a.pipeline_descs@.len() ==> desc_shaders(#[trigger] b.pipeline_descs@[i]@) == desc_shaders(
            a.pipeline_descs@[i]@,
        )
}

#[verifier::spinoff_prover]
pub proof fn lemma_pipelines_kept_trans(a: Graph, b: Graph, c: Graph)
    requires
        pipelines_kept(a, b),
        pipelines_kept(b, c),
    ensures
        pipelines_kept(a, c),
{
    reveal(pipelines_kept);
    assert forall|i: int| 0 <= i < a.pipeline_descs@.len() implies desc_shaders(
        #[trigger] c.pipeline_descs@[i]@,
    ) == desc_shaders(a.pipeline_descs@[i]@) by {
        assert(desc_shaders(c.pipeline_descs@[i]@) == desc_shaders(b.pipeline_descs@[i]@));
    }
}

/// A description kept from `a` to `b` names the same shaders in both.
#[verifier::spinoff_prover]
pub proof fn lemma_pipelines_kept_at(a: Graph, b: Graph, h: int)
    requires
        pipelines_kept(a, b),
        0 <= h < a.pipeline_descs@.len(),
    ensures
        h < b.pipeline_descs@.len(),
        desc_shaders(b.pipeline_descs@[h]@) == desc_shaders(a.pipeline_descs@[h]@),
{
    reveal(pipelines_kept);
}

/// A pass added and built keeps the descriptions that were there.
#[verifier::spinoff_prover]
proof fn lemma_pass_keeps_pipelines(a: Graph, b: Graph, c: Graph, h: int)
    requires
        b.pipeline_descs@.take(a.pipeline_descs@.len() as int) == a.pipeline_descs@,
        a.pipeline_descs@.len() <= b.pipeline_descs@.len(),
        c.pipeline_descs@.len() == b.pipeline_descs@.len(),
        forall|i: int|
            0 <= i < b.pipeline_descs@.len() && i != h ==> c.pipeline_descs@[i] == b.pipeline_descs@[i],
        0 <= h < b.pipeline_descs@.len() ==> desc_shaders(c.pipeline_descs@[h]@) == desc_shaders(
            b.pipeline_descs@[h]@,
        ),
    ensures
        pipelines_kept(a, c),
{
    reveal(pipelines_kept);
    assert forall|i: int| 0 <= i < a.pipeline_descs@.len() implies desc_shaders(
        #[trigger] c.pipeline_descs@[i]@,
    ) == desc_shaders(a.pipeline_descs@[i]@) by {
        assert(b.pipeline_descs@.take(a.pipeline_descs@.len() as int)[i] == b.pipeline_descs@[i]);
    }
}

/// One pass without uniforms was appended; nothing else changed but the
/// attachment formats of pipeline descriptions and possibly one new
/// description.
pub open spec fn one_plain_pass_added(a: Graph, b: Graph) -> bool {
    &&& b.wf()
    &&& b.resources == a.resources
    &&& passes_appended(a, b, 1)
    &&& pipelines_kept(a, b)
    &&& b.passes@.last().uniforms@.len() == 0
    &&& b.passes@.last().pipeline_handle < b.pipeline_descs@.len()
}

/// The textures after creating those of the G-buffer: positions, normals,
/// albedo and material parameters, at the given resolution.
#[verifier::opaque]
pub open spec fn gbuffer_textures(t: Seq<crate::graph::TextureView>, width: u32, height: u32) -> Seq<crate::graph::TextureView> {
    let t1 = add_texture(t, "gbuffer_position"@, desc_2d(width, height, FORMAT_R32G32B32A32_SFLOAT));
    let t2 = add_texture(t1, "gbuffer_normal"@, desc_2d(width, height, FORMAT_R32G32B32A32_SFLOAT));
    let t3 = add_texture(t2, "gbuffer_albedo"@, desc_2d(width, height, FORMAT_R8G8B8A8_UNORM));
    add_texture(t3, "gbuffer_pbr"@, desc_2d(width, height, FORMAT_R32G32B32A32_SFLOAT))
}

/// The handles of the G-buffer textures created in `t`.
#[verifier::opaque]
pub open spec fn gbuffer_handles(t: Seq<crate::graph::TextureView>, width: u32, height: u32) -> (usize, usize, usize, usize) {
    let t1 = add_texture(t, "gbuffer_position"@, desc_2d(width, height, FORMAT_R32G32B32A32_SFLOAT));
    let t2 = add_texture(t1, "gbuffer_normal"@, desc_2d(width, height, FORMAT_R32G32B32A32_SFLOAT));
    let t3 = add_texture(t2, "gbuffer_albedo"@, desc_2d(width, height, FORMAT_R8G8B8A8_UNORM));
    (
        texture_handle(t, "gbuffer_position"@) as usize,
        texture_handle(t1, "gbuffer_normal"@) as usize,
        texture_handle(t2, "gbuffer_albedo"@) as usize,
        texture_handle(t3, "gbuffer_pbr"@) as usize,
    )
}

/// What `create_gbuffer_textures` does to a graph.
#[verifier::opaque]
pub open spec fn create_gbuffer_textures_done(a: Graph, b: Graph, width: u32, height: u32, r: (TextureId, TextureId, TextureId, TextureId)) -> bool {
    &&& b.wf()
    &&& b.passes == a.passes
    &&& b.pipeline_descs == a.pipeline_descs
    &&& b.resources.buffers == a.resources.buffers
    &&& textures_view(b.resources.textures@) == gbuffer_textures(
            textures_view(a.resources.textures@),
            width,
            height,
        )
    &&& r == gbuffer_handles(textures_view(a.resources.textures@), width, height)
    &&& r.0 < b.resources.textures@.len()
    &&& r.1 < b.resources.textures@.len()
    &&& r.2 < b.resources.textures@.len()
    &&& r.3 < b.resources.textures@.len()
    &&& a.resources.textures@.len() <= b.resources.textures@.len()
}

/// The textures of the G-buffer: positions, normals, albedo and material
/// parameters, at the given resolution.
#[verifier::spinoff_prover]
#[verifier::rlimit(30)]
pub fn create_gbuffer_textures(graph: &mut Graph, width: u32, height: u32) -> (r: (
    TextureId,
    TextureId,
    TextureId,
    TextureId,
))
    requires
        old(graph).wf(),
    ensures
        create_gbuffer_textures_done(*old(graph), *final(graph), width, height, r),
        final(graph).wf(),
        old(graph).resources.textures@.len() <= final(graph).resources.textures@.len(),
        old(graph).resources.buffers@.len() <= final(graph).resources.buffers@.len(),
        r.0 < final(graph).resources.textures@.len(),
        r.1 < final(graph).resources.textures@.len(),
        r.2 < final(graph).resources.textures@.len(),
        r.3 < final(graph).resources.textures@.len(),
{
    proof {
        reveal(create_gbuffer_textures_done);
        reveal(gbuffer_textures);
        reveal(gbuffer_handles);
    }
    let position = graph.create_texture(
        "gbuffer_position",
        ImageDesc::new_2d(width, height, FORMAT_R32G32B32A32_SFLOAT),
    );
    let normal = graph.create_texture(
        "gbuffer_normal",
        ImageDesc::new_2d(width, height, FORMAT_R32G32B32A32_SFLOAT),
    );
    let albedo = graph.create_texture("gbuffer_albedo", ImageDesc::new_2d(width, height, FORMAT_R8G8B8A8_UNORM));
    let pbr = graph.create_texture(
        "gbuffer_pbr",
        ImageDesc::new_2d(width, height, FORMAT_R32G32B32A32_SFLOAT),
    );
    (position, normal, albedo, pbr)
}

/// The shadow map: four 4096x4096 depth layers, one per cascade, that
/// passes render to and sample.
pub open spec fn shadow_map_desc() -> ImageDesc {
    ImageDesc {
        width: 4096,
        height: 4096,
        depth: 1,
        array_layers: 4,
        mip_levels: 1,
        format: FORMAT_D32_SFLOAT,
        image_type: ImageType::Tex2dArray,
        aspect_flags: IMAGE_ASPECT_DEPTH,
        usage: IMAGE_USAGE_DEPTH_STENCIL_ATTACHMENT | IMAGE_USAGE_TRANSFER_DST | IMAGE_USAGE_SAMPLED,
    }
}

/// What `create_shadowmap_texture` does to a graph.
#[verifier::opaque]
pub open spec fn create_shadowmap_texture_done(a: Graph, b: Graph, r: TextureId) -> bool {
    &&& b.wf()
    &&& b.passes == a.passes
    &&& b.pipeline_descs == a.pipeline_descs
    &&& b.resources.buffers == a.resources.buffers
    &&& textures_view(b.resources.textures@) == add_texture(
            textures_view(a.resources.textures@),
            "shadow_map"@,
            shadow_map_desc(),
        )
    &&& r == texture_handle(textures_view(a.resources.textures@), "shadow_map"@)
}

/// The cascaded shadow map texture.
#[verifier::spinoff_prover]
pub fn create_shadowmap_texture(graph: &mut Graph) -> (r: TextureId)
    requires
        old(graph).wf(),
    ensures
        create_shadowmap_texture_done(*old(graph), *final(graph), r),
        final(graph).wf(),
        old(graph).resources.textures@.len() <= final(graph).resources.textures@.len(),
        old(graph).resources.buffers@.len() <= final(graph).resources.buffers@.len(),
        r < final(graph).resources.textures@.len(),
{
    proof {
        reveal(create_shadowmap_texture_done);
    }
    graph.create_texture(
        "shadow_map",
        ImageDesc::new_2d_array(4096, 4096, 4, FORMAT_D32_SFLOAT).aspect(IMAGE_ASPECT_DEPTH).usage(
            IMAGE_USAGE_DEPTH_STENCIL_ATTACHMENT | IMAGE_USAGE_TRANSFER_DST | IMAGE_USAGE_SAMPLED,
        ),
    )
}

/// What `setup_rt_shadows_pass` does to a graph.
#[verifier::opaque]
pub open spec fn setup_rt_shadows_pass_done(a: Graph, b: Graph, gbuffer_position: TextureId, gbuffer_normal: TextureId, width: u32, height: u32, enabled: bool, r: TextureId) -> bool {
    &&& b.wf()
    &&& pipelines_kept(a, b)
    &&& b.resources.buffers == a.resources.buffers
    &&& textures_view(b.resources.textures@) == add_texture(
            textures_view(a.resources.textures@),
            "rt_shadows_output_image"@,
            desc_2d(width, height, FORMAT_R8_UNORM),
        )
    &&& r == texture_handle(textures_view(a.resources.textures@), "rt_shadows_output_image"@)
    &&& (!enabled ==> b.passes == a.passes && b.pipeline_descs
            == a.pipeline_descs)
    &&& (enabled ==> {
            let p = b.passes@.last();
            &&& passes_appended(a, b, 1)
            &&& pass_is(
                p,
                "rt_shadows_pass"@,
                seq![Resource::Tlas(0), sampled_texture(gbuffer_position), sampled_texture(gbuffer_normal), storage_image_write(r)],
                seq![],
                None,
                RenderCommand::TraceRays(width, height, 1),
                false,
            )
            &&& p.uniforms@.len() == 0
            &&& p.pipeline_handle < b.pipeline_descs@.len()
            &&& desc_shaders(b.pipeline_descs@[p.pipeline_handle as int]@) == raytracing_shaders("utopian/shaders/rt_shadows/rt_shadows.rgen"@,
                "utopian/shaders/rt_shadows/rt_shadows.rmiss"@,
                "utopian/shaders/rt_shadows/rt_shadows.rchit"@)
        })
}

/// The ray traced shadow pass fills its input descriptor set as its shaders
/// expect: the acceleration structure at binding 0, the G-buffer positions
/// at binding 1 and the G-buffer normals at binding 2 (both sampled), and
/// the shadow image it writes at binding 3.
pub proof fn lemma_rt_shadows_bindings(
    a: Graph,
    b: Graph,
    gbuffer_position: TextureId,
    gbuffer_normal: TextureId,
    width: u32,
    height: u32,
    r: TextureId,
)
    requires
        setup_rt_shadows_pass_done(a, b, gbuffer_position, gbuffer_normal, width, height, true, r),
    ensures
        b.passes@.len() == a.passes@.len() + 1,
        read_writes(b.passes@.last().reads@) == seq![
            DescriptorWrite::AccelerationStructure { binding: 0 },
            DescriptorWrite::CombinedImage { binding: 1, texture: gbuffer_position },
            DescriptorWrite::CombinedImage { binding: 2, texture: gbuffer_normal },
            DescriptorWrite::StorageImage { binding: 3, texture: r },
        ],
{
    reveal(setup_rt_shadows_pass_done);
    reveal(pass_is);
    reveal(pass_with);
    assert(read_writes(b.passes@.last().reads@) =~= seq![
        DescriptorWrite::AccelerationStructure { binding: 0 },
        DescriptorWrite::CombinedImage { binding: 1, texture: gbuffer_position },
        DescriptorWrite::CombinedImage { binding: 2, texture: gbuffer_normal },
        DescriptorWrite::StorageImage { binding: 3, texture: r },
    ]);
}

/// Ray traced shadows: a one-channel image that, when enabled, a ray
/// tracing pass fills from the G-buffer's positions and normals.
#[verifier::spinoff_prover]
pub fn setup_rt_shadows_pass(
    graph: &mut Graph,
    gbuffer_position: TextureId,
    gbuffer_normal: TextureId,
    width: u32,
    height: u32,
    enabled: bool,
) -> (r: TextureId)
    requires
        old(graph).wf(),
        gbuffer_position < old(graph).resources.textures@.len(),
        gbuffer_normal < old(graph).resources.textures@.len(),
    ensures
        setup_rt_shadows_pass_done(*old(graph), *final(graph), gbuffer_position, gbuffer_normal, width, height, enabled, r),
        final(graph).wf(),
        old(graph).resources.textures@.len() <= final(graph).resources.textures@.len(),
        old(graph).resources.buffers@.len() <= final(graph).resources.buffers@.len(),
        r < final(graph).resources.textures@.len(),
{
    proof {
        reveal(setup_rt_shadows_pass_done);
    }
    proof {
        reveal(pass_with);
        reveal(pass_is);
    }
    let ghost g0 = *graph;
    let output_image = graph.create_texture(
        "rt_shadows_output_image",
        ImageDesc::new_2d(width, height, FORMAT_R8_UNORM),
    );
    if enabled {
        let ghost a = *graph;
        let builder = graph.add_pass_from_desc(
            "rt_shadows_pass",
            PipelineDesc::builder().raygen_path("utopian/shaders/rt_shadows/rt_shadows.rgen").miss_path(
                "utopian/shaders/rt_shadows/rt_shadows.rmiss",
            ).hit_path("utopian/shaders/rt_shadows/rt_shadows.rchit"),
        );
        let ghost b = *graph;
        let pass = builder.tlas(0).read(gbuffer_position).read(gbuffer_normal).image_write(output_image).trace_rays(
            width,
            height,
            1,
        );
        assert(pass.reads@ =~= seq![
            Resource::Tlas(0),
            sampled_texture(gbuffer_position),
            sampled_texture(gbuffer_normal),
            storage_image_write(output_image),
        ]);
        let ghost h = pass.pipeline_handle;
        pass.build(graph);
        proof {
            lemma_pass_keeps_pipelines(a, b, *graph, h as int);
            assert(pipelines_kept(g0, a)) by {
                reveal(pipelines_kept);
            }
            lemma_pipelines_kept_trans(g0, a, *graph);
        }
    } else {
        proof {
            assert(pipelines_kept(g0, *graph)) by {
                reveal(pipelines_kept);
            }
        }
    }
    output_image
}

/// What `setup_rt_reflections_pass` does to a graph.
#[verifier::opaque]
pub open spec fn setup_rt_reflections_pass_done(a: Graph, b: Graph, gbuffer_position: TextureId, gbuffer_normal: TextureId, gbuffer_pbr: TextureId, irradiance_map: TextureId, specular_map: TextureId, brdf_lut: TextureId, width: u32, height: u32, enabled: bool, r: TextureId) -> bool {
    &&& b.wf()
    &&& pipelines_kept(a, b)
    &&& b.resources.buffers == a.resources.buffers
    &&& textures_view(b.resources.textures@) == add_texture(
            textures_view(a.resources.textures@),
            "rt_reflection_output_image"@,
            desc_2d(width, height, FORMAT_R8G8B8A8_UNORM),
        )
    &&& r == texture_handle(textures_view(a.resources.textures@), "rt_reflection_output_image"@)
    &&& (!enabled ==> b.passes == a.passes && b.pipeline_descs
            == a.pipeline_descs)
    &&& (enabled ==> {
            let p = b.passes@.last();
            &&& passes_appended(a, b, 1)
            &&& pass_is(
                p,
                "rt_reflections_pass"@,
                seq![
                    Resource::Tlas(0),
                    sampled_texture(gbuffer_position),
                    sampled_texture(gbuffer_normal),
                    sampled_texture(gbuffer_pbr),
                    sampled_texture(irradiance_map),
                    sampled_texture(specular_map),
                    sampled_texture(brdf_lut),
                    storage_image_write(r),
                ],
                seq![],
                None,
                RenderCommand::TraceRays(width, height, 1),
                false,
            )
            &&& p.uniforms@.len() == 0
            &&& p.pipeline_handle < b.pipeline_descs@.len()
            &&& pass_shaders(b, p) == raytracing_shaders("utopian/shaders/rt_reflections/rt_reflections.rgen"@,
                "utopian/shaders/rt_reflections/rt_reflections.rmiss"@,
                "utopian/shaders/rt_reflections/rt_reflections.rchit"@)
        })
}

/// The ray traced reflection pass fills its input descriptor set as its
/// shaders expect: the acceleration structure at binding 0; the G-buffer
/// positions, normals and material parameters at bindings 1, 2 and 3; the
/// irradiance map, the specular map and the BRDF lookup table at bindings
/// 4, 5 and 6 (all sampled); and the reflection image it writes at 7.
pub proof fn lemma_rt_reflections_bindings(
    a: Graph,
    b: Graph,
    gbuffer_position: TextureId,
    gbuffer_normal: TextureId,
    gbuffer_pbr: TextureId,
    irradiance_map: TextureId,
    specular_map: TextureId,
    brdf_lut: TextureId,
    width: u32,
    height: u32,
    r: TextureId,
)
    requires
        setup_rt_reflections_pass_done(
            a,
            b,
            gbuffer_position,
            gbuffer_normal,
            gbuffer_pbr,
            irradiance_map,
            specular_map,
            brdf_lut,
            width,
            height,
            true,
            r,
        ),
    ensures
        b.passes@.len() == a.passes@.len() + 1,
        read_writes(b.passes@.last().reads@) == seq![
            DescriptorWrite::AccelerationStructure { binding: 0 },
            DescriptorWrite::CombinedImage { binding: 1, texture: gbuffer_position },
            DescriptorWrite::CombinedImage { binding: 2, texture: gbuffer_normal },
            DescriptorWrite::CombinedImage { binding: 3, texture: gbuffer_pbr },
            DescriptorWrite::CombinedImage { binding: 4, texture: irradiance_map },
            DescriptorWrite::CombinedImage { binding: 5, texture: specular_map },
            DescriptorWrite::CombinedImage { binding: 6, texture: brdf_lut },
            DescriptorWrite::StorageImage { binding: 7, texture: r },
        ],
{
    reveal(setup_rt_reflections_pass_done);
    reveal(pass_is);
    reveal(pass_with);
    assert(read_writes(b.passes@.last().reads@) =~= seq![
        DescriptorWrite::AccelerationStructure { binding: 0 },
        DescriptorWrite::CombinedImage { binding: 1, texture: gbuffer_position },
        DescriptorWrite::CombinedImage { binding: 2, texture: gbuffer_normal },
        DescriptorWrite::CombinedImage { binding: 3, texture: gbuffer_pbr },
        DescriptorWrite::CombinedImage { binding: 4, texture: irradiance_map },
        DescriptorWrite::CombinedImage { binding: 5, texture: specular_map },
        DescriptorWrite::CombinedImage { binding: 6, texture: brdf_lut },
        DescriptorWrite::StorageImage { binding: 7, texture: r },
    ]);
}

/// Ray traced reflections: a color image that, when enabled, a ray tracing
/// pass fills from the G-buffer and the image based lighting maps.
#[verifier::spinoff_prover]
#[verifier::rlimit(30)]
pub fn setup_rt_reflections_pass(
    graph: &mut Graph,
    gbuffer_position: TextureId,
    gbuffer_normal: TextureId,
    gbuffer_pbr: TextureId,
    irradiance_map: TextureId,
    specular_map: TextureId,
    brdf_lut: TextureId,
    width: u32,
    height: u32,
    enabled: bool,
) -> (r: TextureId)
    requires
        old(graph).wf(),
        gbuffer_position < old(graph).resources.textures@.len(),
        gbuffer_normal < old(graph).resources.textures@.len(),
        gbuffer_pbr < old(graph).resources.textures@.len(),
        irradiance_map < old(graph).resources.textures@.len(),
        specular_map < old(graph).resources.textures@.len(),
        brdf_lut < old(graph).resources.textures@.len(),
    ensures
        setup_rt_reflections_pass_done(*old(graph), *final(graph), gbuffer_position, gbuffer_normal, gbuffer_pbr, irradiance_map, specular_map, brdf_lut, width, height, enabled, r),
        final(graph).wf(),
        old(graph).resources.textures@.len() <= final(graph).resources.textures@.len(),
        old(graph).resources.buffers@.len() <= final(graph).resources.buffers@.len(),
        r < final(graph).resources.textures@.len(),
{
    proof {
        reveal(setup_rt_reflections_pass_done);
    }
    proof {
        reveal(pass_with);
        reveal(pass_is);
    }
    let ghost g0 = *graph;
    let output_image = graph.create_texture(
        "rt_reflection_output_image",
        ImageDesc::new_2d(width, height, FORMAT_R8G8B8A8_UNORM),
    );
    if enabled {
        let ghost a = *graph;
        let builder = graph.add_pass_from_desc(
            "rt_reflections_pass",
            PipelineDesc::builder().raygen_path(
                "utopian/shaders/rt_reflections/rt_reflections.rgen",
            ).miss_path("utopian/shaders/rt_reflections/rt_reflections.rmiss").hit_path(
                "utopian/shaders/rt_reflections/rt_reflections.rchit",
            ),
        );
        let ghost b = *graph;
        let pass = builder.tlas(0).read(gbuffer_position).read(gbuffer_normal).read(gbuffer_pbr).read(irradiance_map).read(
            specular_map,
        ).read(brdf_lut).image_write(output_image).trace_rays(width, height, 1);
        assert(pass.reads@ =~= seq![
            Resource::Tlas(0),
            sampled_texture(gbuffer_position),
            sampled_texture(gbuffer_normal),
            sampled_texture(gbuffer_pbr),
            sampled_texture(irradiance_map),
            sampled_texture(specular_map),
            sampled_texture(brdf_lut),
            storage_image_write(output_image),
        ]);
        let ghost h = pass.pipeline_handle;
        pass.build(graph);
        proof {
            lemma_pass_keeps_pipelines(a, b, *graph, h as int);
            assert(pipelines_kept(g0, a)) by {
                reveal(pipelines_kept);
            }
            lemma_pipelines_kept_trans(g0, a, *graph);
        }
    } else {
        proof {
            assert(pipelines_kept(g0, *graph)) by {
                reveal(pipelines_kept);
            }
        }
    }
    output_image
}

/// What `setup_gbuffer_pass` does to a graph.
#[verifier::opaque]
pub open spec fn setup_gbuffer_pass_done(a: Graph, b: Graph, depth_image: ImageDesc, gbuffer_position: TextureId, gbuffer_normal: TextureId, gbuffer_albedo: TextureId, gbuffer_pbr: TextureId) -> bool {
    &&& b.wf()
    &&& b.resources == a.resources
    &&& pipelines_kept(a, b)
    &&& ({
            let p = b.passes@.last();
            &&& passes_appended(a, b, 1)
            &&& pass_is(
                p,
                "gbuffer_pass"@,
                seq![],
                seq![
                    color_target(gbuffer_position),
                    color_target(gbuffer_normal),
                    color_target(gbuffer_albedo),
                    color_target(gbuffer_pbr),
                ],
                Some(DepthAttachment::External(depth_image, AttachmentLoadOp::Clear)),
                RenderCommand::DrawMeshes,
                false,
            )
            &&& p.uniforms@.len() == 0
            &&& p.pipeline_handle < b.pipeline_descs@.len()
            &&& pass_shaders(b, p) == mesh_shaders("utopian/shaders/gbuffer/gbuffer.vert"@,
                "utopian/shaders/gbuffer/gbuffer.frag"@)
        })
}

/// The G-buffer pass: every mesh rendered to the four G-buffer textures,
/// with the given depth image cleared first.
#[verifier::spinoff_prover]
pub fn setup_gbuffer_pass(
    graph: &mut Graph,
    depth_image: ImageDesc,
    gbuffer_position: TextureId,
    gbuffer_normal: TextureId,
    gbuffer_albedo: TextureId,
    gbuffer_pbr: TextureId,
)
    requires
        old(graph).wf(),
        gbuffer_position < old(graph).resources.textures@.len(),
        gbuffer_normal < old(graph).resources.textures@.len(),
        gbuffer_albedo < old(graph).resources.textures@.len(),
        gbuffer_pbr < old(graph).resources.textures@.len(),
    ensures
        setup_gbuffer_pass_done(*old(graph), *final(graph), depth_image, gbuffer_position, gbuffer_normal, gbuffer_albedo, gbuffer_pbr),
        final(graph).wf(),
        old(graph).resources.textures@.len() <= final(graph).resources.textures@.len(),
        old(graph).resources.buffers@.len() <= final(graph).resources.buffers@.len(),
{
    proof {
        reveal(setup_gbuffer_pass_done);
    }
    proof {
        reveal(pass_with);
        reveal(pass_is);
    }
    let ghost a = *graph;
    let builder = graph.add_pass_from_desc(
        "gbuffer_pass",
        PipelineDesc::builder().vertex_path("utopian/shaders/gbuffer/gbuffer.vert").fragment_path(
            "utopian/shaders/gbuffer/gbuffer.frag",
        ).default_primitive_vertex_bindings().default_primitive_vertex_attributes(),
    );
    let ghost b = *graph;
    let pass = builder.write(gbuffer_position).write(gbuffer_normal).write(gbuffer_albedo).write(gbuffer_pbr).external_depth_attachment(
        depth_image,
        AttachmentLoadOp::Clear,
    ).draw_meshes();
    assert(pass.writes@ =~= seq![
        color_target(gbuffer_position),
        color_target(gbuffer_normal),
        color_target(gbuffer_albedo),
        color_target(gbuffer_pbr),
    ]);
    let ghost h = pass.pipeline_handle;
    pass.build(graph);
    proof {
        lemma_pass_keeps_pipelines(a, b, *graph, h as int);
    }
}

/// What `setup_deferred_pass` does to a graph.
#[verifier::opaque]
pub open spec fn setup_deferred_pass_done(a: Graph, b: Graph, gbuffer_position: TextureId, gbuffer_normal: TextureId, gbuffer_albedo: TextureId, gbuffer_pbr: TextureId, shadow_map: TextureId, ssao_output: TextureId, irradiance_map: TextureId, specular_map: TextureId, brdf_lut: TextureId, cascade_data: Seq<u8>, deferred_output: TextureId) -> bool {
    &&& b.wf()
    &&& pipelines_kept(a, b)
    &&& b.resources.textures == a.resources.textures
    &&& ({
            let p = b.passes@.last();
            &&& passes_appended(a, b, 1)
            &&& pass_is(
                p,
                "deferred_pass"@,
                seq![
                    sampled_texture(gbuffer_position),
                    sampled_texture(gbuffer_normal),
                    sampled_texture(gbuffer_albedo),
                    sampled_texture(gbuffer_pbr),
                    sampled_texture(shadow_map),
                    sampled_texture(ssao_output),
                    sampled_texture(irradiance_map),
                    sampled_texture(specular_map),
                    sampled_texture(brdf_lut),
                ],
                seq![color_target(deferred_output)],
                None,
                RenderCommand::Draw(3, 1, 0, 0),
                false,
            )
            &&& one_uniform(p, "shadowmapParams"@, cascade_data)
            &&& uniform_buffer_added(a, b, p.uniforms@[0].key@, cascade_data.len())
            &&& p.pipeline_handle < b.pipeline_descs@.len()
            &&& pass_shaders(b, p) == graphics_shaders("utopian/shaders/common/fullscreen.vert"@,
                "utopian/shaders/deferred/deferred.frag"@)
        })
}

/// The deferred lighting pass samples, in its input descriptor set, the
/// G-buffer positions, normals, albedo and material parameters at bindings
/// 0 to 3, the shadow map at 4, the ambient occlusion image at 5, and the
/// irradiance map, the specular map and the BRDF lookup table at 6, 7 and 8;
/// it renders into the deferred output as its one color attachment.
pub proof fn lemma_deferred_bindings(
    a: Graph,
    b: Graph,
    gbuffer_position: TextureId,
    gbuffer_normal: TextureId,
    gbuffer_albedo: TextureId,
    gbuffer_pbr: TextureId,
    shadow_map: TextureId,
    ssao_output: TextureId,
    irradiance_map: TextureId,
    specular_map: TextureId,
    brdf_lut: TextureId,
    cascade_data: Seq<u8>,
    deferred_output: TextureId,
)
    requires
        setup_deferred_pass_done(
            a,
            b,
            gbuffer_position,
            gbuffer_normal,
            gbuffer_albedo,
            gbuffer_pbr,
            shadow_map,
            ssao_output,
            irradiance_map,
            specular_map,
            brdf_lut,
            cascade_data,
            deferred_output,
        ),
    ensures
        b.passes@.len() == a.passes@.len() + 1,
        read_writes(b.passes@.last().reads@) == seq![
            DescriptorWrite::CombinedImage { binding: 0, texture: gbuffer_position },
            DescriptorWrite::CombinedImage { binding: 1, texture: gbuffer_normal },
            DescriptorWrite::CombinedImage { binding: 2, texture: gbuffer_albedo },
            DescriptorWrite::CombinedImage { binding: 3, texture: gbuffer_pbr },
            DescriptorWrite::CombinedImage { binding: 4, texture: shadow_map },
            DescriptorWrite::CombinedImage { binding: 5, texture: ssao_output },
            DescriptorWrite::CombinedImage { binding: 6, texture: irradiance_map },
            DescriptorWrite::CombinedImage { binding: 7, texture: specular_map },
            DescriptorWrite::CombinedImage { binding: 8, texture: brdf_lut },
        ],
        b.passes@.last().writes@.len() == 1,
        b.passes@.last().writes@[0].texture == deferred_output,
{
    reveal(setup_deferred_pass_done);
    reveal(pass_is);
    reveal(pass_with);
    assert(read_writes(b.passes@.last().reads@) =~= seq![
        DescriptorWrite::CombinedImage { binding: 0, texture: gbuffer_position },
        DescriptorWrite::CombinedImage { binding: 1, texture: gbuffer_normal },
        DescriptorWrite::CombinedImage { binding: 2, texture: gbuffer_albedo },
        DescriptorWrite::CombinedImage { binding: 3, texture: gbuffer_pbr },
        DescriptorWrite::CombinedImage { binding: 4, texture: shadow_map },
        DescriptorWrite::CombinedImage { binding: 5, texture: ssao_output },
        DescriptorWrite::CombinedImage { binding: 6, texture: irradiance_map },
        DescriptorWrite::CombinedImage { binding: 7, texture: specular_map },
        DescriptorWrite::CombinedImage { binding: 8, texture: brdf_lut },
    ]);
}

/// The deferred lighting pass: a fullscreen triangle that lights the
/// G-buffer with the shadow map, ambient occlusion and image based lighting
/// into `deferred_output`, given the shadow cascades as uniform bytes.
#[verifier::spinoff_prover]
pub fn setup_deferred_pass(
    graph: &mut Graph,
    gbuffer_position: TextureId,
    gbuffer_normal: TextureId,
    gbuffer_albedo: TextureId,
    gbuffer_pbr: TextureId,
    shadow_map: TextureId,
    ssao_output: TextureId,
    irradiance_map: TextureId,
    specular_map: TextureId,
    brdf_lut: TextureId,
    cascade_data: &[u8],
    deferred_output: TextureId,
)
    requires
        old(graph).wf(),
        gbuffer_position < old(graph).resources.textures@.len(),
        gbuffer_normal < old(graph).resources.textures@.len(),
        gbuffer_albedo < old(graph).resources.textures@.len(),
        gbuffer_pbr < old(graph).resources.textures@.len(),
        shadow_map < old(graph).resources.textures@.len(),
        ssao_output < old(graph).resources.textures@.len(),
        irradiance_map < old(graph).resources.textures@.len(),
        specular_map < old(graph).resources.textures@.len(),
        brdf_lut < old(graph).resources.textures@.len(),
        deferred_output < old(graph).resources.textures@.len(),
        cascade_data@.len() < MAX_UNIFORMS_SIZE,
    ensures
        setup_deferred_pass_done(*old(graph), *final(graph), gbuffer_position, gbuffer_normal, gbuffer_albedo, gbuffer_pbr, shadow_map, ssao_output, irradiance_map, specular_map, brdf_lut, cascade_data@, deferred_output),
        final(graph).wf(),
        old(graph).resources.textures@.len() <= final(graph).resources.textures@.len(),
        old(graph).resources.buffers@.len() <= final(graph).resources.buffers@.len(),
{
    proof {
        reveal(setup_deferred_pass_done);
    }
    proof {
        reveal(pass_with);
        reveal(pass_is);
    }
    let ghost a = *graph;
    let pipeline_handle = graph.create_pipeline(
        PipelineDesc::builder().vertex_path("utopian/shaders/common/fullscreen.vert").fragment_path(
            "utopian/shaders/deferred/deferred.frag",
        ).build(),
    );
    let ghost b = *graph;
    assert(b.pipeline_descs@.take(a.pipeline_descs@.len() as int) =~= a.pipeline_descs@);
    let pass = graph.add_pass("deferred_pass".to_string(), pipeline_handle).read(gbuffer_position).read(
        gbuffer_normal,
    ).read(gbuffer_albedo).read(gbuffer_pbr).read(shadow_map).read(ssao_output).read(irradiance_map).read(
        specular_map,
    ).read(brdf_lut).write(deferred_output);
    let pass = pass.uniforms("shadowmapParams", cascade_data).draw(3, 1, 0, 0);
    assert(pass.reads@ =~= seq![
        sampled_texture(gbuffer_position),
        sampled_texture(gbuffer_normal),
        sampled_texture(gbuffer_albedo),
        sampled_texture(gbuffer_pbr),
        sampled_texture(shadow_map),
        sampled_texture(ssao_output),
        sampled_texture(irradiance_map),
        sampled_texture(specular_map),
        sampled_texture(brdf_lut),
    ]);
    assert(pass.writes@ =~= seq![color_target(deferred_output)]);
    let ghost h = pass.pipeline_handle;
    pass.build(graph);
    proof {
        lemma_pass_keeps_pipelines(a, b, *graph, h as int);
    }
}

// ---------------------------------------------------------------------------
// Pass names
// ---------------------------------------------------------------------------
pub open spec fn digit_char(d: nat) -> char {
    if d == 0 {
        '0'
    } else if d == 1 {
        '1'
    } else if d == 2 {
        '2'
    } else if d == 3 {
        '3'
    } else if d == 4 {
        '4'
    } else if d == 5 {
        '5'
    } else if d == 6 {
        '6'
    } else if d == 7 {
        '7'
    } else if d == 8 {
        '8'
    } else {
        '9'
    }
}

/// The decimal digits of `n`, most significant first.
pub open spec fn decimal(n: nat) -> Seq<char>
    decreases n,
{
    if n < 10 {
        seq![digit_char(n)]
    } else {
        decimal(n / 10).push(digit_char(n % 10))
    }
}

#[verifier::spinoff_prover]
fn digit_str(d: u32) -> (r: &'static str)
    requires
        d < 10,
    ensures
        r@ == seq![digit_char(d as nat)],
{
    if d == 0 {
        proof {
            reveal_strlit("0");
        }
        "0"
    } else if d == 1 {
        proof {
            reveal_strlit("1");
        }
        "1"
    } else if d == 2 {
        proof {
            reveal_strlit("2");
        }
        "2"
    } else if d == 3 {
        proof {
            reveal_strlit("3");
        }
        "3"
    } else if d == 4 {
        proof {
            reveal_strlit("4");
        }
        "4"
    } else if d == 5 {
        proof {
            reveal_strlit("5");
        }
        "5"
    } else if d == 6 {
        proof {
            reveal_strlit("6");
        }
        "6"
    } else if d == 7 {
        proof {
            reveal_strlit("7");
        }
        "7"
    } else if d == 8 {
        proof {
            reveal_strlit("8");
        }
        "8"
    } else {
        proof {
            reveal_strlit("9");
        }
        "9"
    }
}

/// `n` written in decimal.
#[verifier::spinoff_prover]
pub fn decimal_string(n: u32) -> (r: String)
    ensures
        r@ == decimal(n as nat),
    decreases n,
{
    if n < 10 {
        digit_str(n).to_string()
    } else {
        let mut s = decimal_string(n / 10);
        s.append(digit_str(n % 10));
        s
    }
}

/// The buffers after building passes whose uniforms are kept under `keys`,
/// of `sizes` bytes, in order: a uniform buffer for each key.
pub open spec fn uniform_buffers_added(b: Seq<crate::graph::BufferView>, keys: Seq<Seq<char>>, sizes: Seq<nat>) -> Seq<
    crate::graph::BufferView,
>
    decreases keys.len(),
{
    if keys.len() == 0 {
        b
    } else {
        add_buffer(
            uniform_buffers_added(b, keys.drop_last(), sizes.drop_last()),
            keys.last(),
            sizes.last() as u64,
            BUFFER_USAGE_UNIFORM_BUFFER,
            MemoryLocation::CpuToGpu,
        )
    }
}

/// Building passes with uniforms only adds buffers.
#[verifier::spinoff_prover]
pub proof fn lemma_uniform_buffers_len(b: Seq<crate::graph::BufferView>, keys: Seq<Seq<char>>, sizes: Seq<nat>)
    ensures
        uniform_buffers_added(b, keys, sizes).len() >= b.len(),
    decreases keys.len(),
{
    if keys.len() > 0 {
        lemma_uniform_buffers_len(b, keys.drop_last(), sizes.drop_last());
    }
}

pub open spec fn shadow_pass_name(cascade: nat) -> Seq<char> {
    "shadow_pass_"@ + decimal(cascade)
}

/// The number of shadow cascades.
pub const SHADOW_MAP_CASCADE_COUNT: u32 = 4;

/// What `setup_shadow_pass` does to a graph.
#[verifier::opaque]
pub open spec fn setup_shadow_pass_done(a: Graph, b: Graph, shadow_map: TextureId, cascade_view_projections: Seq<Vec<u8>>, enabled: bool) -> bool {
    &&& b.wf()
    &&& pipelines_kept(a, b)
    &&& b.resources.textures == a.resources.textures
    &&& passes_appended(a, b, SHADOW_MAP_CASCADE_COUNT as nat)
    &&& (forall|k: int|
            0 <= k < SHADOW_MAP_CASCADE_COUNT ==> {
                let p = #[trigger] b.passes@[a.passes@.len() + k];
                &&& pass_is(
                    p,
                    shadow_pass_name(k as nat),
                    seq![],
                    seq![],
                    Some(
                        DepthAttachment::GraphHandle(
                            Attachment {
                                texture: shadow_map,
                                view: ViewType::Layer(k as u32),
                                load_op: AttachmentLoadOp::Clear,
                            },
                        ),
                    ),
                    if enabled {
                        RenderCommand::DrawMeshes
                    } else {
                        RenderCommand::Nothing
                    },
                    false,
                )
                &&& one_uniform(p, "cascade_view_projection"@, cascade_view_projections[k]@)
                &&& p.pipeline_handle < b.pipeline_descs@.len()
                &&& p.pipeline_handle == b.passes@[a.passes@.len() as int].pipeline_handle
                &&& pass_shaders(b, p) == mesh_shaders("utopian/shaders/shadow/shadow.vert"@,
                    "utopian/shaders/shadow/shadow.frag"@)
            })
    &&& buffers_view(b.resources.buffers@) == uniform_buffers_added(
            buffers_view(a.resources.buffers@),
            Seq::new(
                SHADOW_MAP_CASCADE_COUNT as nat,
                |k: int| spec_uniform_key(shadow_pass_name(k as nat), "cascade_view_projection"@),
            ),
            Seq::new(SHADOW_MAP_CASCADE_COUNT as nat, |k: int| cascade_view_projections[k]@.len()),
        )
}

/// The shadow passes: one per cascade, each rendering every mesh, when
/// enabled, into its layer of the shadow map, with that cascade's view
/// projection (given as uniform bytes); all of them share one pipeline.
#[verifier::spinoff_prover]
pub fn setup_shadow_pass(
    graph: &mut Graph,
    shadow_map: TextureId,
    cascade_view_projections: &Vec<Vec<u8>>,
    enabled: bool,
)
    requires
        old(graph).wf(),
        shadow_map < old(graph).resources.textures@.len(),
        cascade_view_projections@.len() == SHADOW_MAP_CASCADE_COUNT,
        forall|k: int|
            0 <= k < SHADOW_MAP_CASCADE_COUNT ==> (#[trigger] cascade_view_projections@[k])@.len()
                < MAX_UNIFORMS_SIZE,
    ensures
        setup_shadow_pass_done(*old(graph), *final(graph), shadow_map, cascade_view_projections@, enabled),
        final(graph).wf(),
        old(graph).resources.textures@.len() <= final(graph).resources.textures@.len(),
        old(graph).resources.buffers@.len() <= final(graph).resources.buffers@.len(),
{
    proof {
        reveal(setup_shadow_pass_done);
    }
    proof {
        reveal(pass_with);
        reveal(pass_is);
    }
    let ghost g0 = *graph;
    let ghost keys = Seq::new(
        SHADOW_MAP_CASCADE_COUNT as nat,
        |k: int| spec_uniform_key(shadow_pass_name(k as nat), "cascade_view_projection"@),
    );
    let ghost sizes = Seq::new(SHADOW_MAP_CASCADE_COUNT as nat, |k: int| cascade_view_projections@[k]@.len());
    let pipeline_handle = graph.create_pipeline(
        PipelineDesc::builder().vertex_path("utopian/shaders/shadow/shadow.vert").fragment_path(
            "utopian/shaders/shadow/shadow.frag",
        ).default_primitive_vertex_bindings().default_primitive_vertex_attributes().build(),
    );
    assert(graph.passes@.take(g0.passes@.len() as int) =~= g0.passes@);
    assert(pipelines_kept(g0, *graph)) by {
        reveal(pipelines_kept);
        assert forall|q: int| 0 <= q < g0.pipeline_descs@.len() implies desc_shaders(
            #[trigger] graph.pipeline_descs@[q]@,
        ) == desc_shaders(g0.pipeline_descs@[q]@) by {
            if graph.pipeline_descs@.len() > g0.pipeline_descs@.len() {
                assert(graph.pipeline_descs@[q] == g0.pipeline_descs@.push(graph.pipeline_descs@.last())[q]);
            }
        }
    }
    let mut i: u32 = 0;
    while i < SHADOW_MAP_CASCADE_COUNT
        invariant
            i <= SHADOW_MAP_CASCADE_COUNT,
            graph.wf(),
            pipelines_kept(g0, *graph),
            graph.resources.textures == g0.resources.textures,
            shadow_map < g0.resources.textures@.len(),
            cascade_view_projections@.len() == SHADOW_MAP_CASCADE_COUNT,
            forall|k: int|
                0 <= k < SHADOW_MAP_CASCADE_COUNT ==> (#[trigger] cascade_view_projections@[k])@.len()
                    < MAX_UNIFORMS_SIZE,
            keys == Seq::new(
                SHADOW_MAP_CASCADE_COUNT as nat,
                |k: int| spec_uniform_key(shadow_pass_name(k as nat), "cascade_view_projection"@),
            ),
            sizes == Seq::new(SHADOW_MAP_CASCADE_COUNT as nat, |k: int| cascade_view_projections@[k]@.len()),
            pipeline_handle < graph.pipeline_descs@.len(),
            desc_shaders(graph.pipeline_descs@[pipeline_handle as int]@) == mesh_shaders("utopian/shaders/shadow/shadow.vert"@,
                "utopian/shaders/shadow/shadow.frag"@),
            passes_appended(g0, *graph, i as nat),
            forall|k: int|
                0 <= k < i ==> {
                    let p = #[trigger] graph.passes@[g0.passes@.len() + k];
                    &&& pass_is(
                        p,
                        shadow_pass_name(k as nat),
                        seq![],
                        seq![],
                        Some(
                            DepthAttachment::GraphHandle(
                                Attachment {
                                    texture: shadow_map,
                                    view: ViewType::Layer(k as u32),
                                    load_op: AttachmentLoadOp::Clear,
                                },
                            ),
                        ),
                        if enabled {
                            RenderCommand::DrawMeshes
                        } else {
                            RenderCommand::Nothing
                        },
                        false,
                    )
                    &&& one_uniform(p, "cascade_view_projection"@, cascade_view_projections@[k]@)
                    &&& p.pipeline_handle == pipeline_handle
                },
            buffers_view(graph.resources.buffers@) == uniform_buffers_added(
                buffers_view(g0.resources.buffers@),
                keys.take(i as int),
                sizes.take(i as int),
            ),
        decreases SHADOW_MAP_CASCADE_COUNT - i,
    {
        let ghost g1 = *graph;
        let mut name = "shadow_pass_".to_string();
        name.append(decimal_string(i).as_str());
        let command = if enabled {
            RenderCommand::DrawMeshes
        } else {
            RenderCommand::Nothing
        };
        let pass = graph.add_pass(name, pipeline_handle).uniforms(
            "cascade_view_projection",
            cascade_view_projections[i as usize].as_slice(),
        ).depth_attachment_layer(shadow_map, i).command(command);
        pass.build(graph);
        proof {
            assert(g1.pipeline_descs@.take(g1.pipeline_descs@.len() as int) =~= g1.pipeline_descs@);
            lemma_pass_keeps_pipelines(g1, g1, *graph, pipeline_handle as int);
            lemma_pipelines_kept_trans(g0, g1, *graph);
            reveal(pass_with);
        reveal(pass_is);
            assert(keys.take(i + 1).drop_last() =~= keys.take(i as int));
            assert(sizes.take(i + 1).drop_last() =~= sizes.take(i as int));
            assert(keys[i as int] == spec_uniform_key(shadow_pass_name(i as nat), "cascade_view_projection"@));
            assert forall|k: int| 0 <= k < i + 1 implies {
                let p = #[trigger] graph.passes@[g0.passes@.len() + k];
                &&& pass_is(
                    p,
                    shadow_pass_name(k as nat),
                    seq![],
                    seq![],
                    Some(
                        DepthAttachment::GraphHandle(
                            Attachment {
                                texture: shadow_map,
                                view: ViewType::Layer(k as u32),
                                load_op: AttachmentLoadOp::Clear,
                            },
                        ),
                    ),
                    if enabled {
                        RenderCommand::DrawMeshes
                    } else {
                        RenderCommand::Nothing
                    },
                    false,
                )
                &&& one_uniform(p, "cascade_view_projection"@, cascade_view_projections@[k]@)
                &&& p.pipeline_handle == pipeline_handle
            } by {
                if k < i {
                    assert(graph.passes@[g0.passes@.len() + k] == g1.passes@[g0.passes@.len() + k]);
                }
            }
            assert(graph.passes@.take(g0.passes@.len() as int) =~= g0.passes@);
        }
        i = i + 1;
    }
    proof {
        assert(keys.take(SHADOW_MAP_CASCADE_COUNT as int) =~= keys);
        assert(sizes.take(SHADOW_MAP_CASCADE_COUNT as int) =~= sizes);
        lemma_uniform_buffers_len(buffers_view(g0.resources.buffers@), keys, sizes);
    }
}

/// What `setup_present_pass` does to a graph.
#[verifier::opaque]
pub open spec fn setup_present_pass_done(a: Graph, b: Graph, forward_output: TextureId, deferred_output: TextureId, fxaa_settings: Seq<u8>) -> bool {
    &&& b.wf()
    &&& pipelines_kept(a, b)
    &&& b.resources.textures == a.resources.textures
    &&& ({
            let p = b.passes@.last();
            &&& passes_appended(a, b, 1)
            &&& pass_is(
                p,
                "present_pass"@,
                seq![sampled_texture(forward_output), sampled_texture(deferred_output)],
                seq![],
                None,
                RenderCommand::Draw(3, 1, 0, 0),
                true,
            )
            &&& one_uniform(p, "settings_fxaa"@, fxaa_settings)
            &&& uniform_buffer_added(a, b, p.uniforms@[0].key@, fxaa_settings.len())
            &&& p.pipeline_handle < b.pipeline_descs@.len()
            &&& pass_shaders(b, p) == graphics_shaders("utopian/shaders/common/fullscreen.vert"@,
                "utopian/shaders/present/present.frag"@)
        })
}

/// The presentation pass: a fullscreen triangle into the swapchain image
/// that combines the forward and deferred outputs, with the anti-aliasing
/// settings given as uniform bytes.
#[verifier::spinoff_prover]
pub fn setup_present_pass(
    graph: &mut Graph,
    forward_output: TextureId,
    deferred_output: TextureId,
    fxaa_settings: &[u8],
)
    requires
        old(graph).wf(),
        forward_output < old(graph).resources.textures@.len(),
        deferred_output < old(graph).resources.textures@.len(),
        fxaa_settings@.len() < MAX_UNIFORMS_SIZE,
    ensures
        setup_present_pass_done(*old(graph), *final(graph), forward_output, deferred_output, fxaa_settings@),
        final(graph).wf(),
        old(graph).resources.textures@.len() <= final(graph).resources.textures@.len(),
        old(graph).resources.buffers@.len() <= final(graph).resources.buffers@.len(),
{
    proof {
        reveal(setup_present_pass_done);
    }
    proof {
        reveal(pass_with);
        reveal(pass_is);
    }
    let ghost a = *graph;
    let builder = graph.add_pass_from_desc(
        "present_pass",
        PipelineDesc::builder().vertex_path("utopian/shaders/common/fullscreen.vert").fragment_path(
            "utopian/shaders/present/present.frag",
        ),
    );
    let ghost b = *graph;
    let pass = builder.read(forward_output).read(deferred_output).uniforms("settings_fxaa", fxaa_settings).presentation_pass(
        true,
    ).draw(3, 1, 0, 0);
    assert(pass.reads@ =~= seq![sampled_texture(forward_output), sampled_texture(deferred_output)]);
    let ghost h = pass.pipeline_handle;
    pass.build(graph);
    proof {
        lemma_pass_keeps_pipelines(a, b, *graph, h as int);
    }
}

/// What `setup_forward_pass` does to a graph.
#[verifier::opaque]
pub open spec fn setup_forward_pass_done(a: Graph, b: Graph, depth_image: ImageDesc, forward_output: TextureId, shadow_map: TextureId, cascade_matrices: Seq<u8>) -> bool {
    &&& b.wf()
    &&& pipelines_kept(a, b)
    &&& b.resources.textures == a.resources.textures
    &&& ({
            let p = b.passes@.last();
            &&& passes_appended(a, b, 1)
            &&& pass_is(
                p,
                "forward_pass"@,
                seq![sampled_texture(shadow_map)],
                seq![color_target(forward_output)],
                Some(DepthAttachment::External(depth_image, AttachmentLoadOp::Clear)),
                RenderCommand::DrawMeshes,
                false,
            )
            &&& one_uniform(p, "shadowmapParams"@, cascade_matrices)
            &&& uniform_buffer_added(a, b, p.uniforms@[0].key@, cascade_matrices.len())
            &&& p.pipeline_handle < b.pipeline_descs@.len()
            &&& pass_shaders(b, p) == mesh_shaders("utopian/shaders/forward/forward.vert"@,
                "utopian/shaders/forward/forward.frag"@)
        })
}

/// The forward pass: every mesh rendered into `forward_output`, shadowed
/// with the cascades given as uniform bytes, over the given depth image.
#[verifier::spinoff_prover]
pub fn setup_forward_pass(
    graph: &mut Graph,
    depth_image: ImageDesc,
    forward_output: TextureId,
    shadow_map: TextureId,
    cascade_matrices: &[u8],
)
    requires
        old(graph).wf(),
        forward_output < old(graph).resources.textures@.len(),
        shadow_map < old(graph).resources.textures@.len(),
        cascade_matrices@.len() < MAX_UNIFORMS_SIZE,
    ensures
        setup_forward_pass_done(*old(graph), *final(graph), depth_image, forward_output, shadow_map, cascade_matrices@),
        final(graph).wf(),
        old(graph).resources.textures@.len() <= final(graph).resources.textures@.len(),
        old(graph).resources.buffers@.len() <= final(graph).resources.buffers@.len(),
{
    proof {
        reveal(setup_forward_pass_done);
    }
    proof {
        reveal(pass_with);
        reveal(pass_is);
    }
    let mut formats: Vec<i32> = Vec::new();
    formats.push(graph.resources.textures[forward_output].desc.format);
    let ghost a = *graph;
    let pipeline_handle = graph.create_pipeline(
        PipelineDesc::builder().vertex_path("utopian/shaders/forward/forward.vert").fragment_path(
            "utopian/shaders/forward/forward.frag",
        ).default_primitive_vertex_bindings().default_primitive_vertex_attributes().color_attachment_formats(
            formats,
        ).depth_stencil_attachment_format(depth_image.format).build(),
    );
    let ghost b = *graph;
    assert(b.pipeline_descs@.take(a.pipeline_descs@.len() as int) =~= a.pipeline_descs@);
    let pass = graph.add_pass("forward_pass".to_string(), pipeline_handle).read(shadow_map).write(
        forward_output,
    ).uniforms("shadowmapParams", cascade_matrices).external_depth_attachment(
        depth_image,
        AttachmentLoadOp::Clear,
    ).draw_meshes();
    assert(pass.reads@ =~= seq![sampled_texture(shadow_map)]);
    assert(pass.writes@ =~= seq![color_target(forward_output)]);
    let ghost h = pass.pipeline_handle;
    pass.build(graph);
    proof {
        lemma_pass_keeps_pipelines(a, b, *graph, h as int);
    }
}

/// What `setup_atmosphere_pass` does to a graph.
#[verifier::opaque]
pub open spec fn setup_atmosphere_pass_done(a: Graph, b: Graph, depth_image: ImageDesc, atmosphere_output: TextureId, environment_map: TextureId, constants: Seq<u8>, enabled: bool) -> bool {
    &&& b.wf()
    &&& pipelines_kept(a, b)
    &&& b.resources.textures == a.resources.textures
    &&& ({
            let p = b.passes@.last();
            &&& passes_appended(a, b, 1)
            &&& pass_is(
                p,
                "atmosphere_pass"@,
                seq![sampled_texture(environment_map)],
                seq![
                    Attachment {
                        texture: atmosphere_output,
                        view: ViewType::Full(),
                        load_op: AttachmentLoadOp::Load,
                    },
                ],
                Some(DepthAttachment::External(depth_image, AttachmentLoadOp::Load)),
                if enabled {
                    RenderCommand::DrawFirstMesh
                } else {
                    RenderCommand::Nothing
                },
                false,
            )
            &&& one_uniform(p, "ubo_constants"@, constants)
            &&& uniform_buffer_added(a, b, p.uniforms@[0].key@, constants.len())
            &&& p.pipeline_handle < b.pipeline_descs@.len()
            &&& pass_shaders(b, p) == mesh_shaders("utopian/shaders/atmosphere/atmosphere.vert"@,
                "utopian/shaders/atmosphere/atmosphere.frag"@)
        })
}

/// The atmosphere pass: the sky mesh, when enabled, drawn on top of
/// `atmosphere_output` with the environment map and the given projection
/// and world transform as uniform bytes, over the loaded depth image.
#[verifier::spinoff_prover]
pub fn setup_atmosphere_pass(
    graph: &mut Graph,
    depth_image: ImageDesc,
    atmosphere_output: TextureId,
    environment_map: TextureId,
    constants: &[u8],
    enabled: bool,
)
    requires
        old(graph).wf(),
        atmosphere_output < old(graph).resources.textures@.len(),
        environment_map < old(graph).resources.textures@.len(),
        constants@.len() < MAX_UNIFORMS_SIZE,
    ensures
        setup_atmosphere_pass_done(*old(graph), *final(graph), depth_image, atmosphere_output, environment_map, constants@, enabled),
        final(graph).wf(),
        old(graph).resources.textures@.len() <= final(graph).resources.textures@.len(),
        old(graph).resources.buffers@.len() <= final(graph).resources.buffers@.len(),
{
    proof {
        reveal(setup_atmosphere_pass_done);
    }
    proof {
        reveal(pass_with);
        reveal(pass_is);
    }
    let ghost a = *graph;
    let pipeline_handle = graph.create_pipeline(
        PipelineDesc::builder().vertex_path("utopian/shaders/atmosphere/atmosphere.vert").fragment_path(
            "utopian/shaders/atmosphere/atmosphere.frag",
        ).default_primitive_vertex_bindings().default_primitive_vertex_attributes().build(),
    );
    let ghost b = *graph;
    assert(b.pipeline_descs@.take(a.pipeline_descs@.len() as int) =~= a.pipeline_descs@);
    let command = if enabled {
        RenderCommand::DrawFirstMesh
    } else {
        RenderCommand::Nothing
    };
    let pass = graph.add_pass("atmosphere_pass".to_string(), pipeline_handle).load_write(atmosphere_output).read(
        environment_map,
    ).uniforms("ubo_constants", constants).external_depth_attachment(depth_image, AttachmentLoadOp::Load).command(
        command,
    );
    assert(pass.reads@ =~= seq![sampled_texture(environment_map)]);
    assert(pass.writes@ =~= seq![
        Attachment { texture: atmosphere_output, view: ViewType::Full(), load_op: AttachmentLoadOp::Load },
    ]);
    let ghost h = pass.pipeline_handle;
    pass.build(graph);
    proof {
        lemma_pass_keeps_pipelines(a, b, *graph, h as int);
    }
}

/// Bytes of one reservoir of the path tracer: two floats and two counters.
pub const RESERVOIR_SIZE: u32 = 16;

/// The buffers of the path tracer's reservoirs, one per pixel each.
#[verifier::opaque]
pub open spec fn reservoir_buffers(b: Seq<crate::graph::BufferView>, size: u64) -> Seq<crate::graph::BufferView> {
    let b1 = add_buffer(b, "initial_ris_reservoirs"@, size, BUFFER_USAGE_STORAGE_BUFFER, MemoryLocation::GpuOnly);
    let b2 = add_buffer(b1, "spatial_reuse_reservoirs"@, size, BUFFER_USAGE_STORAGE_BUFFER, MemoryLocation::GpuOnly);
    add_buffer(b2, "temporal_reuse_reservoirs"@, size, BUFFER_USAGE_STORAGE_BUFFER, MemoryLocation::GpuOnly)
}

/// The handles of the reservoir buffers created in `b`: initial, spatial
/// reuse and temporal reuse.
#[verifier::opaque]
pub open spec fn reservoir_handles(b: Seq<crate::graph::BufferView>, size: u64) -> (usize, usize, usize) {
    let b1 = add_buffer(b, "initial_ris_reservoirs"@, size, BUFFER_USAGE_STORAGE_BUFFER, MemoryLocation::GpuOnly);
    let b2 = add_buffer(b1, "spatial_reuse_reservoirs"@, size, BUFFER_USAGE_STORAGE_BUFFER, MemoryLocation::GpuOnly);
    (
        buffer_handle(b, "initial_ris_reservoirs"@) as usize,
        buffer_handle(b1, "spatial_reuse_reservoirs"@) as usize,
        buffer_handle(b2, "temporal_reuse_reservoirs"@) as usize,
    )
}

#[verifier::spinoff_prover]
fn reset_reservoirs_pass(graph: &mut Graph, b0: BufferId, b1: BufferId, b2: BufferId, width: u32, height: u32)
    requires
        old(graph).wf(),
        b0 < old(graph).resources.buffers@.len(),
        b1 < old(graph).resources.buffers@.len(),
        b2 < old(graph).resources.buffers@.len(),
        width + 15 <= u32::MAX,
        height + 15 <= u32::MAX,
    ensures
        one_plain_pass_added(*old(graph), *final(graph)),
        pass_is(
            final(graph).passes@.last(),
            "reset_reservoirs_pass"@,
            seq![storage_buffer_write(b0), storage_buffer_write(b1), storage_buffer_write(b2)],
            seq![],
            None,
            RenderCommand::Dispatch(((width + 15) / 16) as u32, ((height + 15) / 16) as u32, 1),
            false,
        ),
        pass_shaders(*final(graph), final(graph).passes@.last()) == compute_shader("utopian/shaders/restir/reset_reservoirs.comp"@),
{
    proof {
        reveal(pass_with);
        reveal(pass_is);
    }
    let ghost a = *graph;
    let builder = graph.add_pass_from_desc(
        "reset_reservoirs_pass",
        PipelineDesc::builder().compute_path("utopian/shaders/restir/reset_reservoirs.comp"),
    );
    let ghost b = *graph;
    let pass = builder.write_buffer(b0).write_buffer(b1).write_buffer(b2).dispatch((width + 15) / 16, (height + 15) / 16, 1);
    assert(pass.reads@ =~= seq![storage_buffer_write(b0), storage_buffer_write(b1), storage_buffer_write(b2)]);
    let ghost h = pass.pipeline_handle;
    pass.build(graph);
    proof {
        lemma_pass_keeps_pipelines(a, b, *graph, h as int);
    }
}

#[verifier::spinoff_prover]
fn initial_ris_pass(graph: &mut Graph, position: TextureId, initial: BufferId, width: u32, height: u32)
    requires
        old(graph).wf(),
        position < old(graph).resources.textures@.len(),
        initial < old(graph).resources.buffers@.len(),
    ensures
        one_plain_pass_added(*old(graph), *final(graph)),
        pass_is(
            final(graph).passes@.last(),
            "initial_ris_pass"@,
            seq![Resource::Tlas(0), sampled_texture(position), storage_buffer_write(initial)],
            seq![],
            None,
            RenderCommand::TraceRays(width, height, 1),
            false,
        ),
        pass_shaders(*final(graph), final(graph).passes@.last()) == raytracing_shaders("utopian/shaders/restir/initial_ris.rgen"@,
            "utopian/shaders/restir/initial_ris.rmiss"@,
            "utopian/shaders/restir/initial_ris.rchit"@),
{
    proof {
        reveal(pass_with);
        reveal(pass_is);
    }
    let ghost a = *graph;
    let builder = graph.add_pass_from_desc(
        "initial_ris_pass",
        PipelineDesc::builder().raygen_path("utopian/shaders/restir/initial_ris.rgen").miss_path(
            "utopian/shaders/restir/initial_ris.rmiss",
        ).hit_path("utopian/shaders/restir/initial_ris.rchit"),
    );
    let ghost b = *graph;
    let pass = builder.tlas(0).read(position).write_buffer(initial).trace_rays(width, height, 1);
    assert(pass.reads@ =~= seq![Resource::Tlas(0), sampled_texture(position), storage_buffer_write(initial)]);
    let ghost h = pass.pipeline_handle;
    pass.build(graph);
    proof {
        lemma_pass_keeps_pipelines(a, b, *graph, h as int);
    }
}

#[verifier::spinoff_prover]
fn temporal_reuse_pass(
    graph: &mut Graph,
    position: TextureId,
    normal: TextureId,
    initial: BufferId,
    spatial: BufferId,
    temporal: BufferId,
    width: u32,
    height: u32,
)
    requires
        old(graph).wf(),
        position < old(graph).resources.textures@.len(),
        normal < old(graph).resources.textures@.len(),
        initial < old(graph).resources.buffers@.len(),
        spatial < old(graph).resources.buffers@.len(),
        temporal < old(graph).resources.buffers@.len(),
    ensures
        one_plain_pass_added(*old(graph), *final(graph)),
        pass_is(
            final(graph).passes@.last(),
            "temporal_reuse_pass"@,
            seq![
                Resource::Tlas(0),
                sampled_texture(position),
                sampled_texture(normal),
                storage_buffer_read(initial),
                storage_buffer_read(spatial),
                storage_buffer_write(temporal),
            ],
            seq![],
            None,
            RenderCommand::TraceRays(width, height, 1),
            false,
        ),
        pass_shaders(*final(graph), final(graph).passes@.last()) == raytracing_shaders("utopian/shaders/restir/temporal_reuse.rgen"@,
            "utopian/shaders/restir/temporal_reuse.rmiss"@,
            "utopian/shaders/restir/temporal_reuse.rchit"@),
{
    proof {
        reveal(pass_with);
        reveal(pass_is);
    }
    let ghost a = *graph;
    let builder = graph.add_pass_from_desc(
        "temporal_reuse_pass",
        PipelineDesc::builder().raygen_path("utopian/shaders/restir/temporal_reuse.rgen").miss_path(
            "utopian/shaders/restir/temporal_reuse.rmiss",
        ).hit_path("utopian/shaders/restir/temporal_reuse.rchit"),
    );
    let ghost b = *graph;
    let pass = builder.tlas(0).read(position).read(normal).read_buffer(initial).read_buffer(spatial).write_buffer(temporal).trace_rays(
        width,
        height,
        1,
    );
    assert(pass.reads@ =~= seq![
        Resource::Tlas(0),
        sampled_texture(position),
        sampled_texture(normal),
        storage_buffer_read(initial),
        storage_buffer_read(spatial),
        storage_buffer_write(temporal),
    ]);
    let ghost h = pass.pipeline_handle;
    pass.build(graph);
    proof {
        lemma_pass_keeps_pipelines(a, b, *graph, h as int);
    }
}

#[verifier::spinoff_prover]
fn spatial_reuse_pass(
    graph: &mut Graph,
    position: TextureId,
    temporal: BufferId,
    spatial: BufferId,
    width: u32,
    height: u32,
)
    requires
        old(graph).wf(),
        position < old(graph).resources.textures@.len(),
        temporal < old(graph).resources.buffers@.len(),
        spatial < old(graph).resources.buffers@.len(),
    ensures
        one_plain_pass_added(*old(graph), *final(graph)),
        pass_is(
            final(graph).passes@.last(),
            "spatial_reuse_pass"@,
            seq![Resource::Tlas(0), sampled_texture(position), storage_buffer_read(temporal), storage_buffer_write(spatial)],
            seq![],
            None,
            RenderCommand::TraceRays(width, height, 1),
            false,
        ),
        pass_shaders(*final(graph), final(graph).passes@.last()) == raytracing_shaders("utopian/shaders/restir/spatial_reuse.rgen"@,
            "utopian/shaders/restir/spatial_reuse.rmiss"@,
            "utopian/shaders/restir/spatial_reuse.rchit"@),
{
    proof {
        reveal(pass_with);
        reveal(pass_is);
    }
    let ghost a = *graph;
    let builder = graph.add_pass_from_desc(
        "spatial_reuse_pass",
        PipelineDesc::builder().raygen_path("utopian/shaders/restir/spatial_reuse.rgen").miss_path(
            "utopian/shaders/restir/spatial_reuse.rmiss",
        ).hit_path("utopian/shaders/restir/spatial_reuse.rchit"),
    );
    let ghost b = *graph;
    let pass = builder.tlas(0).read(position).read_buffer(temporal).write_buffer(spatial).trace_rays(width, height, 1);
    assert(pass.reads@ =~= seq![
        Resource::Tlas(0),
        sampled_texture(position),
        storage_buffer_read(temporal),
        storage_buffer_write(spatial),
    ]);
    let ghost h = pass.pipeline_handle;
    pass.build(graph);
    proof {
        lemma_pass_keeps_pipelines(a, b, *graph, h as int);
    }
}

#[verifier::spinoff_prover]
fn reference_pt_pass(
    graph: &mut Graph,
    spatial: BufferId,
    output: TextureId,
    accumulation: TextureId,
    width: u32,
    height: u32,
)
    requires
        old(graph).wf(),
        spatial < old(graph).resources.buffers@.len(),
        output < old(graph).resources.textures@.len(),
        accumulation < old(graph).resources.textures@.len(),
    ensures
        one_plain_pass_added(*old(graph), *final(graph)),
        pass_is(
            final(graph).passes@.last(),
            "reference_pt_pass"@,
            seq![
                Resource::Tlas(0),
                storage_buffer_read(spatial),
                storage_image_write(output),
                storage_image_write(accumulation),
            ],
            seq![],
            None,
            RenderCommand::TraceRays(width, height, 1),
            false,
        ),
        pass_shaders(*final(graph), final(graph).passes@.last()) == raytracing_shaders("utopian/shaders/pathtrace_reference/reference.rgen"@,
            "utopian/shaders/pathtrace_reference/reference.rmiss"@,
            "utopian/shaders/pathtrace_reference/reference.rchit"@),
{
    proof {
        reveal(pass_with);
        reveal(pass_is);
    }
    let ghost a = *graph;
    let builder = graph.add_pass_from_desc(
        "reference_pt_pass",
        PipelineDesc::builder().raygen_path("utopian/shaders/pathtrace_reference/reference.rgen").miss_path(
            "utopian/shaders/pathtrace_reference/reference.rmiss",
        ).hit_path("utopian/shaders/pathtrace_reference/reference.rchit"),
    );
    let ghost b = *graph;
    let pass = builder.tlas(0).read_buffer(spatial).image_write(output).image_write(accumulation).trace_rays(width, height, 1);
    assert(pass.reads@ =~= seq![
        Resource::Tlas(0),
        storage_buffer_read(spatial),
        storage_image_write(output),
        storage_image_write(accumulation),
    ]);
    let ghost h = pass.pipeline_handle;
    pass.build(graph);
    proof {
        lemma_pass_keeps_pipelines(a, b, *graph, h as int);
    }
}

#[verifier::spinoff_prover]
fn blit_present_pass(graph: &mut Graph, output: TextureId)
    requires
        old(graph).wf(),
        output < old(graph).resources.textures@.len(),
    ensures
        one_plain_pass_added(*old(graph), *final(graph)),
        pass_is(
            final(graph).passes@.last(),
            "reference_pt_present_pass"@,
            seq![sampled_texture(output)],
            seq![],
            None,
            RenderCommand::Draw(3, 1, 0, 0),
            true,
        ),
        pass_shaders(*final(graph), final(graph).passes@.last()) == graphics_shaders("utopian/shaders/common/fullscreen.vert"@,
            "utopian/shaders/blit/blit.frag"@),
{
    proof {
        reveal(pass_with);
        reveal(pass_is);
    }
    let ghost a = *graph;
    let builder = graph.add_pass_from_desc(
        "reference_pt_present_pass",
        PipelineDesc::builder().vertex_path("utopian/shaders/common/fullscreen.vert").fragment_path(
            "utopian/shaders/blit/blit.frag",
        ),
    );
    let ghost b = *graph;
    let pass = builder.read(output).presentation_pass(true).draw(3, 1, 0, 0);
    assert(pass.reads@ =~= seq![sampled_texture(output)]);
    let ghost h = pass.pipeline_handle;
    pass.build(graph);
    proof {
        lemma_pass_keeps_pipelines(a, b, *graph, h as int);
    }
}

/// The textures of the path tracer: its output, its accumulation image and
/// the G-buffer.
#[verifier::opaque]
pub open spec fn path_tracing_textures(t: Seq<crate::graph::TextureView>, width: u32, height: u32) -> Seq<crate::graph::TextureView> {
    let t1 = add_texture(t, "pt_output_image"@, desc_2d(width, height, FORMAT_B8G8R8A8_UNORM));
    let t2 = add_texture(t1, "pt_accumulation_image"@, desc_2d(width, height, FORMAT_R32G32B32A32_SFLOAT));
    gbuffer_textures(t2, width, height)
}

/// The handles of the path tracer's output and accumulation images and of
/// its G-buffer, created in `t`.
#[verifier::opaque]
pub open spec fn path_tracing_handles(t: Seq<crate::graph::TextureView>, width: u32, height: u32) -> (
    usize,
    usize,
    (usize, usize, usize, usize),
) {
    let t1 = add_texture(t, "pt_output_image"@, desc_2d(width, height, FORMAT_B8G8R8A8_UNORM));
    let t2 = add_texture(t1, "pt_accumulation_image"@, desc_2d(width, height, FORMAT_R32G32B32A32_SFLOAT));
    (
        texture_handle(t, "pt_output_image"@) as usize,
        texture_handle(t1, "pt_accumulation_image"@) as usize,
        gbuffer_handles(t2, width, height),
    )
}

#[verifier::spinoff_prover]
fn path_tracing_resources(graph: &mut Graph, width: u32, height: u32) -> (r: (
    TextureId,
    TextureId,
    (TextureId, TextureId, TextureId, TextureId),
    (BufferId, BufferId, BufferId),
))
    requires
        old(graph).wf(),
        width * height * RESERVOIR_SIZE <= u32::MAX,
    ensures
        final(graph).wf(),
        final(graph).passes == old(graph).passes,
        final(graph).pipeline_descs == old(graph).pipeline_descs,
        textures_view(final(graph).resources.textures@) == path_tracing_textures(
            textures_view(old(graph).resources.textures@),
            width,
            height,
        ),
        (r.0, r.1, r.2) == path_tracing_handles(textures_view(old(graph).resources.textures@), width, height),
        buffers_view(final(graph).resources.buffers@) == reservoir_buffers(
            buffers_view(old(graph).resources.buffers@),
            (width * height * RESERVOIR_SIZE) as u64,
        ),
        r.3 == reservoir_handles(
            buffers_view(old(graph).resources.buffers@),
            (width * height * RESERVOIR_SIZE) as u64,
        ),
        r.0 < final(graph).resources.textures@.len(),
        r.1 < final(graph).resources.textures@.len(),
        r.2.0 < final(graph).resources.textures@.len(),
        r.2.1 < final(graph).resources.textures@.len(),
        r.2.2 < final(graph).resources.textures@.len(),
        r.2.3 < final(graph).resources.textures@.len(),
        r.3.0 < final(graph).resources.buffers@.len(),
        r.3.1 < final(graph).resources.buffers@.len(),
        r.3.2 < final(graph).resources.buffers@.len(),
{
    proof {
        reveal(create_gbuffer_textures_done);
    }
    proof {
        reveal(path_tracing_textures);
        reveal(path_tracing_handles);
        reveal(reservoir_buffers);
        reveal(reservoir_handles);
    }
    let output_image = graph.create_texture(
        "pt_output_image",
        ImageDesc::new_2d(width, height, FORMAT_B8G8R8A8_UNORM),
    );
    let accumulation_image = graph.create_texture(
        "pt_accumulation_image",
        ImageDesc::new_2d(width, height, FORMAT_R32G32B32A32_SFLOAT),
    );
    let gbuffer = create_gbuffer_textures(graph, width, height);
    let size = (width * height * RESERVOIR_SIZE) as u64;
    let initial = graph.create_buffer("initial_ris_reservoirs", size, BUFFER_USAGE_STORAGE_BUFFER, MemoryLocation::GpuOnly);
    let spatial = graph.create_buffer("spatial_reuse_reservoirs", size, BUFFER_USAGE_STORAGE_BUFFER, MemoryLocation::GpuOnly);
    let temporal = graph.create_buffer(
        "temporal_reuse_reservoirs",
        size,
        BUFFER_USAGE_STORAGE_BUFFER,
        MemoryLocation::GpuOnly,
    );
    (output_image, accumulation_image, gbuffer, (initial, spatial, temporal))
}

/// The reservoir passes of the path tracer: reset, initial candidates,
/// temporal reuse and spatial reuse.
#[verifier::spinoff_prover]
fn restir_passes(
    graph: &mut Graph,
    position: TextureId,
    normal: TextureId,
    rb: (BufferId, BufferId, BufferId),
    width: u32,
    height: u32,
)
    requires
        old(graph).wf(),
        position < old(graph).resources.textures@.len(),
        normal < old(graph).resources.textures@.len(),
        rb.0 < old(graph).resources.buffers@.len(),
        rb.1 < old(graph).resources.buffers@.len(),
        rb.2 < old(graph).resources.buffers@.len(),
        width + 15 <= u32::MAX,
        height + 15 <= u32::MAX,
    ensures
        final(graph).wf(),
        final(graph).resources == old(graph).resources,
        pipelines_kept(*old(graph), *final(graph)),
        ({
            let n = old(graph).passes@.len() as int;
            let ps = final(graph).passes@;
            &&& passes_appended(*old(graph), *final(graph), 4)
            &&& forall|k: int| 0 <= k < 4 ==> (#[trigger] ps[n + k]).uniforms@.len() == 0
            &&& forall|k: int| 0 <= k < 4 ==> (#[trigger] ps[n + k]).pipeline_handle < final(graph).pipeline_descs@.len()
            &&& pass_is(
                ps[n],
                "reset_reservoirs_pass"@,
                seq![storage_buffer_write(rb.0), storage_buffer_write(rb.1), storage_buffer_write(rb.2)],
                seq![],
                None,
                RenderCommand::Dispatch(((width + 15) / 16) as u32, ((height + 15) / 16) as u32, 1),
                false,
            )
            &&& pass_shaders(*final(graph), ps[n]) == compute_shader("utopian/shaders/restir/reset_reservoirs.comp"@)
            &&& pass_is(
                ps[n + 1],
                "initial_ris_pass"@,
                seq![Resource::Tlas(0), sampled_texture(position), storage_buffer_write(rb.0)],
                seq![],
                None,
                RenderCommand::TraceRays(width, height, 1),
                false,
            )
            &&& pass_shaders(*final(graph), ps[n + 1]) == raytracing_shaders(
                "utopian/shaders/restir/initial_ris.rgen"@,
                "utopian/shaders/restir/initial_ris.rmiss"@,
                "utopian/shaders/restir/initial_ris.rchit"@,
            )
            &&& pass_is(
                ps[n + 2],
                "temporal_reuse_pass"@,
                seq![
                    Resource::Tlas(0),
                    sampled_texture(position),
                    sampled_texture(normal),
                    storage_buffer_read(rb.0),
                    storage_buffer_read(rb.1),
                    storage_buffer_write(rb.2),
                ],
                seq![],
                None,
                RenderCommand::TraceRays(width, height, 1),
                false,
            )
            &&& pass_shaders(*final(graph), ps[n + 2]) == raytracing_shaders(
                "utopian/shaders/restir/temporal_reuse.rgen"@,
                "utopian/shaders/restir/temporal_reuse.rmiss"@,
                "utopian/shaders/restir/temporal_reuse.rchit"@,
            )
            &&& pass_is(
                ps[n + 3],
                "spatial_reuse_pass"@,
                seq![Resource::Tlas(0), sampled_texture(position), storage_buffer_read(rb.2), storage_buffer_write(rb.1)],
                seq![],
                None,
                RenderCommand::TraceRays(width, height, 1),
                false,
            )
            &&& pass_shaders(*final(graph), ps[n + 3]) == raytracing_shaders(
                "utopian/shaders/restir/spatial_reuse.rgen"@,
                "utopian/shaders/restir/spatial_reuse.rmiss"@,
                "utopian/shaders/restir/spatial_reuse.rchit"@,
            )
        }),
{
    let ghost g0 = *graph;
    reset_reservoirs_pass(graph, rb.0, rb.1, rb.2, width, height);
    let ghost g1 = *graph;
    initial_ris_pass(graph, position, rb.0, width, height);
    let ghost g2 = *graph;
    temporal_reuse_pass(graph, position, normal, rb.0, rb.1, rb.2, width, height);
    let ghost g3 = *graph;
    spatial_reuse_pass(graph, position, rb.2, rb.1, width, height);
    proof {
        let n = g0.passes@.len() as int;
        let ps = graph.passes@;
        lemma_pipelines_kept_trans(g0, g1, g2);
        lemma_pipelines_kept_trans(g2, g3, *graph);
        lemma_pipelines_kept_trans(g1, g2, *graph);
        lemma_pipelines_kept_trans(g0, g2, *graph);
        lemma_pipelines_kept_at(g1, *graph, g1.passes@[n].pipeline_handle as int);
        lemma_pipelines_kept_at(g2, *graph, g2.passes@[n + 1].pipeline_handle as int);
        lemma_pipelines_kept_at(g3, *graph, g3.passes@[n + 2].pipeline_handle as int);
        assert(ps.take(n) =~= g0.passes@);
        assert(ps[n] == g1.passes@[n]);
        assert(ps[n + 1] == g2.passes@[n + 1]);
        assert(ps[n + 2] == g3.passes@[n + 2]);
        assert forall|k: int| 0 <= k < 4 implies (#[trigger] ps[n + k]).uniforms@.len() == 0
            && ps[n + k].pipeline_handle < graph.pipeline_descs@.len() by {
            if k == 0 {
                assert(ps[n] == g1.passes@[n]);
            } else if k == 1 {
                assert(ps[n + 1] == g2.passes@[n + 1]);
            } else if k == 2 {
                assert(ps[n + 2] == g3.passes@[n + 2]);
            }
        }
    }
}

/// The graph of the path tracer: the G-buffer, reservoir based light
/// sampling (initial candidates, temporal and spatial reuse), the reference
/// path tracer into an output and an accumulation image, and a pass that
/// presents the output.
#[verifier::spinoff_prover]
pub fn build_path_tracing_render_graph(graph: &mut Graph, width: u32, height: u32, depth_image: ImageDesc)
    requires
        old(graph).wf(),
        width * height * RESERVOIR_SIZE <= u32::MAX,
        width + 15 <= u32::MAX,
        height + 15 <= u32::MAX,
    ensures
        final(graph).wf(),
        pipelines_kept(*old(graph), *final(graph)),
        ({
            let t0 = textures_view(old(graph).resources.textures@);
            let (output, accumulation, g) = path_tracing_handles(t0, width, height);
            let b0 = buffers_view(old(graph).resources.buffers@);
            let size = (width * height * RESERVOIR_SIZE) as u64;
            let rb = reservoir_handles(b0, size);
            let n = old(graph).passes@.len() as int;
            let ps = final(graph).passes@;
            &&& textures_view(final(graph).resources.textures@) == path_tracing_textures(t0, width, height)
            &&& buffers_view(final(graph).resources.buffers@) == reservoir_buffers(b0, size)
            &&& passes_appended(*old(graph), *final(graph), 7)
            &&& forall|k: int| 0 <= k < 7 ==> (#[trigger] ps[n + k]).uniforms@.len() == 0
            &&& forall|k: int| 0 <= k < 7 ==> (#[trigger] ps[n + k]).pipeline_handle < final(graph).pipeline_descs@.len()
            &&& pass_is(
                ps[n],
                "gbuffer_pass"@,
                seq![],
                seq![color_target(g.0), color_target(g.1), color_target(g.2), color_target(g.3)],
                Some(DepthAttachment::External(depth_image, AttachmentLoadOp::Clear)),
                RenderCommand::DrawMeshes,
                false,
            )
            &&& pass_shaders(*final(graph), ps[n]) == mesh_shaders(
                "utopian/shaders/gbuffer/gbuffer.vert"@,
                "utopian/shaders/gbuffer/gbuffer.frag"@,
            )
            &&& pass_is(
                ps[n + 1],
                "reset_reservoirs_pass"@,
                seq![storage_buffer_write(rb.0), storage_buffer_write(rb.1), storage_buffer_write(rb.2)],
                seq![],
                None,
                RenderCommand::Dispatch(((width + 15) / 16) as u32, ((height + 15) / 16) as u32, 1),
                false,
            )
            &&& pass_shaders(*final(graph), ps[n + 1]) == compute_shader("utopian/shaders/restir/reset_reservoirs.comp"@)
            &&& pass_is(
                ps[n + 2],
                "initial_ris_pass"@,
                seq![Resource::Tlas(0), sampled_texture(g.0), storage_buffer_write(rb.0)],
                seq![],
                None,
                RenderCommand::TraceRays(width, height, 1),
                false,
            )
            &&& pass_shaders(*final(graph), ps[n + 2]) == raytracing_shaders(
                "utopian/shaders/restir/initial_ris.rgen"@,
                "utopian/shaders/restir/initial_ris.rmiss"@,
                "utopian/shaders/restir/initial_ris.rchit"@,
            )
            &&& pass_is(
                ps[n + 3],
                "temporal_reuse_pass"@,
                seq![
                    Resource::Tlas(0),
                    sampled_texture(g.0),
                    sampled_texture(g.1),
                    storage_buffer_read(rb.0),
                    storage_buffer_read(rb.1),
                    storage_buffer_write(rb.2),
                ],
                seq![],
                None,
                RenderCommand::TraceRays(width, height, 1),
                false,
            )
            &&& pass_shaders(*final(graph), ps[n + 3]) == raytracing_shaders(
                "utopian/shaders/restir/temporal_reuse.rgen"@,
                "utopian/shaders/restir/temporal_reuse.rmiss"@,
                "utopian/shaders/restir/temporal_reuse.rchit"@,
            )
            &&& pass_is(
                ps[n + 4],
                "spatial_reuse_pass"@,
                seq![Resource::Tlas(0), sampled_texture(g.0), storage_buffer_read(rb.2), storage_buffer_write(rb.1)],
                seq![],
                None,
                RenderCommand::TraceRays(width, height, 1),
                false,
            )
            &&& pass_shaders(*final(graph), ps[n + 4]) == raytracing_shaders(
                "utopian/shaders/restir/spatial_reuse.rgen"@,
                "utopian/shaders/restir/spatial_reuse.rmiss"@,
                "utopian/shaders/restir/spatial_reuse.rchit"@,
            )
            &&& pass_is(
                ps[n + 5],
                "reference_pt_pass"@,
                seq![
                    Resource::Tlas(0),
                    storage_buffer_read(rb.1),
                    storage_image_write(output),
                    storage_image_write(accumulation),
                ],
                seq![],
                None,
                RenderCommand::TraceRays(width, height, 1),
                false,
            )
            &&& pass_shaders(*final(graph), ps[n + 5]) == raytracing_shaders(
                "utopian/shaders/pathtrace_reference/reference.rgen"@,
                "utopian/shaders/pathtrace_reference/reference.rmiss"@,
                "utopian/shaders/pathtrace_reference/reference.rchit"@,
            )
            &&& pass_is(
                ps[n + 6],
                "reference_pt_present_pass"@,
                seq![sampled_texture(output)],
                seq![],
                None,
                RenderCommand::Draw(3, 1, 0, 0),
                true,
            )
            &&& pass_shaders(*final(graph), ps[n + 6]) == graphics_shaders(
                "utopian/shaders/common/fullscreen.vert"@,
                "utopian/shaders/blit/blit.frag"@,
            )
        }),
{
    proof {
        reveal(setup_gbuffer_pass_done);
    }
    let ghost g0 = *graph;
    let (output_image, accumulation_image, gbuffer, reservoirs) = path_tracing_resources(graph, width, height);
    let ghost g1 = *graph;
    setup_gbuffer_pass(graph, depth_image, gbuffer.0, gbuffer.1, gbuffer.2, gbuffer.3);
    let ghost g2 = *graph;
    restir_passes(graph, gbuffer.0, gbuffer.1, reservoirs, width, height);
    let ghost g3 = *graph;
    reference_pt_pass(graph, reservoirs.1, output_image, accumulation_image, width, height);
    let ghost g4 = *graph;
    blit_present_pass(graph, output_image);
    proof {
        let n = g0.passes@.len() as int;
        let ps = graph.passes@;
        assert(pipelines_kept(g0, g1)) by {
            reveal(pipelines_kept);
        }
        lemma_pipelines_kept_trans(g0, g1, g2);
        lemma_pipelines_kept_trans(g3, g4, *graph);
        lemma_pipelines_kept_trans(g2, g3, *graph);
        lemma_pipelines_kept_trans(g0, g2, *graph);
        lemma_pipelines_kept_at(g2, *graph, g2.passes@[n].pipeline_handle as int);
        lemma_pipelines_kept_at(g3, *graph, g3.passes@[n + 1].pipeline_handle as int);
        lemma_pipelines_kept_at(g3, *graph, g3.passes@[n + 2].pipeline_handle as int);
        lemma_pipelines_kept_at(g3, *graph, g3.passes@[n + 3].pipeline_handle as int);
        lemma_pipelines_kept_at(g3, *graph, g3.passes@[n + 4].pipeline_handle as int);
        lemma_pipelines_kept_at(g4, *graph, g4.passes@[n + 5].pipeline_handle as int);
        assert(ps.take(n) =~= g0.passes@);
        assert(ps[n] == g2.passes@[n]);
        assert(ps[n + 1] == g3.passes@[n + 1]);
        assert(ps[n + 2] == g3.passes@[n + 2]);
        assert(ps[n + 3] == g3.passes@[n + 3]);
        assert(ps[n + 4] == g3.passes@[n + 4]);
        assert(ps[n + 5] == g4.passes@[n + 5]);
        assert(g3.passes@[n + 1] == g3.passes@[(g2.passes@.len() as int) + 0]);
        assert forall|k: int| 0 <= k < 7 implies (#[trigger] ps[n + k]).uniforms@.len() == 0
            && ps[n + k].pipeline_handle < graph.pipeline_descs@.len() by {
            if k == 0 {
                assert(ps[n] == g2.passes@[n]);
            } else if 1 <= k <= 4 {
                assert(ps[n + k] == g3.passes@[g2.passes@.len() + (k - 1)]);
            } else if k == 5 {
                assert(ps[n + 5] == g4.passes@[n + 5]);
            }
        }
    }
}

/// Voxels along each axis of the marching cubes grid.
pub const MARCHING_CUBES_VOXELS: u32 = 32;

/// Bytes of the marching cubes vertex buffer: room for five vertices per
/// voxel.
pub const MARCHING_CUBES_VERTEX_BYTES: u64 = 13107200;

/// Bytes of one indirect draw command: four counters.
pub const DRAW_INDIRECT_COMMAND_SIZE: u64 = 16;

#[verifier::spinoff_prover]
fn marching_cubes_compute_passes(graph: &mut Graph, vertex_buffer: BufferId, draw_command_buffer: BufferId, ubo: &[u8])
    requires
        old(graph).wf(),
        vertex_buffer < old(graph).resources.buffers@.len(),
        draw_command_buffer < old(graph).resources.buffers@.len(),
        ubo@.len() < MAX_UNIFORMS_SIZE,
    ensures
        final(graph).wf(),
        final(graph).resources.textures == old(graph).resources.textures,
        pipelines_kept(*old(graph), *final(graph)),
        passes_appended(*old(graph), *final(graph), 2),
        ({
            let n = old(graph).passes@.len() as int;
            let ps = final(graph).passes@;
            &&& pass_is(
                ps[n],
                "marching_cubes_reset_counter_pass"@,
                seq![storage_buffer_write(draw_command_buffer)],
                seq![],
                None,
                RenderCommand::Dispatch(1, 1, 1),
                false,
            )
            &&& ps[n].uniforms@.len() == 0
            &&& ps[n].pipeline_handle < final(graph).pipeline_descs@.len()
            &&& pass_shaders(*final(graph), ps[n]) == compute_shader("utopian/shaders/marching_cubes/reset_counter.comp"@)
            &&& pass_is(
                ps[n + 1],
                "marching_cubes_pass"@,
                seq![storage_buffer_write(draw_command_buffer), storage_buffer_write(vertex_buffer)],
                seq![],
                None,
                RenderCommand::Dispatch(MARCHING_CUBES_VOXELS, MARCHING_CUBES_VOXELS, MARCHING_CUBES_VOXELS),
                false,
            )
            &&& one_uniform(ps[n + 1], "ubo"@, ubo@)
            &&& ps[n + 1].pipeline_handle < final(graph).pipeline_descs@.len()
            &&& pass_shaders(*final(graph), ps[n + 1]) == compute_shader("utopian/shaders/marching_cubes/marching_cubes.comp"@)
            &&& uniform_buffer_added(*old(graph), *final(graph), ps[n + 1].uniforms@[0].key@, ubo@.len())
        }),
{
    proof {
        reveal(pass_with);
        reveal(pass_is);
    }
    let ghost a = *graph;
    let builder = graph.add_pass_from_desc(
        "marching_cubes_reset_counter_pass",
        PipelineDesc::builder().compute_path("utopian/shaders/marching_cubes/reset_counter.comp"),
    );
    let ghost b = *graph;
    let pass = builder.write_buffer(draw_command_buffer).dispatch(1, 1, 1);
    assert(pass.reads@ =~= seq![storage_buffer_write(draw_command_buffer)]);
    let ghost h = pass.pipeline_handle;
    pass.build(graph);
    let ghost c = *graph;
    proof {
        lemma_pass_keeps_pipelines(a, b, c, h as int);
    }
    let builder = graph.add_pass_from_desc(
        "marching_cubes_pass",
        PipelineDesc::builder().compute_path("utopian/shaders/marching_cubes/marching_cubes.comp"),
    );
    let ghost d = *graph;
    let pass = builder.write_buffer(draw_command_buffer).write_buffer(vertex_buffer).uniforms("ubo", ubo).dispatch(
        MARCHING_CUBES_VOXELS,
        MARCHING_CUBES_VOXELS,
        MARCHING_CUBES_VOXELS,
    );
    assert(pass.reads@ =~= seq![storage_buffer_write(draw_command_buffer), storage_buffer_write(vertex_buffer)]);
    let ghost h2 = pass.pipeline_handle;
    pass.build(graph);
    proof {
        lemma_pass_keeps_pipelines(c, d, *graph, h2 as int);
        lemma_pipelines_kept_trans(a, c, *graph);
        lemma_pipelines_kept_at(c, *graph, h as int);
        let n = a.passes@.len() as int;
        assert(graph.passes@[n] == c.passes@[n]);
        assert(graph.passes@.take(n) =~= a.passes@);
    }
}

/// What `setup_marching_cubes_pass` does to a graph.
#[verifier::opaque]
pub open spec fn setup_marching_cubes_pass_done(a: Graph, b: Graph, depth_image: ImageDesc, deferred_output: TextureId, shadow_map: TextureId, ubo: Seq<u8>, cascade_data: Seq<u8>, _enabled: bool) -> bool {
    &&& b.wf()
    &&& b.resources.textures == a.resources.textures
    &&& pipelines_kept(a, b)
    &&& passes_appended(a, b, 3)
    &&& ({
            let b0 = buffers_view(a.resources.buffers@);
            let b1 = add_buffer(
                b0,
                "marching_cubes_vertex_buffer"@,
                MARCHING_CUBES_VERTEX_BYTES,
                BUFFER_USAGE_STORAGE_BUFFER | BUFFER_USAGE_VERTEX_BUFFER,
                MemoryLocation::GpuOnly,
            );
            let b2 = add_buffer(
                b1,
                "marching_cubes_draw_command_buffer"@,
                DRAW_INDIRECT_COMMAND_SIZE,
                BUFFER_USAGE_STORAGE_BUFFER | BUFFER_USAGE_INDIRECT_BUFFER,
                MemoryLocation::GpuOnly,
            );
            let vertices = buffer_handle(b0, "marching_cubes_vertex_buffer"@) as usize;
            let draw = buffer_handle(b1, "marching_cubes_draw_command_buffer"@) as usize;
            let n = a.passes@.len() as int;
            let ps = b.passes@;
            &&& pass_is(
                ps[n],
                "marching_cubes_reset_counter_pass"@,
                seq![storage_buffer_write(draw)],
                seq![],
                None,
                RenderCommand::Dispatch(1, 1, 1),
                false,
            )
            &&& ps[n].uniforms@.len() == 0
            &&& ps[n].pipeline_handle < b.pipeline_descs@.len()
            &&& pass_shaders(b, ps[n]) == compute_shader("utopian/shaders/marching_cubes/reset_counter.comp"@)
            &&& pass_is(
                ps[n + 1],
                "marching_cubes_pass"@,
                seq![storage_buffer_write(draw), storage_buffer_write(vertices)],
                seq![],
                None,
                RenderCommand::Dispatch(MARCHING_CUBES_VOXELS, MARCHING_CUBES_VOXELS, MARCHING_CUBES_VOXELS),
                false,
            )
            &&& one_uniform(ps[n + 1], "ubo"@, ubo)
            &&& ps[n + 1].pipeline_handle < b.pipeline_descs@.len()
            &&& pass_shaders(b, ps[n + 1]) == compute_shader("utopian/shaders/marching_cubes/marching_cubes.comp"@)
            &&& pass_with(
                ps[n + 2],
                "marching_cubes_forward_pass"@,
                seq![sampled_texture(shadow_map)],
                seq![Attachment { texture: deferred_output, view: ViewType::Full(), load_op: AttachmentLoadOp::Load }],
                Some(DepthAttachment::External(depth_image, AttachmentLoadOp::Load)),
                RenderCommand::DrawIndirect(vertices, draw),
                false,
                None,
                Some(seq![(draw, AccessType::IndirectBuffer), (vertices, AccessType::VertexBuffer)]),
            )
            &&& one_uniform(ps[n + 2], "shadowmapParams"@, cascade_data)
            &&& ps[n + 2].pipeline_handle < b.pipeline_descs@.len()
            &&& pass_shaders(b, ps[n + 2]) == mesh_shaders(
                "utopian/shaders/forward/forward.vert"@,
                "utopian/shaders/forward/forward.frag"@,
            )
            &&& buffers_view(b.resources.buffers@) == uniform_buffers_added(
                b2,
                seq![ps[n + 1].uniforms@[0].key@, ps[n + 2].uniforms@[0].key@],
                seq![ubo.len(), cascade_data.len()],
            )
        })
}

/// The marching cubes terrain: compute passes that reset the draw counter
/// and generate the vertices of a 32x32x32 voxel grid (its parameters given
/// as uniform bytes), then a forward pass that draws them indirectly on top
/// of `deferred_output`, shadowed with the cascades given as uniform bytes,
/// over the loaded depth image.
#[verifier::spinoff_prover]
#[verifier::rlimit(40)]
pub fn setup_marching_cubes_pass(
    graph: &mut Graph,
    depth_image: ImageDesc,
    deferred_output: TextureId,
    shadow_map: TextureId,
    ubo: &[u8],
    cascade_data: &[u8],
    _enabled: bool,
)
    requires
        old(graph).wf(),
        deferred_output < old(graph).resources.textures@.len(),
        shadow_map < old(graph).resources.textures@.len(),
        ubo@.len() < MAX_UNIFORMS_SIZE,
        cascade_data@.len() < MAX_UNIFORMS_SIZE,
    ensures
        setup_marching_cubes_pass_done(*old(graph), *final(graph), depth_image, deferred_output, shadow_map, ubo@, cascade_data@, _enabled),
        final(graph).wf(),
        old(graph).resources.textures@.len() <= final(graph).resources.textures@.len(),
        old(graph).resources.buffers@.len() <= final(graph).resources.buffers@.len(),
{
    proof {
        reveal(setup_marching_cubes_pass_done);
    }
    proof {
        reveal(pass_with);
        reveal(pass_is);
    }
    let ghost g0 = *graph;
    let vertex_buffer = graph.create_buffer(
        "marching_cubes_vertex_buffer",
        MARCHING_CUBES_VERTEX_BYTES,
        BUFFER_USAGE_STORAGE_BUFFER | BUFFER_USAGE_VERTEX_BUFFER,
        MemoryLocation::GpuOnly,
    );
    let draw_command_buffer = graph.create_buffer(
        "marching_cubes_draw_command_buffer",
        DRAW_INDIRECT_COMMAND_SIZE,
        BUFFER_USAGE_STORAGE_BUFFER | BUFFER_USAGE_INDIRECT_BUFFER,
        MemoryLocation::GpuOnly,
    );
    let ghost g1 = *graph;
    marching_cubes_compute_passes(graph, vertex_buffer, draw_command_buffer, ubo);
    let ghost g2 = *graph;
    let builder = graph.add_pass_from_desc(
        "marching_cubes_forward_pass",
        PipelineDesc::builder().vertex_path("utopian/shaders/forward/forward.vert").fragment_path(
            "utopian/shaders/forward/forward.frag",
        ).default_primitive_vertex_bindings().default_primitive_vertex_attributes(),
    );
    let ghost g3 = *graph;
    let mut barriers: Vec<(BufferId, AccessType)> = Vec::new();
    barriers.push((draw_command_buffer, AccessType::IndirectBuffer));
    barriers.push((vertex_buffer, AccessType::VertexBuffer));
    let pass = builder.read(shadow_map).load_write(deferred_output).external_depth_attachment(
        depth_image,
        AttachmentLoadOp::Load,
    ).extra_barriers(barriers.as_slice()).uniforms("shadowmapParams", cascade_data).command(
        RenderCommand::DrawIndirect(vertex_buffer, draw_command_buffer),
    );
    assert(pass.reads@ =~= seq![sampled_texture(shadow_map)]);
    assert(pass.writes@ =~= seq![
        Attachment { texture: deferred_output, view: ViewType::Full(), load_op: AttachmentLoadOp::Load },
    ]);
    assert(barriers@ =~= seq![
        (draw_command_buffer, AccessType::IndirectBuffer),
        (vertex_buffer, AccessType::VertexBuffer),
    ]);
    let ghost h = pass.pipeline_handle;
    pass.build(graph);
    proof {
        assert(pipelines_kept(g0, g1)) by {
            reveal(pipelines_kept);
        }
        lemma_pass_keeps_pipelines(g2, g3, *graph, h as int);
        lemma_pipelines_kept_trans(g0, g1, g2);
        lemma_pipelines_kept_trans(g0, g2, *graph);
        let n = g0.passes@.len() as int;
        lemma_pipelines_kept_at(g2, *graph, g2.passes@[n].pipeline_handle as int);
        lemma_pipelines_kept_at(g2, *graph, g2.passes@[n + 1].pipeline_handle as int);
        assert(graph.passes@[n] == g2.passes@[n]);
        assert(graph.passes@[n + 1] == g2.passes@[n + 1]);
        assert(graph.passes@.take(n) =~= g0.passes@);
        let ps = graph.passes@;
        let b2 = buffers_view(g1.resources.buffers@);
        let keys = seq![ps[n + 1].uniforms@[0].key@, ps[n + 2].uniforms@[0].key@];
        let sizes = seq![ubo@.len(), cascade_data@.len()];
        assert(keys.drop_last() =~= seq![ps[n + 1].uniforms@[0].key@]);
        assert(sizes.drop_last() =~= seq![ubo@.len()]);
        assert(keys.drop_last().drop_last() =~= Seq::<Seq<char>>::empty());
        assert(sizes.drop_last().drop_last() =~= Seq::<nat>::empty());
        reveal_with_fuel(uniform_buffers_added, 3);
        assert(uniform_buffers_added(b2, keys.drop_last(), sizes.drop_last()) == buffers_view(g2.resources.buffers@));
        lemma_uniform_buffers_len(b2, keys, sizes);
        assert(buffers_view(graph.resources.buffers@).len() == graph.resources.buffers@.len());
        assert(b2.len() == g1.resources.buffers@.len());
    }
}

// ---------------------------------------------------------------------------
// Image based lighting
// ---------------------------------------------------------------------------
/// Size of the largest mip level of the environment maps.
pub const IBL_MIP0_SIZE: u32 = 512;

/// Mip levels of the environment and specular maps.
pub const IBL_NUM_MIPS: u32 = 8;

/// Faces of a cube map.
pub const CUBE_FACES: u32 = 6;

/// The size of mip level `mip` of the environment maps: the size of the
/// largest level halved `mip` times.
pub open spec fn mip_size(mip: nat) -> u32
    decreases mip,
{
    if mip == 0 {
        IBL_MIP0_SIZE
    } else {
        mip_size((mip - 1) as nat) / 2
    }
}

#[verifier::spinoff_prover]
fn mip_size_of(mip: u32) -> (r: u32)
    ensures
        r == mip_size(mip as nat),
{
    let mut size: u32 = IBL_MIP0_SIZE;
    let mut i: u32 = 0;
    while i < mip
        invariant
            i <= mip,
            size == mip_size(i as nat),
        decreases mip - i,
    {
        size = size / 2;
        i = i + 1;
    }
    size
}

pub open spec fn cubemap_pass_name(layer: nat, mip: nat) -> Seq<char> {
    "cubemap_pass_layer_"@ + decimal(layer) + "_mip_"@ + decimal(mip)
}

pub open spec fn irradiance_pass_name(layer: nat) -> Seq<char> {
    "irradiance_filter_pass_layer_"@ + decimal(layer)
}

pub open spec fn specular_pass_name(layer: nat, mip: nat) -> Seq<char> {
    "specular_filter_pass_layer_"@ + decimal(layer) + "_mip_"@ + decimal(mip)
}

#[verifier::spinoff_prover]
fn layer_mip_name(prefix: &str, layer: u32, mip: u32) -> (r: String)
    ensures
        r@ == prefix@ + decimal(layer as nat) + "_mip_"@ + decimal(mip as nat),
{
    let mut name = prefix.to_string();
    name.append(decimal_string(layer).as_str());
    name.append("_mip_");
    name.append(decimal_string(mip).as_str());
    name
}

/// The number of passes that update the image based lighting maps.
pub const IBL_PASS_COUNT: u32 = 103;

/// The name of the `k`-th pass that updates the image based lighting maps:
/// the environment map is rendered face by face and mip by mip, then the
/// irradiance map is filtered face by face, then the specular map face by
/// face and mip by mip, and last the BRDF lookup table is rendered.
pub open spec fn ibl_pass_name(k: int) -> Seq<char> {
    if k < 48 {
        cubemap_pass_name((k % 6) as nat, (k / 6) as nat)
    } else if k < 54 {
        irradiance_pass_name((k - 48) as nat)
    } else if k < 102 {
        specular_pass_name(((k - 54) % 6) as nat, ((k - 54) / 6) as nat)
    } else {
        "brdf_lut_pass"@
    }
}

/// The cube face the `k`-th pass renders.
pub open spec fn ibl_pass_face(k: int) -> int {
    if k < 48 {
        k % 6
    } else if k < 54 {
        k - 48
    } else {
        (k - 54) % 6
    }
}

/// The keys of the uniforms of the passes that have one.
pub open spec fn ibl_uniform_keys() -> Seq<Seq<char>> {
    Seq::new(102, |k: int| spec_uniform_key(ibl_pass_name(k), "params"@))
}

pub open spec fn ibl_uniform_sizes(face_params: Seq<Seq<u8>>) -> Seq<nat> {
    Seq::new(102, |k: int| face_params[ibl_pass_face(k)].len())
}

/// The `k`-th pass that updates the image based lighting maps.
#[verifier::opaque]
pub open spec fn ibl_pass(
    g: Graph,
    p: RenderPass,
    k: int,
    maps: (TextureId, TextureId, TextureId, TextureId, TextureId),
    face_params: Seq<Seq<u8>>,
) -> bool {
    let (environment_map, irradiance_map, specular_map, offscreen, brdf_lut) = maps;
    &&& p.pipeline_handle < g.pipeline_descs@.len()
    &&& if k < 48 {
        let (layer, mip) = (k % 6, k / 6);
        &&& pass_with(
            p,
            ibl_pass_name(k),
            seq![],
            seq![color_target(offscreen)],
            None,
            RenderCommand::FullscreenViewport(mip_size(mip as nat)),
            false,
            Some(
                TextureCopy {
                    src: offscreen,
                    dst: environment_map,
                    copy_desc: spec_image_copy(mip_size(mip as nat), mip_size(mip as nat), layer as u32, mip as u32),
                },
            ),
            None,
        )
        &&& one_uniform(p, "params"@, face_params[layer])
        &&& pass_shaders(g, p) == graphics_shaders(
            "utopian/shaders/common/fullscreen.vert"@,
            "utopian/shaders/ibl/cubemap.frag"@,
        )
    } else if k < 54 {
        let layer = k - 48;
        &&& pass_is(
            p,
            ibl_pass_name(k),
            seq![sampled_texture(environment_map)],
            seq![
                Attachment {
                    texture: irradiance_map,
                    view: ViewType::Layer(layer as u32),
                    load_op: AttachmentLoadOp::Clear,
                },
            ],
            None,
            RenderCommand::FullscreenViewport(IBL_MIP0_SIZE),
            false,
        )
        &&& one_uniform(p, "params"@, face_params[layer])
        &&& pass_shaders(g, p) == graphics_shaders(
            "utopian/shaders/common/fullscreen.vert"@,
            "utopian/shaders/ibl/irradiance_filter.frag"@,
        )
    } else if k < 102 {
        let (layer, mip) = ((k - 54) % 6, (k - 54) / 6);
        &&& pass_with(
            p,
            ibl_pass_name(k),
            seq![sampled_texture(environment_map)],
            seq![color_target(offscreen)],
            None,
            RenderCommand::PrefilterMip(mip_size(mip as nat), mip as u32, IBL_NUM_MIPS),
            false,
            Some(
                TextureCopy {
                    src: offscreen,
                    dst: specular_map,
                    copy_desc: spec_image_copy(mip_size(mip as nat), mip_size(mip as nat), layer as u32, mip as u32),
                },
            ),
            None,
        )
        &&& one_uniform(p, "params"@, face_params[layer])
        &&& pass_shaders(g, p) == graphics_shaders(
            "utopian/shaders/ibl/fullscreen_with_pushconst.vert"@,
            "utopian/shaders/ibl/specular_filter.frag"@,
        )
    } else {
        &&& pass_is(p, ibl_pass_name(k), seq![], seq![color_target(brdf_lut)], None, RenderCommand::Draw(3, 1, 0, 0), false)
        &&& p.uniforms@.len() == 0
        &&& pass_shaders(g, p) == graphics_shaders(
            "utopian/shaders/common/fullscreen.vert"@,
            "utopian/shaders/ibl/brdf_lut.frag"@,
        )
    }
}

/// A pass of `a` keeps being the `k`-th image based lighting pass in `b`.
#[verifier::spinoff_prover]
proof fn lemma_ibl_pass_kept(
    a: Graph,
    b: Graph,
    p: RenderPass,
    k: int,
    maps: (TextureId, TextureId, TextureId, TextureId, TextureId),
    face_params: Seq<Seq<u8>>,
)
    requires
        ibl_pass(a, p, k, maps, face_params),
        pipelines_kept(a, b),
    ensures
        ibl_pass(b, p, k, maps, face_params),
{
    reveal(ibl_pass);
    lemma_pipelines_kept_at(a, b, p.pipeline_handle as int);
}

/// The textures of image based lighting.
pub open spec fn ibl_textures(t: Seq<crate::graph::TextureView>) -> Seq<crate::graph::TextureView> {
    let t1 = add_texture(t, "environment_map"@, desc_cubemap_mips(IBL_MIP0_SIZE, IBL_NUM_MIPS));
    let t2 = add_texture(t1, "irradiance_map"@, desc_cubemap_mips(IBL_MIP0_SIZE, 1));
    let t3 = add_texture(t2, "specular_map"@, desc_cubemap_mips(IBL_MIP0_SIZE, IBL_NUM_MIPS));
    let t4 = add_texture(t3, "cubemap_offscreen"@, desc_2d(IBL_MIP0_SIZE, IBL_MIP0_SIZE, FORMAT_R32G32B32A32_SFLOAT));
    add_texture(t4, "brdf_lut"@, desc_2d(512, 512, FORMAT_R16G16_SFLOAT))
}

/// The handles of the environment, irradiance, specular, offscreen and
/// BRDF lookup textures created in `t`.
pub open spec fn ibl_handles(t: Seq<crate::graph::TextureView>) -> (usize, usize, usize, usize, usize) {
    let t1 = add_texture(t, "environment_map"@, desc_cubemap_mips(IBL_MIP0_SIZE, IBL_NUM_MIPS));
    let t2 = add_texture(t1, "irradiance_map"@, desc_cubemap_mips(IBL_MIP0_SIZE, 1));
    let t3 = add_texture(t2, "specular_map"@, desc_cubemap_mips(IBL_MIP0_SIZE, IBL_NUM_MIPS));
    let t4 = add_texture(t3, "cubemap_offscreen"@, desc_2d(IBL_MIP0_SIZE, IBL_MIP0_SIZE, FORMAT_R32G32B32A32_SFLOAT));
    (
        texture_handle(t, "environment_map"@) as usize,
        texture_handle(t1, "irradiance_map"@) as usize,
        texture_handle(t2, "specular_map"@) as usize,
        texture_handle(t3, "cubemap_offscreen"@) as usize,
        texture_handle(t4, "brdf_lut"@) as usize,
    )
}

/// A cube map of four-float texels with `mip_levels` mip levels.
pub open spec fn desc_cubemap_mips(size: u32, mip_levels: u32) -> ImageDesc {
    ImageDesc {
        width: size,
        height: size,
        depth: 1,
        array_layers: 6,
        mip_levels,
        format: FORMAT_R32G32B32A32_SFLOAT,
        image_type: ImageType::Cube,
        aspect_flags: IMAGE_ASPECT_COLOR,
        usage: DEFAULT_IMAGE_USAGE,
    }
}

pub open spec fn bytes_view(v: Seq<Vec<u8>>) -> Seq<Seq<u8>> {
    v.map_values(|x: Vec<u8>| x@)
}

/// The requirements on the texture handles and face parameters of the
/// image based lighting passes.
pub open spec fn ibl_inputs_ok(
    g: Graph,
    maps: (TextureId, TextureId, TextureId, TextureId, TextureId),
    face_params: Seq<Vec<u8>>,
) -> bool {
    &&& maps.0 < g.resources.textures@.len()
    &&& maps.1 < g.resources.textures@.len()
    &&& maps.2 < g.resources.textures@.len()
    &&& maps.3 < g.resources.textures@.len()
    &&& maps.4 < g.resources.textures@.len()
    &&& face_params.len() == CUBE_FACES
    &&& forall|f: int| 0 <= f < CUBE_FACES ==> (#[trigger] face_params[f])@.len() < MAX_UNIFORMS_SIZE
}

/// Adds the `k`-th image based lighting pass.
#[verifier::spinoff_prover]
#[verifier::rlimit(30)]
fn ibl_pass_step(
    graph: &mut Graph,
    k: u32,
    maps: (TextureId, TextureId, TextureId, TextureId, TextureId),
    face_params: &Vec<Vec<u8>>,
)
    requires
        old(graph).wf(),
        k < IBL_PASS_COUNT,
        ibl_inputs_ok(*old(graph), maps, face_params@),
    ensures
        final(graph).wf(),
        final(graph).resources.textures == old(graph).resources.textures,
        pipelines_kept(*old(graph), *final(graph)),
        passes_appended(*old(graph), *final(graph), 1),
        ibl_pass(*final(graph), final(graph).passes@.last(), k as int, maps, bytes_view(face_params@)),
        k < 102 ==> buffers_view(final(graph).resources.buffers@) == add_buffer(
            buffers_view(old(graph).resources.buffers@),
            ibl_uniform_keys()[k as int],
            ibl_uniform_sizes(bytes_view(face_params@))[k as int] as u64,
            BUFFER_USAGE_UNIFORM_BUFFER,
            MemoryLocation::CpuToGpu,
        ),
        k == 102 ==> final(graph).resources.buffers == old(graph).resources.buffers,
{
    proof {
        reveal(pass_with);
        reveal(pass_is);
        reveal(ibl_pass);
    }
    let (environment_map, irradiance_map, specular_map, offscreen, brdf_lut) = maps;
    let ghost a = *graph;
    let ghost fp = bytes_view(face_params@);
    if k < 48 {
        let layer = k % 6;
        let mip = k / 6;
        let size = mip_size_of(mip);
        let name = layer_mip_name("cubemap_pass_layer_", layer, mip);
        let builder = graph.add_pass_from_desc(
            name.as_str(),
            PipelineDesc::builder().vertex_path("utopian/shaders/common/fullscreen.vert").fragment_path(
                "utopian/shaders/ibl/cubemap.frag",
            ),
        );
        let ghost b = *graph;
        let pass = builder.write(offscreen).uniforms("params", face_params[layer as usize].as_slice()).command(
            RenderCommand::FullscreenViewport(size),
        ).copy_image(offscreen, environment_map, ImageCopy::new_region(size, size, layer, mip));
        assert(pass.writes@ =~= seq![color_target(offscreen)]);
        let ghost h = pass.pipeline_handle;
        pass.build(graph);
        proof {
            lemma_pass_keeps_pipelines(a, b, *graph, h as int);
            assert(fp[layer as int] == face_params@[layer as int]@);
        }
    } else if k < 54 {
        let layer = k - 48;
        let mut name = "irradiance_filter_pass_layer_".to_string();
        name.append(decimal_string(layer).as_str());
        let builder = graph.add_pass_from_desc(
            name.as_str(),
            PipelineDesc::builder().vertex_path("utopian/shaders/common/fullscreen.vert").fragment_path(
                "utopian/shaders/ibl/irradiance_filter.frag",
            ),
        );
        let ghost b = *graph;
        let pass = builder.read(environment_map).write_layer(irradiance_map, layer).uniforms(
            "params",
            face_params[layer as usize].as_slice(),
        ).command(RenderCommand::FullscreenViewport(IBL_MIP0_SIZE));
        assert(pass.reads@ =~= seq![sampled_texture(environment_map)]);
        assert(pass.writes@ =~= seq![
            Attachment { texture: irradiance_map, view: ViewType::Layer(layer), load_op: AttachmentLoadOp::Clear },
        ]);
        let ghost h = pass.pipeline_handle;
        pass.build(graph);
        proof {
            lemma_pass_keeps_pipelines(a, b, *graph, h as int);
            assert(fp[layer as int] == face_params@[layer as int]@);
        }
    } else if k < 102 {
        let layer = (k - 54) % 6;
        let mip = (k - 54) / 6;
        let size = mip_size_of(mip);
        let name = layer_mip_name("specular_filter_pass_layer_", layer, mip);
        let builder = graph.add_pass_from_desc(
            name.as_str(),
            PipelineDesc::builder().vertex_path("utopian/shaders/ibl/fullscreen_with_pushconst.vert").fragment_path(
                "utopian/shaders/ibl/specular_filter.frag",
            ),
        );
        let ghost b = *graph;
        let pass = builder.read(environment_map).write(offscreen).uniforms(
            "params",
            face_params[layer as usize].as_slice(),
        ).command(RenderCommand::PrefilterMip(size, mip, IBL_NUM_MIPS)).copy_image(
            offscreen,
            specular_map,
            ImageCopy::new_region(size, size, layer, mip),
        );
        assert(pass.reads@ =~= seq![sampled_texture(environment_map)]);
        assert(pass.writes@ =~= seq![color_target(offscreen)]);
        let ghost h = pass.pipeline_handle;
        pass.build(graph);
        proof {
            lemma_pass_keeps_pipelines(a, b, *graph, h as int);
            assert(fp[layer as int] == face_params@[layer as int]@);
        }
    } else {
        let builder = graph.add_pass_from_desc(
            "brdf_lut_pass",
            PipelineDesc::builder().vertex_path("utopian/shaders/common/fullscreen.vert").fragment_path(
                "utopian/shaders/ibl/brdf_lut.frag",
            ),
        );
        let ghost b = *graph;
        let pass = builder.write(brdf_lut).draw(3, 1, 0, 0);
        assert(pass.writes@ =~= seq![color_target(brdf_lut)]);
        let ghost h = pass.pipeline_handle;
        pass.build(graph);
        proof {
            lemma_pass_keeps_pipelines(a, b, *graph, h as int);
        }
    }
}

/// What `setup_cubemap_pass` does to a graph.
#[verifier::opaque]
pub open spec fn setup_cubemap_pass_done(a: Graph, b: Graph, face_params: Seq<Vec<u8>>, need_environment_map_update: bool, r: (TextureId, TextureId, TextureId, TextureId)) -> bool {
    &&& b.wf()
    &&& pipelines_kept(a, b)
    &&& ({
            let t0 = textures_view(a.resources.textures@);
            let maps = ibl_handles(t0);
            let n = a.passes@.len() as int;
            &&& textures_view(b.resources.textures@) == ibl_textures(t0)
            &&& r == (maps.0, maps.1, maps.2, maps.4)
            &&& if need_environment_map_update {
                &&& passes_appended(a, b, IBL_PASS_COUNT as nat)
                &&& forall|k: int|
                    0 <= k < IBL_PASS_COUNT ==> ibl_pass(
                        b,
                        #[trigger] b.passes@[n + k],
                        k,
                        maps,
                        bytes_view(face_params),
                    )
                &&& buffers_view(b.resources.buffers@) == uniform_buffers_added(
                    buffers_view(a.resources.buffers@),
                    ibl_uniform_keys(),
                    ibl_uniform_sizes(bytes_view(face_params)),
                )
            } else {
                &&& b.passes == a.passes
                &&& b.resources.buffers == a.resources.buffers
            }
        })
}

/// The maps of image based lighting: the environment map, its irradiance
/// and specular filtered versions and the BRDF lookup table (returned in
/// that order), plus an offscreen texture the faces are rendered to. When an
/// update is needed, passes render the environment map face by face and mip
/// by mip, filter it, and render the lookup table; each face's view and
/// projection are given as uniform bytes (they are only read then).
#[verifier::spinoff_prover]
pub fn setup_cubemap_pass(graph: &mut Graph, face_params: &Vec<Vec<u8>>, need_environment_map_update: bool) -> (r: (
    TextureId,
    TextureId,
    TextureId,
    TextureId,
))
    requires
        old(graph).wf(),
        need_environment_map_update ==> face_params@.len() == CUBE_FACES,
        need_environment_map_update ==> forall|f: int|
            0 <= f < CUBE_FACES ==> (#[trigger] face_params@[f])@.len() < MAX_UNIFORMS_SIZE,
    ensures
        setup_cubemap_pass_done(*old(graph), *final(graph), face_params@, need_environment_map_update, r),
        final(graph).wf(),
        old(graph).resources.textures@.len() <= final(graph).resources.textures@.len(),
        old(graph).resources.buffers@.len() <= final(graph).resources.buffers@.len(),
        r.0 < final(graph).resources.textures@.len(),
        r.1 < final(graph).resources.textures@.len(),
        r.2 < final(graph).resources.textures@.len(),
        r.3 < final(graph).resources.textures@.len(),
{
    proof {
        reveal(setup_cubemap_pass_done);
    }
    let ghost g0 = *graph;
    let environment_map = graph.create_texture(
        "environment_map",
        ImageDesc::new_cubemap(IBL_MIP0_SIZE, IBL_MIP0_SIZE, FORMAT_R32G32B32A32_SFLOAT).mip_levels(IBL_NUM_MIPS),
    );
    let irradiance_map = graph.create_texture(
        "irradiance_map",
        ImageDesc::new_cubemap(IBL_MIP0_SIZE, IBL_MIP0_SIZE, FORMAT_R32G32B32A32_SFLOAT),
    );
    let specular_map = graph.create_texture(
        "specular_map",
        ImageDesc::new_cubemap(IBL_MIP0_SIZE, IBL_MIP0_SIZE, FORMAT_R32G32B32A32_SFLOAT).mip_levels(IBL_NUM_MIPS),
    );
    let offscreen = graph.create_texture(
        "cubemap_offscreen",
        ImageDesc::new_2d(IBL_MIP0_SIZE, IBL_MIP0_SIZE, FORMAT_R32G32B32A32_SFLOAT),
    );
    let brdf_lut = graph.create_texture("brdf_lut", ImageDesc::new_2d(512, 512, FORMAT_R16G16_SFLOAT));
    let ghost g1 = *graph;
    proof {
        assert(pipelines_kept(g0, g1)) by {
            reveal(pipelines_kept);
        }
    }
    if !need_environment_map_update {
        return (environment_map, irradiance_map, specular_map, brdf_lut);
    }
    let maps = (environment_map, irradiance_map, specular_map, offscreen, brdf_lut);
    let ghost fp = bytes_view(face_params@);
    let ghost keys = ibl_uniform_keys();
    let ghost sizes = ibl_uniform_sizes(fp);
    assert(graph.passes@.take(g0.passes@.len() as int) =~= g0.passes@);
    let mut k: u32 = 0;
    while k < IBL_PASS_COUNT
        invariant
            k <= IBL_PASS_COUNT,
            graph.wf(),
            graph.resources.textures == g1.resources.textures,
            ibl_inputs_ok(*graph, maps, face_params@),
            fp == bytes_view(face_params@),
            keys == ibl_uniform_keys(),
            sizes == ibl_uniform_sizes(fp),
            pipelines_kept(g0, *graph),
            passes_appended(g0, *graph, k as nat),
            forall|j: int|
                0 <= j < k ==> ibl_pass(*graph, #[trigger] graph.passes@[g0.passes@.len() + j], j, maps, fp),
            buffers_view(graph.resources.buffers@) == uniform_buffers_added(
                buffers_view(g0.resources.buffers@),
                keys.take(if k < 102 { k as int } else { 102 }),
                sizes.take(if k < 102 { k as int } else { 102 }),
            ),
        decreases IBL_PASS_COUNT - k,
    {
        let ghost prev = *graph;
        ibl_pass_step(graph, k, maps, face_params);
        proof {
            let n = g0.passes@.len() as int;
            lemma_pipelines_kept_trans(g0, prev, *graph);
            assert forall|j: int| 0 <= j < k + 1 implies ibl_pass(
                *graph,
                #[trigger] graph.passes@[n + j],
                j,
                maps,
                fp,
            ) by {
                if j < k {
                    assert(graph.passes@[n + j] == prev.passes@[n + j]);
                    lemma_ibl_pass_kept(prev, *graph, prev.passes@[n + j], j, maps, fp);
                }
            }
            assert(graph.passes@.take(n) =~= g0.passes@);
            if k < 102 {
                assert(keys.take(k + 1).drop_last() =~= keys.take(k as int));
                assert(sizes.take(k + 1).drop_last() =~= sizes.take(k as int));
            }
        }
        k = k + 1;
    }
    proof {
        assert(keys.take(102) =~= keys);
        assert(sizes.take(102) =~= sizes);
        lemma_uniform_buffers_len(buffers_view(g0.resources.buffers@), keys, sizes);
    }
    (environment_map, irradiance_map, specular_map, brdf_lut)
}

// ---------------------------------------------------------------------------
// Whole frame graphs
// ---------------------------------------------------------------------------
/// What creating a texture named `name` with description `desc` does to a
/// graph.
#[verifier::opaque]
pub open spec fn texture_created(a: Graph, b: Graph, name: Seq<char>, desc: ImageDesc, r: TextureId) -> bool {
    &&& b.passes == a.passes
    &&& b.pipeline_descs == a.pipeline_descs
    &&& b.resources.buffers == a.resources.buffers
    &&& textures_view(b.resources.textures@) == add_texture(textures_view(a.resources.textures@), name, desc)
    &&& r == texture_handle(textures_view(a.resources.textures@), name)
}

#[verifier::spinoff_prover]
fn create_named_texture(graph: &mut Graph, name: &str, desc: ImageDesc) -> (r: TextureId)
    requires
        old(graph).wf(),
    ensures
        texture_created(*old(graph), *final(graph), name@, desc, r),
        final(graph).wf(),
        old(graph).resources.textures@.len() <= final(graph).resources.textures@.len(),
        old(graph).resources.buffers@.len() <= final(graph).resources.buffers@.len(),
        r < final(graph).resources.textures@.len(),
{
    proof {
        reveal(texture_created);
    }
    graph.create_texture(name, desc)
}

/// A minimal frame: a forward pass shadowed by cascaded shadow maps, then
/// the presentation pass. The graph after it is what creating the forward
/// output and the shadow map, then the shadow, forward and presentation
/// passes give, in that order.
#[verifier::spinoff_prover]
pub fn build_minimal_forward_render_graph(
    graph: &mut Graph,
    width: u32,
    height: u32,
    depth_image: ImageDesc,
    shadows_enabled: bool,
    cascade_view_projections: &Vec<Vec<u8>>,
    cascade_matrices: &[u8],
    fxaa_settings: &[u8],
)
    requires
        old(graph).wf(),
        cascade_view_projections@.len() == SHADOW_MAP_CASCADE_COUNT,
        forall|k: int|
            0 <= k < SHADOW_MAP_CASCADE_COUNT ==> (#[trigger] cascade_view_projections@[k])@.len()
                < MAX_UNIFORMS_SIZE,
        cascade_matrices@.len() < MAX_UNIFORMS_SIZE,
        fxaa_settings@.len() < MAX_UNIFORMS_SIZE,
    ensures
        final(graph).wf(),
        exists|g1: Graph, g2: Graph, g3: Graph, g4: Graph, forward_output: TextureId, shadow_map: TextureId|
            #![trigger texture_created(*old(graph), g1, "forward_output"@, desc_2d(width, height, FORMAT_R32G32B32A32_SFLOAT), forward_output), create_shadowmap_texture_done(g1, g2, shadow_map), setup_shadow_pass_done(g2, g3, shadow_map, cascade_view_projections@, shadows_enabled), setup_forward_pass_done(g3, g4, depth_image, forward_output, shadow_map, cascade_matrices@)]
            {
                &&& texture_created(
                    *old(graph),
                    g1,
                    "forward_output"@,
                    desc_2d(width, height, FORMAT_R32G32B32A32_SFLOAT),
                    forward_output,
                )
                &&& create_shadowmap_texture_done(g1, g2, shadow_map)
                &&& setup_shadow_pass_done(g2, g3, shadow_map, cascade_view_projections@, shadows_enabled)
                &&& setup_forward_pass_done(g3, g4, depth_image, forward_output, shadow_map, cascade_matrices@)
                &&& setup_present_pass_done(g4, *final(graph), forward_output, forward_output, fxaa_settings@)
            },
{
    let forward_output = create_named_texture(
        graph,
        "forward_output",
        ImageDesc::new_2d(width, height, FORMAT_R32G32B32A32_SFLOAT),
    );
    let ghost g1 = *graph;
    let shadow_map = create_shadowmap_texture(graph);
    let ghost g2 = *graph;
    setup_shadow_pass(graph, shadow_map, cascade_view_projections, shadows_enabled);
    let ghost g3 = *graph;
    setup_forward_pass(graph, depth_image, forward_output, shadow_map, cascade_matrices);
    let ghost g4 = *graph;
    setup_present_pass(graph, forward_output, forward_output, fxaa_settings);
}

/// Which optional parts of a frame run.
#[derive(Clone, Copy, Debug, PartialEq, Eq, Structural)]
pub struct RenderFeatures {
    pub shadows_enabled: bool,
    pub raytracing_supported: bool,
    pub marching_cubes_enabled: bool,
    pub need_environment_map_update: bool,
}

/// The uniform data of a frame's passes, as bytes: the view projection of
/// each shadow cascade, the cascade matrices and split depths, the view and
/// projection of each cube face, the marching cubes parameters, the
/// atmosphere's projection and world transform, and the anti-aliasing
/// settings.
pub struct FrameUniforms {
    pub cascade_view_projections: Vec<Vec<u8>>,
    pub cascade_data: Vec<u8>,
    pub cube_face_params: Vec<Vec<u8>>,
    pub marching_cubes: Vec<u8>,
    pub atmosphere: Vec<u8>,
    pub fxaa_settings: Vec<u8>,
}

impl FrameUniforms {
    /// Every uniform fits the room a pass has for it, and there is one per
    /// cascade and one per cube face.
    pub open spec fn fits(&self) -> bool {
        &&& self.cascade_view_projections@.len() == SHADOW_MAP_CASCADE_COUNT
        &&& forall|k: int|
            0 <= k < SHADOW_MAP_CASCADE_COUNT ==> (#[trigger] self.cascade_view_projections@[k])@.len()
                < MAX_UNIFORMS_SIZE
        &&& self.cube_face_params@.len() == CUBE_FACES
        &&& forall|f: int| 0 <= f < CUBE_FACES ==> (#[trigger] self.cube_face_params@[f])@.len() < MAX_UNIFORMS_SIZE
        &&& self.cascade_data@.len() < MAX_UNIFORMS_SIZE
        &&& self.marching_cubes@.len() < MAX_UNIFORMS_SIZE
        &&& self.atmosphere@.len() < MAX_UNIFORMS_SIZE
        &&& self.fxaa_settings@.len() < MAX_UNIFORMS_SIZE
    }
}

/// The deferred frame: the G-buffer, cascaded and ray traced shadows, image
/// based lighting and ray traced reflections, deferred lighting, the
/// optional marching cubes terrain, the atmosphere and the presentation
/// pass. The graph after it is what these steps give, in this order.
///
/// The ambient occlusion pass is not built here: its setup is not part of
/// this library, so the `ssao_output` texture is created and read by the
/// deferred pass, but no pass of this graph writes it.
#[verifier::spinoff_prover]
#[verifier::rlimit(40)]
pub fn build_render_graph(
    graph: &mut Graph,
    width: u32,
    height: u32,
    depth_image: ImageDesc,
    features: RenderFeatures,
    uniforms: &FrameUniforms,
)
    requires
        old(graph).wf(),
        uniforms.fits(),
    ensures
        final(graph).wf(),
        exists|
            g1: Graph,
            g2: Graph,
            g3: Graph,
            g4: Graph,
            g5: Graph,
            g6: Graph,
            g7: Graph,
            g8: Graph,
            g9: Graph,
            g10: Graph,
            g11: Graph,
            g12: Graph,
            gbuffer: (TextureId, TextureId, TextureId, TextureId),
            shadow_map: TextureId,
            deferred_output: TextureId,
            ssao_output: TextureId,
            rt_shadows: TextureId,
            ibl: (TextureId, TextureId, TextureId, TextureId),
            rt_reflections: TextureId,
        |
            #![trigger create_gbuffer_textures_done(*old(graph), g1, width, height, gbuffer), create_shadowmap_texture_done(g1, g2, shadow_map), texture_created(g2, g3, "deferred_output"@, desc_2d(width, height, FORMAT_R32G32B32A32_SFLOAT), deferred_output), texture_created(g3, g4, "ssao_output"@, desc_2d(width, height, FORMAT_R16_UNORM), ssao_output), setup_shadow_pass_done(g4, g5, shadow_map, uniforms.cascade_view_projections@, features.shadows_enabled), setup_rt_shadows_pass_done(g5, g6, gbuffer.0, gbuffer.1, width, height, features.raytracing_supported, rt_shadows), setup_gbuffer_pass_done(g6, g7, depth_image, gbuffer.0, gbuffer.1, gbuffer.2, gbuffer.3), setup_cubemap_pass_done(g7, g8, uniforms.cube_face_params@, features.need_environment_map_update, ibl), setup_rt_reflections_pass_done(g8, g9, gbuffer.0, gbuffer.1, gbuffer.3, ibl.1, ibl.2, ibl.3, width, height, features.raytracing_supported, rt_reflections), setup_deferred_pass_done(g9, g10, gbuffer.0, gbuffer.1, gbuffer.2, gbuffer.3, shadow_map, ssao_output, ibl.1, ibl.2, ibl.3, uniforms.cascade_data@, deferred_output), setup_atmosphere_pass_done(g11, g12, depth_image, deferred_output, ibl.0, uniforms.atmosphere@, true)]
            {
                &&& create_gbuffer_textures_done(*old(graph), g1, width, height, gbuffer)
                &&& create_shadowmap_texture_done(g1, g2, shadow_map)
                &&& texture_created(
                    g2,
                    g3,
                    "deferred_output"@,
                    desc_2d(width, height, FORMAT_R32G32B32A32_SFLOAT),
                    deferred_output,
                )
                &&& texture_created(g3, g4, "ssao_output"@, desc_2d(width, height, FORMAT_R16_UNORM), ssao_output)
                &&& setup_shadow_pass_done(
                    g4,
                    g5,
                    shadow_map,
                    uniforms.cascade_view_projections@,
                    features.shadows_enabled,
                )
                &&& setup_rt_shadows_pass_done(
                    g5,
                    g6,
                    gbuffer.0,
                    gbuffer.1,
                    width,
                    height,
                    features.raytracing_supported,
                    rt_shadows,
                )
                &&& setup_gbuffer_pass_done(g6, g7, depth_image, gbuffer.0, gbuffer.1, gbuffer.2, gbuffer.3)
                &&& setup_cubemap_pass_done(
                    g7,
                    g8,
                    uniforms.cube_face_params@,
                    features.need_environment_map_update,
                    ibl,
                )
                &&& setup_rt_reflections_pass_done(
                    g8,
                    g9,
                    gbuffer.0,
                    gbuffer.1,
                    gbuffer.3,
                    ibl.1,
                    ibl.2,
                    ibl.3,
                    width,
                    height,
                    features.raytracing_supported,
                    rt_reflections,
                )
                &&& setup_deferred_pass_done(
                    g9,
                    g10,
                    gbuffer.0,
                    gbuffer.1,
                    gbuffer.2,
                    gbuffer.3,
                    shadow_map,
                    ssao_output,
                    ibl.1,
                    ibl.2,
                    ibl.3,
                    uniforms.cascade_data@,
                    deferred_output,
                )
                &&& if features.marching_cubes_enabled {
                    setup_marching_cubes_pass_done(
                        g10,
                        g11,
                        depth_image,
                        deferred_output,
                        shadow_map,
                        uniforms.marching_cubes@,
                        uniforms.cascade_data@,
                        true,
                    )
                } else {
                    g11 == g10
                }
                &&& setup_atmosphere_pass_done(g11, g12, depth_image, deferred_output, ibl.0, uniforms.atmosphere@, true)
                &&& setup_present_pass_done(g12, *final(graph), deferred_output, deferred_output, uniforms.fxaa_settings@)
            },
{
    let gbuffer = create_gbuffer_textures(graph, width, height);
    let ghost g1 = *graph;
    let shadow_map = create_shadowmap_texture(graph);
    let ghost g2 = *graph;
    let deferred_output = create_named_texture(
        graph,
        "deferred_output",
        ImageDesc::new_2d(width, height, FORMAT_R32G32B32A32_SFLOAT),
    );
    let ghost g3 = *graph;
    let ssao_output = create_named_texture(graph, "ssao_output", ImageDesc::new_2d(width, height, FORMAT_R16_UNORM));
    let ghost g4 = *graph;
    setup_shadow_pass(graph, shadow_map, &uniforms.cascade_view_projections, features.shadows_enabled);
    let ghost g5 = *graph;
    let rt_shadows = setup_rt_shadows_pass(
        graph,
        gbuffer.0,
        gbuffer.1,
        width,
        height,
        features.raytracing_supported,
    );
    let ghost g6 = *graph;
    setup_gbuffer_pass(graph, depth_image, gbuffer.0, gbuffer.1, gbuffer.2, gbuffer.3);
    let ghost g7 = *graph;
    let ibl = setup_cubemap_pass(graph, &uniforms.cube_face_params, features.need_environment_map_update);
    let ghost g8 = *graph;
    let rt_reflections = setup_rt_reflections_pass(
        graph,
        gbuffer.0,
        gbuffer.1,
        gbuffer.3,
        ibl.1,
        ibl.2,
        ibl.3,
        width,
        height,
        features.raytracing_supported,
    );
    let ghost g9 = *graph;
    setup_deferred_pass(
        graph,
        gbuffer.0,
        gbuffer.1,
        gbuffer.2,
        gbuffer.3,
        shadow_map,
        ssao_output,
        ibl.1,
        ibl.2,
        ibl.3,
        uniforms.cascade_data.as_slice(),
        deferred_output,
    );
    let ghost g10 = *graph;
    if features.marching_cubes_enabled {
        setup_marching_cubes_pass(
            graph,
            depth_image,
            deferred_output,
            shadow_map,
            uniforms.marching_cubes.as_slice(),
            uniforms.cascade_data.as_slice(),
            true,
        );
    }
    let ghost g11 = *graph;
    setup_atmosphere_pass(graph, depth_image, deferred_output, ibl.0, uniforms.atmosphere.as_slice(), true);
    let ghost g12 = *graph;
    setup_present_pass(graph, deferred_output, deferred_output, uniforms.fxaa_settings.as_slice());
}

} // verus!
