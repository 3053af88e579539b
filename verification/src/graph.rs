use vstd::prelude::*;

use crate::image::{is_depth_image_fmt, spec_is_depth_format, ImageDesc, IMAGE_ASPECT_COLOR};
use crate::pipeline::{PipelineDescView, PipelineDesc, PipelineDescBuilder, PipelineType, spec_pipeline_type};
use crate::synch::{AccessType, Barrier, BarrierTarget};

verus! {

/// Virtual resource handles: plain indexes into the graph's resource lists.
pub type TextureId = usize;

pub type BufferId = usize;

pub type PipelineId = usize;

pub type TlasId = usize;

/// Room for the constant uniform data of one pass, in bytes.
pub const MAX_UNIFORMS_SIZE: usize = 2048;

/// Buffer usage bits (`VkBufferUsageFlags`) the graph names.
pub const BUFFER_USAGE_UNIFORM_BUFFER: u32 = 0x10;

pub const BUFFER_USAGE_STORAGE_BUFFER: u32 = 0x20;

pub const BUFFER_USAGE_VERTEX_BUFFER: u32 = 0x80;

pub const BUFFER_USAGE_INDIRECT_BUFFER: u32 = 0x100;

/// Where the memory of a buffer lives.
#[derive(Clone, Copy, Debug, PartialEq, Eq, Structural)]
pub enum MemoryLocation {
    Unknown,
    GpuOnly,
    CpuToGpu,
    GpuToCpu,
}

/// Which part of an image a pass renders to.
#[derive(Clone, Copy, Debug, PartialEq, Eq, Structural)]
pub enum ViewType {
    Full(),
    Layer(u32),
}

/// What happens to an attachment's contents when rendering begins.
#[derive(Clone, Copy, Debug, PartialEq, Eq, Structural)]
pub enum AttachmentLoadOp {
    Load,
    Clear,
    DontCare,
}

#[derive(Clone, Copy, Debug, PartialEq, Eq, Structural)]
pub struct Attachment {
    pub texture: TextureId,
    pub view: ViewType,
    pub load_op: AttachmentLoadOp,
}

#[derive(Clone, Copy, Debug, PartialEq, Eq, Structural)]
pub enum TextureResourceType {
    CombinedImageSampler,
    StorageImage,
}

#[derive(Clone, Copy, Debug, PartialEq, Eq, Structural)]
pub struct TextureResource {
    pub texture: TextureId,
    pub input_type: TextureResourceType,
    pub access_type: AccessType,
}

#[derive(Clone, Copy, Debug, PartialEq, Eq, Structural)]
pub struct BufferResource {
    pub buffer: BufferId,
    pub access_type: AccessType,
}

/// A resource that a pass reads through its input descriptor set.
#[derive(Clone, Copy, Debug, PartialEq, Eq, Structural)]
pub enum Resource {
    Texture(TextureResource),
    Buffer(BufferResource),
    Tlas(TlasId),
}

/// Either a graph owned depth attachment, or an image that the graph does
/// not own, known by its description.
#[derive(Clone, Copy, Debug, PartialEq, Eq, Structural)]
pub enum DepthAttachment {
    GraphHandle(Attachment),
    External(ImageDesc, AttachmentLoadOp),
}

#[derive(Clone, Copy, Debug, PartialEq, Eq, Structural)]
pub struct ImageSubresourceLayers {
    pub aspect_mask: u32,
    pub mip_level: u32,
    pub base_array_layer: u32,
    pub layer_count: u32,
}

#[derive(Clone, Copy, Debug, PartialEq, Eq, Structural)]
pub struct Offset3D {
    pub x: i32,
    pub y: i32,
    pub z: i32,
}

#[derive(Clone, Copy, Debug, PartialEq, Eq, Structural)]
pub struct Extent3D {
    pub width: u32,
    pub height: u32,
    pub depth: u32,
}

/// One region of an image to image copy.
#[derive(Clone, Copy, Debug, PartialEq, Eq, Structural)]
pub struct ImageCopy {
    pub src_subresource: ImageSubresourceLayers,
    pub src_offset: Offset3D,
    pub dst_subresource: ImageSubresourceLayers,
    pub dst_offset: Offset3D,
    pub extent: Extent3D,
}

impl ImageCopy {
    /// A copy of `width` by `height` texels from the first layer and mip
    /// level of the source to layer `dst_base_array_layer`, mip level
    /// `dst_mip_level` of the destination.
    pub fn new_region(width: u32, height: u32, dst_base_array_layer: u32, dst_mip_level: u32) -> (r: ImageCopy)
        ensures
            r == spec_image_copy(width, height, dst_base_array_layer, dst_mip_level),
    {
        ImageCopy {
            src_subresource: ImageSubresourceLayers {
                aspect_mask: IMAGE_ASPECT_COLOR,
                mip_level: 0,
                base_array_layer: 0,
                layer_count: 1,
            },
            src_offset: Offset3D { x: 0, y: 0, z: 0 },
            dst_subresource: ImageSubresourceLayers {
                aspect_mask: IMAGE_ASPECT_COLOR,
                mip_level: dst_mip_level,
                base_array_layer: dst_base_array_layer,
                layer_count: 1,
            },
            dst_offset: Offset3D { x: 0, y: 0, z: 0 },
            extent: Extent3D { width, height, depth: 1 },
        }
    }
}

pub open spec fn spec_image_copy(width: u32, height: u32, dst_base_array_layer: u32, dst_mip_level: u32) -> ImageCopy {
    ImageCopy {
        src_subresource: ImageSubresourceLayers {
            aspect_mask: IMAGE_ASPECT_COLOR,
            mip_level: 0,
            base_array_layer: 0,
            layer_count: 1,
        },
        src_offset: Offset3D { x: 0, y: 0, z: 0 },
        dst_subresource: ImageSubresourceLayers {
            aspect_mask: IMAGE_ASPECT_COLOR,
            mip_level: dst_mip_level,
            base_array_layer: dst_base_array_layer,
            layer_count: 1,
        },
        dst_offset: Offset3D { x: 0, y: 0, z: 0 },
        extent: Extent3D { width, height, depth: 1 },
    }
}

/// A copy that runs after a pass has rendered.
#[derive(Clone, Copy, Debug, PartialEq, Eq, Structural)]
pub struct TextureCopy {
    pub src: TextureId,
    pub dst: TextureId,
    pub copy_desc: ImageCopy,
}

/// The constant uniform data of a pass: a fixed-size byte area of which the
/// first `size` bytes are in use.
pub struct UniformData {
    pub data: Vec<u8>,
    pub size: u64,
}

/// Uniform data under its unique key (the pass name, `_`, the uniform
/// name) together with the uniform's own name in the shader.
pub struct UniformEntry {
    pub key: String,
    pub name: String,
    pub data: UniformData,
}

/// The commands a pass records once its attachments are bound.
#[derive(Clone, Copy, Debug, PartialEq, Eq, Structural)]
pub enum RenderCommand {
    /// Nothing is recorded.
    Nothing,
    /// The commands of a function that the application registered.
    Custom,
    /// A compute dispatch of the given group counts.
    Dispatch(u32, u32, u32),
    /// Tracing rays over the given extent.
    TraceRays(u32, u32, u32),
    /// A draw without vertex buffers: vertex count, instance count, first
    /// vertex, first instance.
    Draw(u32, u32, u32, u32),
    /// Every mesh of the scene, drawn with the pass's pipeline.
    DrawMeshes,
    /// The first mesh of the scene's first model, drawn indexed.
    DrawFirstMesh,
    /// A fullscreen triangle over a square viewport of the given size.
    FullscreenViewport(u32),
    /// A fullscreen triangle over a square viewport of the given size, with
    /// the roughness of mip level `mip` of `num_mips` as push constant.
    PrefilterMip(u32, u32, u32),
    /// An indirect draw whose vertices and draw command the given buffers hold.
    DrawIndirect(BufferId, BufferId),
}

/// Collects what one pass reads and writes before it is added to a graph.
pub struct PassBuilder {
    pub name: String,
    pub pipeline_handle: PipelineId,
    pub reads: Vec<Resource>,
    pub writes: Vec<Attachment>,
    pub render_command: RenderCommand,
    pub depth_attachment: Option<DepthAttachment>,
    pub presentation_pass: bool,
    pub uniforms: Vec<UniformEntry>,
    pub copy_command: Option<TextureCopy>,
    pub extra_barriers: Option<Vec<(BufferId, AccessType)>>,
}

/// A pass of the graph.
pub struct RenderPass {
    pub name: String,
    pub pipeline_handle: PipelineId,
    pub render_command: RenderCommand,
    pub reads: Vec<Resource>,
    pub writes: Vec<Attachment>,
    pub depth_attachment: Option<DepthAttachment>,
    pub presentation_pass: bool,
    pub uniforms: Vec<UniformEntry>,
    pub uniform_buffer: Option<BufferId>,
    pub copy_command: Option<TextureCopy>,
    pub extra_barriers: Option<Vec<(BufferId, AccessType)>>,
    pub has_read_resources_descriptor_set: bool,
    pub has_uniforms_descriptor_set: bool,
}

/// A texture owned by the graph and the access it was last used with.
pub struct GraphTexture {
    pub name: String,
    pub desc: ImageDesc,
    pub prev_access: AccessType,
}

/// A buffer owned by the graph and the access it was last used with.
pub struct GraphBuffer {
    pub name: String,
    pub size: u64,
    pub usage: u32,
    pub memory_location: MemoryLocation,
    pub prev_access: AccessType,
}

/// The resources owned by the graph. They are created once and kept from
/// frame to frame: this is what lets the graph cache them.
pub struct GraphResources {
    pub buffers: Vec<GraphBuffer>,
    pub textures: Vec<GraphTexture>,
}

/// The frame graph: its passes, its resources and the descriptions of the
/// pipelines its passes use.
pub struct Graph {
    pub passes: Vec<RenderPass>,
    pub resources: GraphResources,
    pub pipeline_descs: Vec<PipelineDesc>,
    pub profiling_enabled: bool,
}

// ---------------------------------------------------------------------------
// Well-formedness
// ---------------------------------------------------------------------------
pub open spec fn uniform_entries_wf(uniforms: Seq<UniformEntry>) -> bool {
    &&& forall|i: int|
        0 <= i < uniforms.len() ==> (#[trigger] uniforms[i]).data.data@.len() == MAX_UNIFORMS_SIZE
    &&& forall|i: int|
        0 <= i < uniforms.len() ==> (#[trigger] uniforms[i]).data.size <= MAX_UNIFORMS_SIZE
    &&& forall|i: int, j: int|
        0 <= i < j < uniforms.len() ==> (#[trigger] uniforms[i]).key@ != (#[trigger] uniforms[j]).key@
}

pub open spec fn spec_uniform_key(pass_name: Seq<char>, name: Seq<char>) -> Seq<char> {
    pass_name + seq!['_'] + name
}

pub open spec fn resource_in_range(r: Resource, num_textures: nat, num_buffers: nat) -> bool {
    match r {
        Resource::Texture(t) => t.texture < num_textures,
        Resource::Buffer(b) => b.buffer < num_buffers,
        Resource::Tlas(_) => true,
    }
}

pub open spec fn depth_in_range(d: Option<DepthAttachment>, num_textures: nat) -> bool {
    match d {
        Some(DepthAttachment::GraphHandle(a)) => a.texture < num_textures,
        _ => true,
    }
}

pub open spec fn extra_barriers_seq(e: Option<Vec<(BufferId, AccessType)>>) -> Seq<(BufferId, AccessType)> {
    match e {
        Some(v) => v@,
        None => Seq::empty(),
    }
}

pub open spec fn copy_in_range(c: Option<TextureCopy>, num_textures: nat) -> bool {
    match c {
        Some(c) => c.src < num_textures && c.dst < num_textures,
        None => true,
    }
}

impl RenderPass {
    /// Every handle the pass holds names a resource or pipeline of a graph
    /// with the given numbers of textures, buffers and pipelines.
    pub open spec fn handles_valid(&self, num_textures: nat, num_buffers: nat, num_pipelines: nat) -> bool {
        &&& self.pipeline_handle < num_pipelines
        &&& forall|i: int|
            0 <= i < self.reads@.len() ==> resource_in_range(
                #[trigger] self.reads@[i],
                num_textures,
                num_buffers,
            )
        &&& forall|i: int| 0 <= i < self.writes@.len() ==> (#[trigger] self.writes@[i]).texture < num_textures
        &&& depth_in_range(self.depth_attachment, num_textures)
        &&& forall|i: int|
            0 <= i < extra_barriers_seq(self.extra_barriers).len() ==> (#[trigger] extra_barriers_seq(
                self.extra_barriers,
            )[i]).0 < num_buffers
        &&& copy_in_range(self.copy_command, num_textures)
        &&& match self.uniform_buffer {
            Some(b) => b < num_buffers,
            None => true,
        }
        &&& uniform_entries_wf(self.uniforms@)
        &&& (self.uniform_buffer is Some <==> self.uniforms@.len() > 0)
    }
}

impl Graph {
    pub open spec fn wf(&self) -> bool {
        forall|i: int|
            0 <= i < self.passes@.len() ==> (#[trigger] self.passes@[i]).handles_valid(
                self.resources.textures@.len(),
                self.resources.buffers@.len(),
                self.pipeline_descs@.len(),
            )
    }
}

// ---------------------------------------------------------------------------
// Resources
// ---------------------------------------------------------------------------
impl GraphResources {
    pub fn new() -> (r: GraphResources)
        ensures
            r.buffers@.len() == 0,
            r.textures@.len() == 0,
    {
        GraphResources { buffers: Vec::new(), textures: Vec::new() }
    }

    pub fn buffer(&self, id: BufferId) -> (r: &GraphBuffer)
        requires
            id < self.buffers@.len(),
        ensures
            *r == self.buffers@[id as int],
    {
        &self.buffers[id]
    }

    pub fn texture(&self, id: TextureId) -> (r: &GraphTexture)
        requires
            id < self.textures@.len(),
        ensures
            *r == self.textures@[id as int],
    {
        &self.textures[id]
    }
}

/// What the graph knows of a texture.
pub struct TextureView {
    pub name: Seq<char>,
    pub desc: ImageDesc,
    pub prev_access: AccessType,
}

pub open spec fn textures_view(t: Seq<GraphTexture>) -> Seq<TextureView> {
    t.map_values(|x: GraphTexture| TextureView { name: x.name@, desc: x.desc, prev_access: x.prev_access })
}

pub open spec fn has_texture_named(t: Seq<TextureView>, name: Seq<char>) -> bool {
    exists|i: int| 0 <= i < t.len() && (#[trigger] t[i]).name == name
}

pub open spec fn first_texture_named(t: Seq<TextureView>, name: Seq<char>) -> int {
    choose|i: int|
        0 <= i < t.len() && (#[trigger] t[i]).name == name && forall|j: int| 0 <= j < i ==> t[j].name != name
}

/// The handle that creating a texture named `name` gives: the first
/// texture of that name, else a new one.
pub open spec fn texture_handle(t: Seq<TextureView>, name: Seq<char>) -> int {
    if has_texture_named(t, name) {
        first_texture_named(t, name)
    } else {
        t.len() as int
    }
}

/// The textures after creating one named `name`: unchanged when one of that
/// name exists, else with a new texture of that description added last.
pub open spec fn add_texture(t: Seq<TextureView>, name: Seq<char>, desc: ImageDesc) -> Seq<TextureView> {
    if has_texture_named(t, name) {
        t
    } else {
        t.push(TextureView { name, desc, prev_access: AccessType::Nothing })
    }
}

/// A texture of some name has a first one of that name.
pub proof fn lemma_first_texture_named(t: Seq<TextureView>, name: Seq<char>, i: int)
    requires
        0 <= i < t.len(),
        t[i].name == name,
    ensures
        has_texture_named(t, name),
        0 <= texture_handle(t, name) <= i,
        t[texture_handle(t, name)].name == name,
        forall|j: int| 0 <= j < texture_handle(t, name) ==> t[j].name != name,
    decreases i,
{
    if exists|j: int| 0 <= j < i && (#[trigger] t[j]).name == name {
        let j = choose|j: int| 0 <= j < i && (#[trigger] t[j]).name == name;
        lemma_first_texture_named(t, name, j);
    } else {
        assert(0 <= i < t.len() && t[i].name == name && forall|j: int| 0 <= j < i ==> t[j].name != name);
    }
}

/// What the graph knows of a buffer.
pub struct BufferView {
    pub name: Seq<char>,
    pub size: u64,
    pub usage: u32,
    pub memory_location: MemoryLocation,
    pub prev_access: AccessType,
}

pub open spec fn buffers_view(b: Seq<GraphBuffer>) -> Seq<BufferView> {
    b.map_values(
        |x: GraphBuffer|
            BufferView {
                name: x.name@,
                size: x.size,
                usage: x.usage,
                memory_location: x.memory_location,
                prev_access: x.prev_access,
            },
    )
}

pub open spec fn has_buffer_named(b: Seq<BufferView>, name: Seq<char>) -> bool {
    exists|i: int| 0 <= i < b.len() && (#[trigger] b[i]).name == name
}

pub open spec fn first_buffer_named(b: Seq<BufferView>, name: Seq<char>) -> int {
    choose|i: int|
        0 <= i < b.len() && (#[trigger] b[i]).name == name && forall|j: int| 0 <= j < i ==> b[j].name != name
}

/// The handle that creating a buffer named `name` gives: the first buffer
/// of that name, else a new one.
pub open spec fn buffer_handle(b: Seq<BufferView>, name: Seq<char>) -> int {
    if has_buffer_named(b, name) {
        first_buffer_named(b, name)
    } else {
        b.len() as int
    }
}

/// The buffers after creating one named `name`: unchanged when one of that
/// name exists, else with a new buffer added last.
pub open spec fn add_buffer(
    b: Seq<BufferView>,
    name: Seq<char>,
    size: u64,
    usage: u32,
    memory_location: MemoryLocation,
) -> Seq<BufferView> {
    if has_buffer_named(b, name) {
        b
    } else {
        b.push(BufferView { name, size, usage, memory_location, prev_access: AccessType::Nothing })
    }
}

/// A buffer of some name has a first one of that name.
pub proof fn lemma_first_buffer_named(b: Seq<BufferView>, name: Seq<char>, i: int)
    requires
        0 <= i < b.len(),
        b[i].name == name,
    ensures
        has_buffer_named(b, name),
        0 <= buffer_handle(b, name) <= i,
        b[buffer_handle(b, name)].name == name,
        forall|j: int| 0 <= j < buffer_handle(b, name) ==> b[j].name != name,
    decreases i,
{
    if exists|j: int| 0 <= j < i && (#[trigger] b[j]).name == name {
        let j = choose|j: int| 0 <= j < i && (#[trigger] b[j]).name == name;
        lemma_first_buffer_named(b, name, j);
    } else {
        assert(0 <= i < b.len() && b[i].name == name && forall|j: int| 0 <= j < i ==> b[j].name != name);
    }
}

/// The descriptions of the graph's pipelines.
pub open spec fn descs_view(d: Seq<PipelineDesc>) -> Seq<PipelineDescView> {
    d.map_values(|x: PipelineDesc| x@)
}

pub open spec fn has_desc(d: Seq<PipelineDescView>, v: PipelineDescView) -> bool {
    exists|i: int| 0 <= i < d.len() && d[i] == v
}

pub open spec fn first_desc(d: Seq<PipelineDescView>, v: PipelineDescView) -> int {
    choose|i: int| 0 <= i < d.len() && d[i] == v && forall|j: int| 0 <= j < i ==> d[j] != v
}

/// The handle that creating a pipeline described by `v` gives: the first
/// equal description, else a new one.
pub open spec fn pipeline_handle(d: Seq<PipelineDescView>, v: PipelineDescView) -> int {
    if has_desc(d, v) {
        first_desc(d, v)
    } else {
        d.len() as int
    }
}

/// The descriptions after creating a pipeline described by `v`: unchanged
/// when an equal one exists, else with `v` added last.
pub open spec fn add_pipeline(d: Seq<PipelineDescView>, v: PipelineDescView) -> Seq<PipelineDescView> {
    if has_desc(d, v) {
        d
    } else {
        d.push(v)
    }
}

pub open spec fn has_pipeline_desc(descs: Seq<PipelineDesc>, desc: PipelineDesc) -> bool {
    exists|i: int| 0 <= i < descs.len() && (#[trigger] descs[i])@ == desc@
}

impl Graph {
    pub fn new() -> (r: Graph)
        ensures
            r.passes@.len() == 0,
            r.resources.buffers@.len() == 0,
            r.resources.textures@.len() == 0,
            r.pipeline_descs@.len() == 0,
            !r.profiling_enabled,
            r.wf(),
    {
        Graph {
            passes: Vec::new(),
            resources: GraphResources::new(),
            pipeline_descs: Vec::new(),
            profiling_enabled: false,
        }
    }

    /// Removes the passes of the previous frame; resources and pipelines stay.
    pub fn clear(&mut self)
        ensures
            final(self).passes@.len() == 0,
            final(self).resources == old(self).resources,
            final(self).pipeline_descs == old(self).pipeline_descs,
            final(self).profiling_enabled == old(self).profiling_enabled,
            final(self).wf(),
    {
        self.passes.clear();
    }

    /// The texture named `debug_name`: the first one of that name if the
    /// graph has one, else a new texture of that description, added last.
    pub fn create_texture(&mut self, debug_name: &str, image_desc: ImageDesc) -> (r: TextureId)
        requires
            old(self).wf(),
        ensures
            final(self).wf(),
            final(self).passes == old(self).passes,
            final(self).pipeline_descs == old(self).pipeline_descs,
            final(self).resources.buffers == old(self).resources.buffers,
            final(self).profiling_enabled == old(self).profiling_enabled,
            textures_view(final(self).resources.textures@) == add_texture(
                textures_view(old(self).resources.textures@),
                debug_name@,
                image_desc,
            ),
            r == texture_handle(textures_view(old(self).resources.textures@), debug_name@),
            r < final(self).resources.textures@.len(),
            old(self).resources.textures@.len() <= final(self).resources.textures@.len(),
    {
        let ghost old_self = *self;
        let n = debug_name.to_string();
        let mut i: usize = 0;
        while i < self.resources.textures.len()
            invariant
                *self == old_self,
                old_self.wf(),
                n@ == debug_name@,
                i <= self.resources.textures@.len(),
                forall|j: int| 0 <= j < i ==> self.resources.textures@[j].name@ != debug_name@,
            decreases self.resources.textures@.len() - i,
        {
            if self.resources.textures[i].name.eq(&n) {
                proof {
                    let tv = textures_view(old_self.resources.textures@);
                    assert(tv[i as int].name == debug_name@);
                    lemma_first_texture_named(tv, debug_name@, i as int);
                    let h = texture_handle(tv, debug_name@);
                    if h < i {
                        assert(tv[h].name == old_self.resources.textures@[h].name@);
                    }
                }
                return i;
            }
            i = i + 1;
        }
        proof {
            let tv = textures_view(old_self.resources.textures@);
            if has_texture_named(tv, debug_name@) {
                let j = choose|j: int| 0 <= j < tv.len() && (#[trigger] tv[j]).name == debug_name@;
                assert(tv[j].name == old_self.resources.textures@[j].name@);
            }
        }
        self.resources.textures.push(
            GraphTexture { name: n, desc: image_desc, prev_access: AccessType::Nothing },
        );
        proof {
            assert(textures_view(self.resources.textures@) =~= textures_view(old_self.resources.textures@).push(
                TextureView { name: debug_name@, desc: image_desc, prev_access: AccessType::Nothing },
            ));
            assert forall|p: int| 0 <= p < self.passes@.len() implies (#[trigger] self.passes@[p]).handles_valid(
                self.resources.textures@.len(),
                self.resources.buffers@.len(),
                self.pipeline_descs@.len(),
            ) by {
                assert(old_self.passes@[p].handles_valid(
                    old_self.resources.textures@.len(),
                    old_self.resources.buffers@.len(),
                    old_self.pipeline_descs@.len(),
                ));
            }
        }
        i
    }

    /// The buffer named `debug_name`: the first one of that name if the graph
    /// has one, else a new buffer of that size, usage and location, added last.
    pub fn create_buffer(
        &mut self,
        debug_name: &str,
        size: u64,
        usage: u32,
        memory_location: MemoryLocation,
    ) -> (r: BufferId)
        requires
            old(self).wf(),
        ensures
            final(self).wf(),
            final(self).passes == old(self).passes,
            final(self).pipeline_descs == old(self).pipeline_descs,
            final(self).resources.textures == old(self).resources.textures,
            final(self).profiling_enabled == old(self).profiling_enabled,
            buffers_view(final(self).resources.buffers@) == add_buffer(
                buffers_view(old(self).resources.buffers@),
                debug_name@,
                size,
                usage,
                memory_location,
            ),
            r == buffer_handle(buffers_view(old(self).resources.buffers@), debug_name@),
            r < final(self).resources.buffers@.len(),
            old(self).resources.buffers@.len() <= final(self).resources.buffers@.len(),
    {
        let ghost old_self = *self;
        let n = debug_name.to_string();
        let mut i: usize = 0;
        while i < self.resources.buffers.len()
            invariant
                *self == old_self,
                old_self.wf(),
                n@ == debug_name@,
                i <= self.resources.buffers@.len(),
                forall|j: int| 0 <= j < i ==> self.resources.buffers@[j].name@ != debug_name@,
            decreases self.resources.buffers@.len() - i,
        {
            if self.resources.buffers[i].name.eq(&n) {
                proof {
                    let bv = buffers_view(old_self.resources.buffers@);
                    assert(bv[i as int].name == debug_name@);
                    lemma_first_buffer_named(bv, debug_name@, i as int);
                    let h = buffer_handle(bv, debug_name@);
                    if h < i {
                        assert(bv[h].name == old_self.resources.buffers@[h].name@);
                    }
                }
                return i;
            }
            i = i + 1;
        }
        proof {
            let bv = buffers_view(old_self.resources.buffers@);
            if has_buffer_named(bv, debug_name@) {
                let j = choose|j: int| 0 <= j < bv.len() && (#[trigger] bv[j]).name == debug_name@;
                assert(bv[j].name == old_self.resources.buffers@[j].name@);
            }
        }
        self.resources.buffers.push(
            GraphBuffer { name: n, size, usage, memory_location, prev_access: AccessType::Nothing },
        );
        proof {
            assert(buffers_view(self.resources.buffers@) =~= buffers_view(old_self.resources.buffers@).push(
                BufferView {
                    name: debug_name@,
                    size,
                    usage,
                    memory_location,
                    prev_access: AccessType::Nothing,
                },
            ));
            assert forall|p: int| 0 <= p < self.passes@.len() implies (#[trigger] self.passes@[p]).handles_valid(
                self.resources.textures@.len(),
                self.resources.buffers@.len(),
                self.pipeline_descs@.len(),
            ) by {
                assert(old_self.passes@[p].handles_valid(
                    old_self.resources.textures@.len(),
                    old_self.resources.buffers@.len(),
                    old_self.pipeline_descs@.len(),
                ));
            }
        }
        i
    }

    /// The handle of the pipeline `pipeline_desc` describes: the first equal
    /// description if there is one, else the description is added last. The
    /// pipeline itself is created later, when the graph is prepared.
    pub fn create_pipeline(&mut self, pipeline_desc: PipelineDesc) -> (r: PipelineId)
        requires
            old(self).wf(),
        ensures
            final(self).wf(),
            final(self).passes == old(self).passes,
            final(self).resources == old(self).resources,
            final(self).profiling_enabled == old(self).profiling_enabled,
            has_pipeline_desc(old(self).pipeline_descs@, pipeline_desc) ==> {
                &&& r < old(self).pipeline_descs@.len()
                &&& old(self).pipeline_descs@[r as int]@ == pipeline_desc@
                &&& forall|j: int| 0 <= j < r ==> old(self).pipeline_descs@[j]@ != pipeline_desc@
                &&& final(self).pipeline_descs == old(self).pipeline_descs
            },
            !has_pipeline_desc(old(self).pipeline_descs@, pipeline_desc) ==> {
                &&& r == old(self).pipeline_descs@.len()
                &&& final(self).pipeline_descs@ == old(self).pipeline_descs@.push(pipeline_desc)
            },
            descs_view(final(self).pipeline_descs@) == add_pipeline(
                descs_view(old(self).pipeline_descs@),
                pipeline_desc@,
            ),
            r == pipeline_handle(descs_view(old(self).pipeline_descs@), pipeline_desc@),
    {
        let ghost old_self = *self;
        let mut i: usize = 0;
        while i < self.pipeline_descs.len()
            invariant
                *self == old_self,
                old_self.wf(),
                i <= self.pipeline_descs@.len(),
                forall|j: int| 0 <= j < i ==> self.pipeline_descs@[j]@ != pipeline_desc@,
            decreases self.pipeline_descs@.len() - i,
        {
            if self.pipeline_descs[i].same_as(&pipeline_desc) {
                proof {
                    let dv = descs_view(old_self.pipeline_descs@);
                    assert(dv[i as int] == pipeline_desc@);
                    assert(has_desc(dv, pipeline_desc@));
                    let j = first_desc(dv, pipeline_desc@);
                    assert(0 <= i < dv.len() && dv[i as int] == pipeline_desc@ && forall|q: int|
                        0 <= q < i ==> dv[q] != pipeline_desc@);
                    if j < i {
                        assert(dv[j] == old_self.pipeline_descs@[j]@);
                    }
                }
                return i;
            }
            i = i + 1;
        }
        proof {
            let dv = descs_view(old_self.pipeline_descs@);
            if has_desc(dv, pipeline_desc@) {
                let j = choose|j: int| 0 <= j < dv.len() && dv[j] == pipeline_desc@;
                assert(dv[j] == old_self.pipeline_descs@[j]@);
            }
        }
        let ghost v = pipeline_desc@;
        self.pipeline_descs.push(pipeline_desc);
        proof {
            assert(descs_view(self.pipeline_descs@) =~= descs_view(old_self.pipeline_descs@).push(v));
            assert forall|p: int| 0 <= p < self.passes@.len() implies (#[trigger] self.passes@[p]).handles_valid(
                self.resources.textures@.len(),
                self.resources.buffers@.len(),
                self.pipeline_descs@.len(),
            ) by {
                assert(old_self.passes@[p].handles_valid(
                    old_self.resources.textures@.len(),
                    old_self.resources.buffers@.len(),
                    old_self.pipeline_descs@.len(),
                ));
            }
        }
        i
    }

    /// Starts a pass that uses the pipeline `pipeline_handle`.
    pub fn add_pass(&mut self, name: String, pipeline_handle: PipelineId) -> (r: PassBuilder)
        ensures
            *final(self) == *old(self),
            r.name == name,
            r.pipeline_handle == pipeline_handle,
            r@ == empty_pass(),
    {
        PassBuilder {
            name,
            pipeline_handle,
            reads: Vec::new(),
            writes: Vec::new(),
            render_command: RenderCommand::Nothing,
            depth_attachment: None,
            presentation_pass: false,
            uniforms: Vec::new(),
            copy_command: None,
            extra_barriers: None,
        }
    }

    /// Starts a pass whose pipeline the given builder describes; the
    /// description is shared with any equal one already in the graph.
    pub fn add_pass_from_desc(&mut self, name: &str, desc_builder: PipelineDescBuilder) -> (r:
        PassBuilder)
        requires
            old(self).wf(),
        ensures
            final(self).wf(),
            final(self).passes == old(self).passes,
            final(self).resources == old(self).resources,
            r.pipeline_handle < final(self).pipeline_descs@.len(),
            final(self).pipeline_descs@[r.pipeline_handle as int]@ == desc_builder.desc@,
            final(self).pipeline_descs@.take(old(self).pipeline_descs@.len() as int) == old(self).pipeline_descs@,
            final(self).pipeline_descs@.len() <= old(self).pipeline_descs@.len() + 1,
            old(self).pipeline_descs@.len() <= final(self).pipeline_descs@.len(),
            r.name@ == name@,
            r@ == empty_pass(),
    {
        let desc = desc_builder.build();
        let handle = self.create_pipeline(desc);
        proof {
            if self.pipeline_descs@.len() == old(self).pipeline_descs@.len() {
                assert(self.pipeline_descs@.take(old(self).pipeline_descs@.len() as int) =~= old(self).pipeline_descs@);
            } else {
                assert(self.pipeline_descs@.take(old(self).pipeline_descs@.len() as int) =~= old(self).pipeline_descs@);
            }
        }
        self.add_pass(name.to_string(), handle)
    }
}

/// The graph keeps its textures from frame to frame: creating a texture
/// under a name it already has changes nothing and gives the handle of the
/// texture of that name, whatever description comes with it.
pub proof fn lemma_create_texture_twice(t: Seq<TextureView>, name: Seq<char>, first: ImageDesc, again: ImageDesc)
    ensures
        add_texture(add_texture(t, name, first), name, again) == add_texture(t, name, first),
        texture_handle(add_texture(t, name, first), name) == texture_handle(t, name),
{
    let t1 = add_texture(t, name, first);
    if !has_texture_named(t, name) {
        let n = t.len() as int;
        assert(t1[n].name == name);
        lemma_first_texture_named(t1, name, n);
        let h = texture_handle(t1, name);
        if h < n {
            assert(t1[h] == t[h]);
        }
    }
}

/// The graph keeps its buffers from frame to frame: creating a buffer under
/// a name it already has changes nothing and gives the handle of the buffer
/// of that name.
pub proof fn lemma_create_buffer_twice(
    b: Seq<BufferView>,
    name: Seq<char>,
    size: u64,
    usage: u32,
    memory_location: MemoryLocation,
    size_again: u64,
    usage_again: u32,
    memory_location_again: MemoryLocation,
)
    ensures
        add_buffer(add_buffer(b, name, size, usage, memory_location), name, size_again, usage_again, memory_location_again)
            == add_buffer(b, name, size, usage, memory_location),
        buffer_handle(add_buffer(b, name, size, usage, memory_location), name) == buffer_handle(b, name),
{
    let b1 = add_buffer(b, name, size, usage, memory_location);
    if !has_buffer_named(b, name) {
        let n = b.len() as int;
        assert(b1[n].name == name);
        lemma_first_buffer_named(b1, name, n);
        let h = buffer_handle(b1, name);
        if h < n {
            assert(b1[h] == b[h]);
        }
    }
}

/// Passes that describe the same pipeline share it: creating a pipeline
/// from a description equal to one the graph has changes nothing and gives
/// the handle of that description.
pub proof fn lemma_create_pipeline_twice(d: Seq<PipelineDescView>, v: PipelineDescView)
    ensures
        add_pipeline(add_pipeline(d, v), v) == add_pipeline(d, v),
        pipeline_handle(add_pipeline(d, v), v) == pipeline_handle(d, v),
{
    let d1 = add_pipeline(d, v);
    if !has_desc(d, v) {
        let n = d.len() as int;
        assert(d1[n] == v);
        assert(has_desc(d1, v));
        let j = first_desc(d1, v);
        assert(0 <= n < d1.len() && d1[n] == v && forall|q: int| 0 <= q < n ==> d1[q] != v) by {
            assert forall|q: int| 0 <= q < n implies d1[q] != v by {
                assert(d1[q] == d[q]);
            }
        }
        if j < n {
            assert(d1[j] == d[j]);
        }
    }
}

// ---------------------------------------------------------------------------
// Pass builder
// ---------------------------------------------------------------------------
/// A texture sampled by a pass.
pub open spec fn sampled_texture(t: TextureId) -> Resource {
    Resource::Texture(
        TextureResource {
            texture: t,
            input_type: TextureResourceType::CombinedImageSampler,
            access_type: AccessType::AnyShaderReadSampledImageOrUniformTexelBuffer,
        },
    )
}

/// A texture a pass writes as a storage image.
pub open spec fn storage_image_write(t: TextureId) -> Resource {
    Resource::Texture(
        TextureResource {
            texture: t,
            input_type: TextureResourceType::StorageImage,
            access_type: AccessType::AnyShaderWrite,
        },
    )
}

/// A storage buffer a pass writes.
pub open spec fn storage_buffer_write(b: BufferId) -> Resource {
    Resource::Buffer(BufferResource { buffer: b, access_type: AccessType::AnyShaderWrite })
}

/// A storage buffer a pass reads.
pub open spec fn storage_buffer_read(b: BufferId) -> Resource {
    Resource::Buffer(BufferResource { buffer: b, access_type: AccessType::AnyShaderReadOther })
}

/// A whole texture rendered to, cleared first.
pub open spec fn color_target(t: TextureId) -> Attachment {
    Attachment { texture: t, view: ViewType::Full(), load_op: AttachmentLoadOp::Clear }
}

/// The content of a pass builder apart from its name and pipeline.
pub struct PassBuilderView {
    pub reads: Seq<Resource>,
    pub writes: Seq<Attachment>,
    pub render_command: RenderCommand,
    pub depth_attachment: Option<DepthAttachment>,
    pub presentation_pass: bool,
    pub uniforms: Seq<UniformEntry>,
    pub copy_command: Option<TextureCopy>,
    pub extra_barriers: Option<Seq<(BufferId, AccessType)>>,
}

pub open spec fn extra_view(e: Option<Vec<(BufferId, AccessType)>>) -> Option<Seq<(BufferId, AccessType)>> {
    match e {
        Some(v) => Some(v@),
        None => None,
    }
}

pub open spec fn empty_pass() -> PassBuilderView {
    PassBuilderView {
        reads: Seq::empty(),
        writes: Seq::empty(),
        render_command: RenderCommand::Nothing,
        depth_attachment: None,
        presentation_pass: false,
        uniforms: Seq::empty(),
        copy_command: None,
        extra_barriers: None,
    }
}

impl View for PassBuilder {
    type V = PassBuilderView;

    open spec fn view(&self) -> PassBuilderView {
        PassBuilderView {
            reads: self.reads@,
            writes: self.writes@,
            render_command: self.render_command,
            depth_attachment: self.depth_attachment,
            presentation_pass: self.presentation_pass,
            uniforms: self.uniforms@,
            copy_command: self.copy_command,
            extra_barriers: extra_view(self.extra_barriers),
        }
    }
}

impl PassBuilder {
    /// Samples a texture (combined image sampler).
    pub fn read(self, resource_id: TextureId) -> (r: Self)
        ensures
            r.name == self.name,
            r.pipeline_handle == self.pipeline_handle,
            r@ == (PassBuilderView {
                reads: self@.reads.push(
                    Resource::Texture(
                        TextureResource {
                            texture: resource_id,
                            input_type: TextureResourceType::CombinedImageSampler,
                            access_type: AccessType::AnyShaderReadSampledImageOrUniformTexelBuffer,
                        },
                    ),
                ),
                ..self@
            }),
    {
        let mut b = self;
        b.reads.push(
            Resource::Texture(
                TextureResource {
                    texture: resource_id,
                    input_type: TextureResourceType::CombinedImageSampler,
                    access_type: AccessType::AnyShaderReadSampledImageOrUniformTexelBuffer,
                },
            ),
        );
        b
    }

    /// Writes a texture from a shader (storage image).
    pub fn image_write(self, resource_id: TextureId) -> (r: Self)
        ensures
            r.name == self.name,
            r.pipeline_handle == self.pipeline_handle,
            r@ == (PassBuilderView {
                reads: self@.reads.push(
                    Resource::Texture(
                        TextureResource {
                            texture: resource_id,
                            input_type: TextureResourceType::StorageImage,
                            access_type: AccessType::AnyShaderWrite,
                        },
                    ),
                ),
                ..self@
            }),
    {
        let mut b = self;
        b.reads.push(
            Resource::Texture(
                TextureResource {
                    texture: resource_id,
                    input_type: TextureResourceType::StorageImage,
                    access_type: AccessType::AnyShaderWrite,
                },
            ),
        );
        b
    }

    /// Writes a buffer from a shader.
    pub fn write_buffer(self, resource_id: BufferId) -> (r: Self)
        ensures
            r.name == self.name,
            r.pipeline_handle == self.pipeline_handle,
            r@ == (PassBuilderView {
                reads: self@.reads.push(
                    Resource::Buffer(
                        BufferResource { buffer: resource_id, access_type: AccessType::AnyShaderWrite },
                    ),
                ),
                ..self@
            }),
    {
        let mut b = self;
        b.reads.push(
            Resource::Buffer(
                BufferResource { buffer: resource_id, access_type: AccessType::AnyShaderWrite },
            ),
        );
        b
    }

    /// Reads a buffer from a shader.
    pub fn read_buffer(self, resource_id: BufferId) -> (r: Self)
        ensures
            r.name == self.name,
            r.pipeline_handle == self.pipeline_handle,
            r@ == (PassBuilderView {
                reads: self@.reads.push(
                    Resource::Buffer(
                        BufferResource { buffer: resource_id, access_type: AccessType::AnyShaderReadOther },
                    ),
                ),
                ..self@
            }),
    {
        let mut b = self;
        b.reads.push(
            Resource::Buffer(
                BufferResource { buffer: resource_id, access_type: AccessType::AnyShaderReadOther },
            ),
        );
        b
    }

    /// Renders to the whole texture, clearing it first.
    pub fn write(self, resource_id: TextureId) -> (r: Self)
        ensures
            r.name == self.name,
            r.pipeline_handle == self.pipeline_handle,
            r@ == (PassBuilderView {
                writes: self@.writes.push(
                    Attachment {
                        texture: resource_id,
                        view: ViewType::Full(),
                        load_op: AttachmentLoadOp::Clear,
                    },
                ),
                ..self@
            }),
    {
        let mut b = self;
        b.writes.push(
            Attachment {
                texture: resource_id,
                view: ViewType::Full(),
                load_op: AttachmentLoadOp::Clear,
            },
        );
        b
    }

    /// Renders to one layer of the texture, clearing it first.
    pub fn write_layer(self, resource_id: TextureId, layer: u32) -> (r: Self)
        ensures
            r.name == self.name,
            r.pipeline_handle == self.pipeline_handle,
            r@ == (PassBuilderView {
                writes: self@.writes.push(
                    Attachment {
                        texture: resource_id,
                        view: ViewType::Layer(layer),
                        load_op: AttachmentLoadOp::Clear,
                    },
                ),
                ..self@
            }),
    {
        let mut b = self;
        b.writes.push(
            Attachment {
                texture: resource_id,
                view: ViewType::Layer(layer),
                load_op: AttachmentLoadOp::Clear,
            },
        );
        b
    }

    /// Renders to the whole texture on top of its contents.
    pub fn load_write(self, resource_id: TextureId) -> (r: Self)
        ensures
            r.name == self.name,
            r.pipeline_handle == self.pipeline_handle,
            r@ == (PassBuilderView {
                writes: self@.writes.push(
                    Attachment {
                        texture: resource_id,
                        view: ViewType::Full(),
                        load_op: AttachmentLoadOp::Load,
                    },
                ),
                ..self@
            }),
    {
        let mut b = self;
        b.writes.push(
            Attachment {
                texture: resource_id,
                view: ViewType::Full(),
                load_op: AttachmentLoadOp::Load,
            },
        );
        b
    }

    /// Reads the top level acceleration structure. It is not owned by the
    /// graph, so it never takes part in barriers.
    pub fn tlas(self, resource_id: TlasId) -> (r: Self)
        ensures
            r.name == self.name,
            r.pipeline_handle == self.pipeline_handle,
            r@ == (PassBuilderView { reads: self@.reads.push(Resource::Tlas(resource_id)), ..self@ }),
    {
        let mut b = self;
        b.reads.push(Resource::Tlas(resource_id));
        b
    }

    /// Buffer barriers for resources that the other methods do not cover;
    /// replaces any given before.
    pub fn extra_barriers(self, buffers: &[(BufferId, AccessType)]) -> (r: Self)
        ensures
            r.name == self.name,
            r.pipeline_handle == self.pipeline_handle,
            r@ == (PassBuilderView { extra_barriers: Some(buffers@), ..self@ }),
    {
        let mut v: Vec<(BufferId, AccessType)> = Vec::new();
        let mut i: usize = 0;
        while i < buffers.len()
            invariant
                i <= buffers@.len(),
                v@ == buffers@.take(i as int),
            decreases buffers@.len() - i,
        {
            v.push(buffers[i]);
            i = i + 1;
            assert(v@ =~= buffers@.take(i as int));
        }
        assert(buffers@.take(buffers@.len() as int) =~= buffers@);
        let mut b = self;
        b.extra_barriers = Some(v);
        b
    }

    /// Records the commands of a function the application keeps for this pass.
    pub fn render(self) -> (r: Self)
        ensures
            r.name == self.name,
            r.pipeline_handle == self.pipeline_handle,
            r@ == (PassBuilderView { render_command: RenderCommand::Custom, ..self@ }),
    {
        let mut b = self;
        b.render_command = RenderCommand::Custom;
        b
    }

    /// Draws without vertex buffers.
    pub fn draw(self, vertex_count: u32, instance_count: u32, first_vertex: u32, first_instance: u32) -> (r: Self)
        ensures
            r.name == self.name,
            r.pipeline_handle == self.pipeline_handle,
            r@ == (PassBuilderView {
                render_command: RenderCommand::Draw(vertex_count, instance_count, first_vertex, first_instance),
                ..self@
            }),
    {
        let mut b = self;
        b.render_command = RenderCommand::Draw(vertex_count, instance_count, first_vertex, first_instance);
        b
    }

    /// Draws every mesh of the scene with the pass's pipeline.
    pub fn draw_meshes(self) -> (r: Self)
        ensures
            r.name == self.name,
            r.pipeline_handle == self.pipeline_handle,
            r@ == (PassBuilderView { render_command: RenderCommand::DrawMeshes, ..self@ }),
    {
        let mut b = self;
        b.render_command = RenderCommand::DrawMeshes;
        b
    }

    /// Records the given command.
    pub fn command(self, render_command: RenderCommand) -> (r: Self)
        ensures
            r.name == self.name,
            r.pipeline_handle == self.pipeline_handle,
            r@ == (PassBuilderView { render_command, ..self@ }),
    {
        let mut b = self;
        b.render_command = render_command;
        b
    }

    /// Dispatches the pass's compute shader with the given group counts.
    pub fn dispatch(self, group_count_x: u32, group_count_y: u32, group_count_z: u32) -> (r: Self)
        ensures
            r.name == self.name,
            r.pipeline_handle == self.pipeline_handle,
            r@ == (PassBuilderView {
                render_command: RenderCommand::Dispatch(group_count_x, group_count_y, group_count_z),
                ..self@
            }),
    {
        let mut b = self;
        b.render_command = RenderCommand::Dispatch(group_count_x, group_count_y, group_count_z);
        b
    }

    /// Traces rays over the given extent with the pass's ray tracing pipeline.
    pub fn trace_rays(self, width: u32, height: u32, depth: u32) -> (r: Self)
        ensures
            r.name == self.name,
            r.pipeline_handle == self.pipeline_handle,
            r@ == (PassBuilderView {
                render_command: RenderCommand::TraceRays(width, height, depth),
                ..self@
            }),
    {
        let mut b = self;
        b.render_command = RenderCommand::TraceRays(width, height, depth);
        b
    }

    /// A copy that runs after the pass has rendered; replaces any given before.
    pub fn copy_image(self, src: TextureId, dst: TextureId, copy_desc: ImageCopy) -> (r: Self)
        ensures
            r.name == self.name,
            r.pipeline_handle == self.pipeline_handle,
            r@ == (PassBuilderView {
                copy_command: Some(TextureCopy { src, dst, copy_desc }),
                ..self@
            }),
    {
        let mut b = self;
        b.copy_command = Some(TextureCopy { src, dst, copy_desc });
        b
    }

    /// Whether the pass renders to the current swapchain image.
    pub fn presentation_pass(self, is_presentation_pass: bool) -> (r: Self)
        ensures
            r.name == self.name,
            r.pipeline_handle == self.pipeline_handle,
            r@ == (PassBuilderView { presentation_pass: is_presentation_pass, ..self@ }),
    {
        let mut b = self;
        b.presentation_pass = is_presentation_pass;
        b
    }

    /// Uses the whole texture as depth attachment, cleared first.
    pub fn depth_attachment(self, depth_attachment: TextureId) -> (r: Self)
        ensures
            r.name == self.name,
            r.pipeline_handle == self.pipeline_handle,
            r@ == (PassBuilderView {
                depth_attachment: Some(
                    DepthAttachment::GraphHandle(
                        Attachment {
                            texture: depth_attachment,
                            view: ViewType::Full(),
                            load_op: AttachmentLoadOp::Clear,
                        },
                    ),
                ),
                ..self@
            }),
    {
        let mut b = self;
        b.depth_attachment = Some(
            DepthAttachment::GraphHandle(
                Attachment {
                    texture: depth_attachment,
                    view: ViewType::Full(),
                    load_op: AttachmentLoadOp::Clear,
                },
            ),
        );
        b
    }

    /// Uses one layer of the texture as depth attachment, cleared first.
    pub fn depth_attachment_layer(self, depth_attachment: TextureId, layer: u32) -> (r: Self)
        ensures
            r.name == self.name,
            r.pipeline_handle == self.pipeline_handle,
            r@ == (PassBuilderView {
                depth_attachment: Some(
                    DepthAttachment::GraphHandle(
                        Attachment {
                            texture: depth_attachment,
                            view: ViewType::Layer(layer),
                            load_op: AttachmentLoadOp::Clear,
                        },
                    ),
                ),
                ..self@
            }),
    {
        let mut b = self;
        b.depth_attachment = Some(
            DepthAttachment::GraphHandle(
                Attachment {
                    texture: depth_attachment,
                    view: ViewType::Layer(layer),
                    load_op: AttachmentLoadOp::Clear,
                },
            ),
        );
        b
    }

    /// Uses an image the graph does not own as depth attachment.
    pub fn external_depth_attachment(self, depth_attachment: ImageDesc, load_op: AttachmentLoadOp) -> (r:
        Self)
        ensures
            r.name == self.name,
            r.pipeline_handle == self.pipeline_handle,
            r@ == (PassBuilderView {
                depth_attachment: Some(DepthAttachment::External(depth_attachment, load_op)),
                ..self@
            }),
    {
        let mut b = self;
        b.depth_attachment = Some(DepthAttachment::External(depth_attachment, load_op));
        b
    }
}

pub open spec fn zero_bytes(n: nat) -> Seq<u8> {
    Seq::new(n, |i: int| 0u8)
}

pub open spec fn has_uniform_key(uniforms: Seq<UniformEntry>, key: Seq<char>) -> bool {
    exists|i: int| 0 <= i < uniforms.len() && (#[trigger] uniforms[i]).key@ == key
}

impl PassBuilder {
    /// Constant uniform data passed to the shader under `name`, as bytes.
    /// The data is kept under the key made of the pass name, `_` and `name`:
    /// the bytes replace the start of the data already kept under that key,
    /// or a new zeroed area is added for it.
    pub fn uniforms(self, name: &str, data: &[u8]) -> (r: Self)
        requires
            uniform_entries_wf(self.uniforms@),
            data@.len() < MAX_UNIFORMS_SIZE,
        ensures
            r.name == self.name,
            r.pipeline_handle == self.pipeline_handle,
            r@ == (PassBuilderView { uniforms: r@.uniforms, ..self@ }),
            uniform_entries_wf(r.uniforms@),
            forall|i: int|
                0 <= i < self.uniforms@.len() && self.uniforms@[i].key@ == spec_uniform_key(
                    self.name@,
                    name@,
                ) ==> {
                    &&& r.uniforms@.len() == self.uniforms@.len()
                    &&& r.uniforms@[i].key == self.uniforms@[i].key
                    &&& r.uniforms@[i].name == self.uniforms@[i].name
                    &&& r.uniforms@[i].data.size == data@.len()
                    &&& r.uniforms@[i].data.data@ == data@ + self.uniforms@[i].data.data@.skip(
                        data@.len() as int,
                    )
                    &&& forall|j: int|
                        0 <= j < self.uniforms@.len() && j != i ==> r.uniforms@[j] == self.uniforms@[j]
                },
            !has_uniform_key(self.uniforms@, spec_uniform_key(self.name@, name@)) ==> {
                &&& r.uniforms@.len() == self.uniforms@.len() + 1
                &&& r.uniforms@.take(self.uniforms@.len() as int) == self.uniforms@
                &&& r.uniforms@.last().key@ == spec_uniform_key(self.name@, name@)
                &&& r.uniforms@.last().name@ == name@
                &&& r.uniforms@.last().data.size == data@.len()
                &&& r.uniforms@.last().data.data@ == data@ + zero_bytes(
                    (MAX_UNIFORMS_SIZE - data@.len()) as nat,
                )
            },
    {
        let mut b = self;
        let mut key = b.name.clone();
        proof {
            reveal_strlit("_");
        }
        key.append("_");
        key.append(name);
        assert(key@ == spec_uniform_key(b.name@, name@));
        let len = data.len();
        let mut i: usize = 0;
        while i < b.uniforms.len()
            invariant
                b == self,
                uniform_entries_wf(self.uniforms@),
                len == data@.len(),
                len < MAX_UNIFORMS_SIZE,
                key@ == spec_uniform_key(self.name@, name@),
                i <= b.uniforms@.len(),
                forall|j: int| 0 <= j < i ==> b.uniforms@[j].key@ != key@,
            decreases b.uniforms@.len() - i,
        {
            if b.uniforms[i].key.eq(&key) {
                let ghost old_bytes = b.uniforms@[i as int].data.data@;
                let mut bytes: Vec<u8> = Vec::new();
                let mut k: usize = 0;
                while k < MAX_UNIFORMS_SIZE
                    invariant
                        b == self,
                        i < b.uniforms@.len(),
                        old_bytes == b.uniforms@[i as int].data.data@,
                        old_bytes.len() == MAX_UNIFORMS_SIZE,
                        len == data@.len(),
                        len < MAX_UNIFORMS_SIZE,
                        k <= MAX_UNIFORMS_SIZE,
                        bytes@.len() == k,
                        forall|m: int| 0 <= m < k && m < len ==> bytes@[m] == data@[m],
                        forall|m: int| len <= m < k ==> bytes@[m] == old_bytes[m],
                    decreases MAX_UNIFORMS_SIZE - k,
                {
                    if k < len {
                        bytes.push(data[k]);
                    } else {
                        bytes.push(b.uniforms[i].data.data[k]);
                    }
                    k = k + 1;
                }
                assert(bytes@ =~= data@ + old_bytes.skip(len as int));
                let entry = UniformEntry {
                    key: b.uniforms[i].key.clone(),
                    name: b.uniforms[i].name.clone(),
                    data: UniformData { data: bytes, size: len as u64 },
                };
                b.uniforms[i] = entry;
                proof {
                    assert forall|p: int, q: int|
                        0 <= p < q < b.uniforms@.len() implies (#[trigger] b.uniforms@[p]).key@
                        != (#[trigger] b.uniforms@[q]).key@ by {
                        assert(self.uniforms@[p].key@ != self.uniforms@[q].key@);
                    }
                    assert forall|p: int|
                        0 <= p < self.uniforms@.len() && self.uniforms@[p].key@ == spec_uniform_key(
                            self.name@,
                            name@,
                        ) implies p == i by {
                        if p != i {
                            if p < i {
                                assert(self.uniforms@[p].key@ != self.uniforms@[i as int].key@);
                            } else {
                                assert(self.uniforms@[i as int].key@ != self.uniforms@[p].key@);
                            }
                        }
                    }
                }
                return b;
            }
            i = i + 1;
        }
        let mut bytes: Vec<u8> = Vec::new();
        let mut k: usize = 0;
        while k < MAX_UNIFORMS_SIZE
            invariant
                len == data@.len(),
                len < MAX_UNIFORMS_SIZE,
                k <= MAX_UNIFORMS_SIZE,
                bytes@.len() == k,
                forall|m: int| 0 <= m < k && m < len ==> bytes@[m] == data@[m],
                forall|m: int| len <= m < k ==> bytes@[m] == 0u8,
            decreases MAX_UNIFORMS_SIZE - k,
        {
            if k < len {
                bytes.push(data[k]);
            } else {
                bytes.push(0u8);
            }
            k = k + 1;
        }
        assert(bytes@ =~= data@ + zero_bytes((MAX_UNIFORMS_SIZE - len) as nat));
        let uniform_name = name.to_string();
        b.uniforms.push(
            UniformEntry {
                key,
                name: uniform_name,
                data: UniformData { data: bytes, size: len as u64 },
            },
        );
        proof {
            assert(b.uniforms@.take(self.uniforms@.len() as int) =~= self.uniforms@);
            assert forall|p: int, q: int|
                0 <= p < q < b.uniforms@.len() implies (#[trigger] b.uniforms@[p]).key@
                != (#[trigger] b.uniforms@[q]).key@ by {
                if q < self.uniforms@.len() {
                    assert(self.uniforms@[p].key@ != self.uniforms@[q].key@);
                }
            }
        }
        b
    }
}

/// The formats of the textures the attachments render to, in order.
pub open spec fn attachment_formats(writes: Seq<Attachment>, textures: Seq<GraphTexture>) -> Seq<i32> {
    Seq::new(writes.len(), |i: int| textures[writes[i].texture as int].desc.format)
}

/// The format of a depth attachment.
pub open spec fn depth_format(d: DepthAttachment, textures: Seq<GraphTexture>) -> i32 {
    match d {
        DepthAttachment::GraphHandle(a) => textures[a.texture as int].desc.format,
        DepthAttachment::External(desc, _) => desc.format,
    }
}

impl PassBuilder {
    /// Every handle the builder holds names a resource or pipeline of `graph`.
    pub open spec fn handles_valid(&self, graph: Graph) -> bool {
        let nt = graph.resources.textures@.len();
        let nb = graph.resources.buffers@.len();
        &&& self.pipeline_handle < graph.pipeline_descs@.len()
        &&& forall|i: int| 0 <= i < self.reads@.len() ==> resource_in_range(#[trigger] self.reads@[i], nt, nb)
        &&& forall|i: int| 0 <= i < self.writes@.len() ==> (#[trigger] self.writes@[i]).texture < nt
        &&& depth_in_range(self.depth_attachment, nt)
        &&& forall|i: int|
            0 <= i < extra_barriers_seq(self.extra_barriers).len() ==> (#[trigger] extra_barriers_seq(
                self.extra_barriers,
            )[i]).0 < nb
        &&& copy_in_range(self.copy_command, nt)
        &&& uniform_entries_wf(self.uniforms@)
    }

    /// Adds the pass to the graph. The formats of the pass's attachments
    /// become the attachment formats of its pipeline description, and a pass
    /// with uniform data gets a CPU-visible uniform buffer named after the key
    /// of its first uniform entry, sized for that entry's data.
    pub fn build(self, graph: &mut Graph)
        requires
            old(graph).wf(),
            self.handles_valid(*old(graph)),
        ensures
            final(graph).wf(),
            final(graph).profiling_enabled == old(graph).profiling_enabled,
            final(graph).resources.textures == old(graph).resources.textures,
            // the pass
            final(graph).passes@.len() == old(graph).passes@.len() + 1,
            final(graph).passes@.take(old(graph).passes@.len() as int) == old(graph).passes@,
            ({
                let p = final(graph).passes@.last();
                &&& p.name == self.name
                &&& p.pipeline_handle == self.pipeline_handle
                &&& p.render_command == self.render_command
                &&& p.reads@ == self.reads@
                &&& p.writes@ == self.writes@
                &&& p.depth_attachment == self.depth_attachment
                &&& p.presentation_pass == self.presentation_pass
                &&& p.uniforms@ == self.uniforms@
                &&& p.copy_command == self.copy_command
                &&& extra_view(p.extra_barriers) == extra_view(self.extra_barriers)
                &&& !p.has_read_resources_descriptor_set
                &&& !p.has_uniforms_descriptor_set
                &&& if self.uniforms@.len() == 0 {
                    &&& p.uniform_buffer is None
                    &&& final(graph).resources.buffers == old(graph).resources.buffers
                } else {
                    &&& p.uniform_buffer is Some
                    &&& buffers_view(final(graph).resources.buffers@) == add_buffer(
                        buffers_view(old(graph).resources.buffers@),
                        self.uniforms@[0].key@,
                        self.uniforms@[0].data.size,
                        BUFFER_USAGE_UNIFORM_BUFFER,
                        MemoryLocation::CpuToGpu,
                    )
                    &&& p.uniform_buffer.unwrap() == buffer_handle(
                        buffers_view(old(graph).resources.buffers@),
                        self.uniforms@[0].key@,
                    )
                }
            }),
            // the pipeline description
            final(graph).pipeline_descs@.len() == old(graph).pipeline_descs@.len(),
            forall|i: int|
                0 <= i < old(graph).pipeline_descs@.len() && i != self.pipeline_handle
                    ==> final(graph).pipeline_descs@[i] == old(graph).pipeline_descs@[i],
            ({
                let d = final(graph).pipeline_descs@[self.pipeline_handle as int]@;
                let o = old(graph).pipeline_descs@[self.pipeline_handle as int]@;
                &&& d.vertex_path == o.vertex_path
                &&& d.fragment_path == o.fragment_path
                &&& d.compute_path == o.compute_path
                &&& d.raygen_path == o.raygen_path
                &&& d.miss_path == o.miss_path
                &&& d.hit_path == o.hit_path
                &&& d.vertex_input_binding_descriptions == o.vertex_input_binding_descriptions
                &&& d.vertex_input_attribute_descriptions == o.vertex_input_attribute_descriptions
                &&& d.color_attachment_formats == attachment_formats(
                    self.writes@,
                    old(graph).resources.textures@,
                )
                &&& d.depth_stencil_attachment_format == match self.depth_attachment {
                    Some(da) => depth_format(da, old(graph).resources.textures@),
                    None => o.depth_stencil_attachment_format,
                }
            }),
    {
        let ghost g0 = *graph;
        let h = self.pipeline_handle;
        // attachment formats
        let mut formats: Vec<i32> = Vec::new();
        let mut i: usize = 0;
        while i < self.writes.len()
            invariant
                *graph == g0,
                self.handles_valid(g0),
                i <= self.writes@.len(),
                formats@.len() == i,
                forall|j: int|
                    0 <= j < i ==> formats@[j] == g0.resources.textures@[self.writes@[j].texture as int].desc.format,
            decreases self.writes@.len() - i,
        {
            let t = self.writes[i].texture;
            formats.push(graph.resources.textures[t].desc.format);
            i = i + 1;
        }
        assert(formats@ =~= attachment_formats(self.writes@, g0.resources.textures@));
        let depth_fmt: Option<i32> = match &self.depth_attachment {
            Some(DepthAttachment::GraphHandle(a)) => Some(graph.resources.textures[a.texture].desc.format),
            Some(DepthAttachment::External(desc, _)) => Some(desc.format),
            None => None,
        };
        let mut desc = graph.pipeline_descs[h].duplicate();
        desc.color_attachment_formats = formats;
        match depth_fmt {
            Some(f) => {
                desc.depth_stencil_attachment_format = f;
            },
            None => {},
        }
        graph.pipeline_descs.set(h, desc);
        let ghost g1 = *graph;
        proof {
            assert forall|p: int| 0 <= p < graph.passes@.len() implies (#[trigger] graph.passes@[p]).handles_valid(
                graph.resources.textures@.len(),
                graph.resources.buffers@.len(),
                graph.pipeline_descs@.len(),
            ) by {
                assert(g0.passes@[p].handles_valid(
                    g0.resources.textures@.len(),
                    g0.resources.buffers@.len(),
                    g0.pipeline_descs@.len(),
                ));
            }
        }
        let uniform_buffer = if self.uniforms.len() != 0 {
            let id = graph.create_buffer(
                self.uniforms[0].key.as_str(),
                self.uniforms[0].data.size,
                BUFFER_USAGE_UNIFORM_BUFFER,
                MemoryLocation::CpuToGpu,
            );
            proof {
                let bv = buffers_view(g1.resources.buffers@);
                let key = self.uniforms@[0].key@;
                if has_buffer_named(bv, key) {
                    let j = choose|j: int| 0 <= j < bv.len() && (#[trigger] bv[j]).name == key;
                    lemma_first_buffer_named(bv, key, j);
                }
                assert(buffers_view(graph.resources.buffers@).len() == graph.resources.buffers@.len());
            }
            Some(id)
        } else {
            None
        };
        let ghost g2 = *graph;
        let pass = RenderPass {
            name: self.name,
            pipeline_handle: h,
            render_command: self.render_command,
            reads: self.reads,
            writes: self.writes,
            depth_attachment: self.depth_attachment,
            presentation_pass: self.presentation_pass,
            uniforms: self.uniforms,
            uniform_buffer,
            copy_command: self.copy_command,
            extra_barriers: self.extra_barriers,
            has_read_resources_descriptor_set: false,
            has_uniforms_descriptor_set: false,
        };
        graph.passes.push(pass);
        proof {
            assert(graph.passes@.take(g0.passes@.len() as int) =~= g0.passes@);
            assert forall|p: int| 0 <= p < graph.passes@.len() implies (#[trigger] graph.passes@[p]).handles_valid(
                graph.resources.textures@.len(),
                graph.resources.buffers@.len(),
                graph.pipeline_descs@.len(),
            ) by {
                if p < g2.passes@.len() {
                    assert(g2.passes@[p] == graph.passes@[p]);
                    assert(g2.passes@[p].handles_valid(
                        g2.resources.textures@.len(),
                        g2.resources.buffers@.len(),
                        g2.pipeline_descs@.len(),
                    ));
                }
            }
        }
    }
}

} // verus!
