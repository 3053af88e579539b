use vstd::prelude::*;

use crate::paths::{ends_with_path, path_ends_with};
use crate::graph::{BufferId, Graph, PipelineId, RenderPass, Resource, TextureId, TextureResourceType};

verus! {

/// One write into a pass's input descriptor set.
#[derive(Clone, Copy, Debug, PartialEq, Eq, Structural)]
pub enum DescriptorWrite {
    /// A texture with its sampler.
    CombinedImage { binding: u32, texture: TextureId },
    /// A texture written from a shader.
    StorageImage { binding: u32, texture: TextureId },
    /// A graph buffer.
    StorageBuffer { binding: u32, buffer: BufferId },
    /// The top level acceleration structure.
    AccelerationStructure { binding: u32 },
}

/// The write for the read at position `i`: binding `i`, of the kind the
/// resource is read as.
pub open spec fn read_write(r: Resource, i: int) -> DescriptorWrite {
    match r {
        Resource::Texture(t) => match t.input_type {
            TextureResourceType::CombinedImageSampler => DescriptorWrite::CombinedImage {
                binding: i as u32,
                texture: t.texture,
            },
            TextureResourceType::StorageImage => DescriptorWrite::StorageImage {
                binding: i as u32,
                texture: t.texture,
            },
        },
        Resource::Buffer(b) => DescriptorWrite::StorageBuffer { binding: i as u32, buffer: b.buffer },
        Resource::Tlas(_) => DescriptorWrite::AccelerationStructure { binding: i as u32 },
    }
}

pub open spec fn read_writes(reads: Seq<Resource>) -> Seq<DescriptorWrite> {
    Seq::new(reads.len(), |i: int| read_write(reads[i], i))
}

/// The binding a descriptor write fills.
pub open spec fn write_binding(w: DescriptorWrite) -> u32 {
    match w {
        DescriptorWrite::CombinedImage { binding, .. } => binding,
        DescriptorWrite::StorageImage { binding, .. } => binding,
        DescriptorWrite::StorageBuffer { binding, .. } => binding,
        DescriptorWrite::AccelerationStructure { binding } => binding,
    }
}

/// A pass's input descriptor set holds its reads in order: there is one
/// write per read, the read at position `i` is written to binding `i`,
/// whatever kind of resource it is (so no two reads share a binding), and
/// the write carries that resource: a texture read with a sampler as a
/// combined image, a texture written from a shader as a storage image, a
/// buffer as a storage buffer, the acceleration structure as itself.
pub proof fn lemma_read_writes_bindings(reads: Seq<Resource>)
    requires
        reads.len() <= u32::MAX,
    ensures
        read_writes(reads).len() == reads.len(),
        forall|i: int| 0 <= i < reads.len() ==> write_binding(#[trigger] read_writes(reads)[i]) == i,
        forall|i: int, j: int|
            0 <= i < j < reads.len() ==> write_binding(#[trigger] read_writes(reads)[i]) != write_binding(
                #[trigger] read_writes(reads)[j],
            ),
        forall|i: int|
            0 <= i < reads.len() ==> match #[trigger] reads[i] {
                Resource::Texture(t) => match t.input_type {
                    TextureResourceType::CombinedImageSampler => read_writes(reads)[i] matches DescriptorWrite::CombinedImage {
                        texture,
                        ..
                    } && texture == t.texture,
                    TextureResourceType::StorageImage => read_writes(reads)[i] matches DescriptorWrite::StorageImage {
                        texture,
                        ..
                    } && texture == t.texture,
                },
                Resource::Buffer(b) => read_writes(reads)[i] matches DescriptorWrite::StorageBuffer {
                    buffer,
                    ..
                } && buffer == b.buffer,
                Resource::Tlas(_) => read_writes(reads)[i] is AccelerationStructure,
            },
{
}

impl RenderPass {
    /// The writes that fill the pass's input descriptor set: the resource
    /// read at position `i` goes to binding `i`.
    pub fn read_resource_writes(&self) -> (r: Vec<DescriptorWrite>)
        requires
            self.reads@.len() <= u32::MAX,
        ensures
            r@ == read_writes(self.reads@),
    {
        let mut v: Vec<DescriptorWrite> = Vec::new();
        let mut i: usize = 0;
        while i < self.reads.len()
            invariant
                i <= self.reads@.len(),
                self.reads@.len() <= u32::MAX,
                v@ == read_writes(self.reads@.take(i as int)),
            decreases self.reads@.len() - i,
        {
            let binding = i as u32;
            let w = match self.reads[i] {
                Resource::Texture(t) => match t.input_type {
                    TextureResourceType::CombinedImageSampler => DescriptorWrite::CombinedImage {
                        binding,
                        texture: t.texture,
                    },
                    TextureResourceType::StorageImage => DescriptorWrite::StorageImage {
                        binding,
                        texture: t.texture,
                    },
                },
                Resource::Buffer(b) => DescriptorWrite::StorageBuffer { binding, buffer: b.buffer },
                Resource::Tlas(_) => DescriptorWrite::AccelerationStructure { binding },
            };
            v.push(w);
            i = i + 1;
            assert(v@ =~= read_writes(self.reads@.take(i as int)));
        }
        assert(self.reads@.take(self.reads@.len() as int) =~= self.reads@);
        v
    }
}

/// What the application creates or updates for one pass before the frame
/// is recorded.
pub struct PassSetup {
    /// The writes of the pass's input descriptor set, when it is created now.
    pub read_resource_writes: Option<Vec<DescriptorWrite>>,
    /// The uniform name whose set gets the pass's uniform buffer, and that
    /// buffer, when the uniform descriptor set is created now.
    pub uniform_descriptor: Option<(String, BufferId)>,
    /// The pass's uniform buffer and the bytes to write into it.
    pub uniform_upload: Option<(BufferId, Vec<u8>)>,
}

/// What the application does before recording a frame: create the
/// pipelines that do not exist yet, then set up each pass.
pub struct PreparePlan {
    pub pipelines_to_create: Vec<PipelineId>,
    pub passes: Vec<PassSetup>,
}

pub open spec fn pass_setup_matches(s: PassSetup, before: RenderPass) -> bool {
    &&& s.read_resource_writes is Some <==> (before.reads@.len() > 0
        && !before.has_read_resources_descriptor_set)
    &&& s.read_resource_writes matches Some(w) ==> w@ == read_writes(before.reads@)
    &&& s.uniform_descriptor is Some <==> (before.uniforms@.len() > 0
        && !before.has_uniforms_descriptor_set)
    &&& s.uniform_descriptor matches Some((name, b)) ==> {
        &&& name@ == before.uniforms@[0].name@
        &&& Some(b) == before.uniform_buffer
    }
    &&& s.uniform_upload is Some <==> before.uniform_buffer is Some
    &&& s.uniform_upload matches Some((b, bytes)) ==> {
        &&& Some(b) == before.uniform_buffer
        &&& bytes@ == before.uniforms@[0].data.data@
    }
}

pub open spec fn pass_after_setup(after: RenderPass, before: RenderPass) -> bool {
    &&& after.name == before.name
    &&& after.pipeline_handle == before.pipeline_handle
    &&& after.render_command == before.render_command
    &&& after.reads == before.reads
    &&& after.writes == before.writes
    &&& after.depth_attachment == before.depth_attachment
    &&& after.presentation_pass == before.presentation_pass
    &&& after.uniforms == before.uniforms
    &&& after.uniform_buffer == before.uniform_buffer
    &&& after.copy_command == before.copy_command
    &&& after.extra_barriers == before.extra_barriers
    &&& after.has_read_resources_descriptor_set == (before.has_read_resources_descriptor_set
        || before.reads@.len() > 0)
    &&& after.has_uniforms_descriptor_set == (before.has_uniforms_descriptor_set
        || before.uniforms@.len() > 0)
}

/// Descriptor sets are made once: a pass that has been set up gets neither
/// of its descriptor sets again when it is set up a second time, while its
/// uniform buffer is still filled on every setup.
pub proof fn lemma_setup_once(before: RenderPass, after: RenderPass, again: PassSetup)
    requires
        pass_after_setup(after, before),
        pass_setup_matches(again, after),
    ensures
        again.read_resource_writes is None,
        again.uniform_descriptor is None,
        again.uniform_upload is Some <==> before.uniform_buffer is Some,
{
}

fn bytes_copy(a: &Vec<u8>) -> (r: Vec<u8>)
    ensures
        r@ == a@,
{
    let mut r: Vec<u8> = Vec::new();
    let mut i: usize = 0;
    while i < a.len()
        invariant
            i <= a@.len(),
            r@ == a@.take(i as int),
        decreases a.len() - i,
    {
        r.push(a[i]);
        i = i + 1;
        assert(r@ =~= a@.take(i as int));
    }
    assert(a@.take(a@.len() as int) =~= a@);
    r
}

impl Graph {
    /// Decides what must exist before the frame is recorded. The pipelines
    /// of the descriptions from `num_created_pipelines` on are created, in
    /// order. A pass that reads resources gets its input descriptor set once;
    /// a pass with uniform data gets its uniform descriptor set once, and its
    /// uniform buffer is filled with the data of its first uniform entry on
    /// every frame.
    pub fn prepare(&mut self, num_created_pipelines: usize) -> (r: PreparePlan)
        requires
            old(self).wf(),
            forall|i: int|
                0 <= i < old(self).passes@.len() ==> (#[trigger] old(self).passes@[i]).reads@.len()
                    <= u32::MAX,
        ensures
            final(self).wf(),
            final(self).resources == old(self).resources,
            final(self).pipeline_descs == old(self).pipeline_descs,
            final(self).profiling_enabled == old(self).profiling_enabled,
            num_created_pipelines < old(self).pipeline_descs@.len() ==> r.pipelines_to_create@
                == Seq::new(
                (old(self).pipeline_descs@.len() - num_created_pipelines) as nat,
                |i: int| (num_created_pipelines + i) as usize,
            ),
            num_created_pipelines >= old(self).pipeline_descs@.len() ==> r.pipelines_to_create@.len()
                == 0,
            r.passes@.len() == old(self).passes@.len(),
            final(self).passes@.len() == old(self).passes@.len(),
            forall|i: int|
                0 <= i < old(self).passes@.len() ==> pass_setup_matches(
                    #[trigger] r.passes@[i],
                    old(self).passes@[i],
                ),
            forall|i: int|
                0 <= i < old(self).passes@.len() ==> pass_after_setup(
                    #[trigger] final(self).passes@[i],
                    old(self).passes@[i],
                ),
    {
        let ghost g0 = *self;
        let mut to_create: Vec<PipelineId> = Vec::new();
        let mut i: usize = num_created_pipelines;
        while i < self.pipeline_descs.len()
            invariant
                num_created_pipelines <= i <= self.pipeline_descs@.len() || (i == num_created_pipelines
                    && num_created_pipelines >= self.pipeline_descs@.len()),
                to_create@ == Seq::new(
                    (i - num_created_pipelines) as nat,
                    |j: int| (num_created_pipelines + j) as usize,
                ),
            decreases self.pipeline_descs@.len() - i,
        {
            to_create.push(i);
            i = i + 1;
            assert(to_create@ =~= Seq::new(
                (i - num_created_pipelines) as nat,
                |j: int| (num_created_pipelines + j) as usize,
            ));
        }
        let mut setups: Vec<PassSetup> = Vec::new();
        let mut k: usize = 0;
        while k < self.passes.len()
            invariant
                self.resources == g0.resources,
                self.pipeline_descs == g0.pipeline_descs,
                self.profiling_enabled == g0.profiling_enabled,
                self.passes@.len() == g0.passes@.len(),
                forall|i: int| 0 <= i < g0.passes@.len() ==> (#[trigger] g0.passes@[i]).reads@.len() <= u32::MAX,
                g0.wf(),
                k <= g0.passes@.len(),
                setups@.len() == k,
                forall|j: int| 0 <= j < k ==> pass_setup_matches(#[trigger] setups@[j], g0.passes@[j]),
                forall|j: int| 0 <= j < k ==> pass_after_setup(#[trigger] self.passes@[j], g0.passes@[j]),
                forall|j: int| k <= j < g0.passes@.len() ==> #[trigger] self.passes@[j] == g0.passes@[j],
            decreases g0.passes@.len() - k,
        {
            let setup = {
                let p = &self.passes[k];
                let read_resource_writes = if p.reads.len() > 0 && !p.has_read_resources_descriptor_set {
                    Some(p.read_resource_writes())
                } else {
                    None
                };
                let uniform_descriptor = if p.uniforms.len() > 0 && !p.has_uniforms_descriptor_set {
                    match p.uniform_buffer {
                        Some(b) => Some((p.uniforms[0].name.clone(), b)),
                        None => None,
                    }
                } else {
                    None
                };
                let uniform_upload = match p.uniform_buffer {
                    Some(b) => {
                        if p.uniforms.len() > 0 {
                            Some((b, bytes_copy(&p.uniforms[0].data.data)))
                        } else {
                            None
                        }
                    },
                    None => None,
                };
                PassSetup { read_resource_writes, uniform_descriptor, uniform_upload }
            };
            assert(g0.passes@[k as int].handles_valid(
                g0.resources.textures@.len(),
                g0.resources.buffers@.len(),
                g0.pipeline_descs@.len(),
            ));
            setups.push(setup);
            let has_reads = self.passes[k].reads.len() > 0;
            let has_uniforms = self.passes[k].uniforms.len() > 0;
            if has_reads {
                self.passes[k].has_read_resources_descriptor_set = true;
            }
            if has_uniforms {
                self.passes[k].has_uniforms_descriptor_set = true;
            }
            k = k + 1;
        }
        proof {
            assert forall|q: int| 0 <= q < self.passes@.len() implies (#[trigger] self.passes@[q]).handles_valid(
                self.resources.textures@.len(),
                self.resources.buffers@.len(),
                self.pipeline_descs@.len(),
            ) by {
                assert(g0.passes@[q].handles_valid(
                    g0.resources.textures@.len(),
                    g0.resources.buffers@.len(),
                    g0.pipeline_descs@.len(),
                ));
                assert(pass_after_setup(self.passes@[q], g0.passes@[q]));
            }
        }
        PreparePlan { pipelines_to_create: to_create, passes: setups }
    }
}

pub open spec fn opt_path_matches(p: Option<String>, path: Seq<char>) -> bool {
    match p {
        Some(s) => path_ends_with(path, s@),
        None => false,
    }
}

/// Whether the shader file at `path` is one of the description's compute,
/// vertex or fragment shaders: `path` ends with the path the description
/// names, compared by whole components.
pub open spec fn uses_shader(d: crate::pipeline::PipelineDesc, path: Seq<char>) -> bool {
    opt_path_matches(d.compute_path, path) || opt_path_matches(d.vertex_path, path)
        || opt_path_matches(d.fragment_path, path)
}

fn opt_path_matches_exec(p: &Option<String>, path: &str) -> (r: bool)
    ensures
        r == opt_path_matches(*p, path@),
{
    match p {
        Some(s) => ends_with_path(path, s.as_str()),
        None => false,
    }
}

impl Graph {
    /// The pipelines, among the first `num_created_pipelines`, that must be
    /// recreated after the shader file at `path` changed: those whose
    /// compute, vertex or fragment shader it is. In increasing order.
    pub fn pipelines_using_shader(&self, num_created_pipelines: usize, path: &str) -> (r: Vec<PipelineId>)
        ensures
            forall|i: int| 0 <= i < r@.len() ==> (#[trigger] r@[i]) < num_created_pipelines
                && r@[i] < self.pipeline_descs@.len() && uses_shader(self.pipeline_descs@[r@[i] as int], path@),
            forall|i: int, j: int| 0 <= i < j < r@.len() ==> r@[i] < r@[j],
            forall|p: int|
                0 <= p < num_created_pipelines && p < self.pipeline_descs@.len() && uses_shader(
                    self.pipeline_descs@[p],
                    path@,
                ) ==> r@.contains(p as usize),
    {
        let mut r: Vec<PipelineId> = Vec::new();
        let mut i: usize = 0;
        while i < num_created_pipelines && i < self.pipeline_descs.len()
            invariant
                i <= num_created_pipelines,
                i <= self.pipeline_descs@.len(),
                forall|k: int| 0 <= k < r@.len() ==> (#[trigger] r@[k]) < i
                    && uses_shader(self.pipeline_descs@[r@[k] as int], path@),
                forall|a: int, b: int| 0 <= a < b < r@.len() ==> r@[a] < r@[b],
                forall|p: int|
                    0 <= p < i && uses_shader(self.pipeline_descs@[p], path@) ==> r@.contains(p as usize),
            decreases self.pipeline_descs@.len() - i,
        {
            let d = &self.pipeline_descs[i];
            let m = opt_path_matches_exec(&d.compute_path, path) || opt_path_matches_exec(
                &d.vertex_path,
                path,
            ) || opt_path_matches_exec(&d.fragment_path, path);
            let ghost r_old = r@;
            if m {
                r.push(i);
                assert(r@[r@.len() - 1] == i);
            }
            proof {
                assert forall|p: int|
                    0 <= p < i + 1 && uses_shader(self.pipeline_descs@[p], path@) implies r@.contains(
                    p as usize,
                ) by {
                    if p == i {
                        assert(r@[r@.len() - 1] == i);
                    } else {
                        assert(r_old.contains(p as usize));
                        let w = choose|w: int| 0 <= w < r_old.len() && r_old[w] == p as usize;
                        assert(r@[w] == r_old[w]);
                    }
                }
            }
            i = i + 1;
        }
        r
    }
}

} // verus!
