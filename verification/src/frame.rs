use vstd::prelude::*;

use crate::graph::{
    copy_in_range, depth_in_range, extra_barriers_seq, resource_in_range, Attachment, BufferId, DepthAttachment, Graph, GraphBuffer, GraphResources,
    GraphTexture, ImageCopy, ImageSubresourceLayers, RenderPass, Resource, TextureCopy,
};
use crate::image::{
    is_depth_image_fmt, spec_is_depth_format, FORMAT_D16_UNORM, FORMAT_D16_UNORM_S8_UINT, FORMAT_D24_UNORM_S8_UINT,
    FORMAT_D32_SFLOAT, FORMAT_D32_SFLOAT_S8_UINT,
};
use crate::pipeline::{spec_pipeline_type, PipelineType};
use crate::renderer::{DESCRIPTOR_SET_INDEX_BINDLESS, DESCRIPTOR_SET_INDEX_INPUT_TEXTURES, DESCRIPTOR_SET_INDEX_VIEW};
use crate::synch::{AccessType, Barrier, BarrierTarget};

verus! {

/// A use of a graph resource that a pass is about to make.
#[derive(Clone, Copy, Debug, PartialEq, Eq, Structural)]
pub struct AccessRequest {
    pub target: BarrierTarget,
    pub access: AccessType,
}

/// The access every graph texture and buffer was last used with.
pub struct AccessState {
    pub textures: Seq<AccessType>,
    pub buffers: Seq<AccessType>,
}

pub open spec fn resource_state(r: GraphResources) -> AccessState {
    AccessState {
        textures: r.textures@.map_values(|t: GraphTexture| t.prev_access),
        buffers: r.buffers@.map_values(|b: GraphBuffer| b.prev_access),
    }
}

pub open spec fn access_of(s: AccessState, t: BarrierTarget) -> AccessType {
    match t {
        BarrierTarget::Texture(i) => s.textures[i as int],
        BarrierTarget::Buffer(i) => s.buffers[i as int],
        _ => AccessType::Nothing,
    }
}

pub open spec fn set_access(s: AccessState, t: BarrierTarget, a: AccessType) -> AccessState {
    match t {
        BarrierTarget::Texture(i) => AccessState { textures: s.textures.update(i as int, a), ..s },
        BarrierTarget::Buffer(i) => AccessState { buffers: s.buffers.update(i as int, a), ..s },
        _ => s,
    }
}

/// The state after the requests, taken in order.
pub open spec fn apply_requests(s: AccessState, reqs: Seq<AccessRequest>) -> AccessState
    decreases reqs.len(),
{
    if reqs.len() == 0 {
        s
    } else {
        set_access(apply_requests(s, reqs.drop_last()), reqs.last().target, reqs.last().access)
    }
}

/// The barriers that carry out the requests: each one goes from the access
/// its resource was left in by everything before it to the access requested.
pub open spec fn barriers_for(s: AccessState, reqs: Seq<AccessRequest>) -> Seq<Barrier> {
    Seq::new(
        reqs.len(),
        |i: int|
            Barrier {
                target: reqs[i].target,
                prev_access: access_of(apply_requests(s, reqs.take(i)), reqs[i].target),
                next_access: reqs[i].access,
            },
    )
}

pub open spec fn request_in_range(r: AccessRequest, num_textures: nat, num_buffers: nat) -> bool {
    target_in_range(r.target, num_textures, num_buffers)
}

pub open spec fn target_in_range(t: BarrierTarget, num_textures: nat, num_buffers: nat) -> bool {
    match t {
        BarrierTarget::Texture(i) => i < num_textures,
        BarrierTarget::Buffer(i) => i < num_buffers,
        _ => false,
    }
}

pub open spec fn requests_in_range(reqs: Seq<AccessRequest>, num_textures: nat, num_buffers: nat) -> bool {
    forall|i: int| 0 <= i < reqs.len() ==> request_in_range(#[trigger] reqs[i], num_textures, num_buffers)
}

/// The requests of the resources a pass reads: every texture and buffer, in
/// order; the acceleration structure takes part in no barrier.
pub open spec fn read_requests(reads: Seq<Resource>) -> Seq<AccessRequest>
    decreases reads.len(),
{
    if reads.len() == 0 {
        Seq::empty()
    } else {
        let rest = read_requests(reads.drop_last());
        match reads.last() {
            Resource::Texture(t) => rest.push(
                AccessRequest { target: BarrierTarget::Texture(t.texture), access: t.access_type },
            ),
            Resource::Buffer(b) => rest.push(
                AccessRequest { target: BarrierTarget::Buffer(b.buffer), access: b.access_type },
            ),
            Resource::Tlas(_) => rest,
        }
    }
}

pub open spec fn extra_requests(extra: Seq<(BufferId, AccessType)>) -> Seq<AccessRequest> {
    Seq::new(
        extra.len(),
        |i: int| AccessRequest { target: BarrierTarget::Buffer(extra[i].0), access: extra[i].1 },
    )
}

/// A pass writes a depth image as depth attachment, any other as color attachment.
pub open spec fn write_access(format: i32) -> AccessType {
    if spec_is_depth_format(format) {
        AccessType::DepthStencilAttachmentWrite
    } else {
        AccessType::ColorAttachmentWrite
    }
}

/// The attachments that get a barrier: the color attachments, then the
/// depth attachment if the graph owns it.
pub open spec fn synch_writes(writes: Seq<Attachment>, depth: Option<DepthAttachment>) -> Seq<Attachment> {
    match depth {
        Some(DepthAttachment::GraphHandle(a)) => writes.push(a),
        _ => writes,
    }
}

pub open spec fn write_requests(writes: Seq<Attachment>, textures: Seq<GraphTexture>) -> Seq<AccessRequest> {
    Seq::new(
        writes.len(),
        |i: int|
            AccessRequest {
                target: BarrierTarget::Texture(writes[i].texture),
                access: write_access(textures[writes[i].texture as int].desc.format),
            },
    )
}

/// What a pass uses before it renders: its reads, its extra buffer
/// barriers, then its attachments.
pub open spec fn pre_render_requests(p: RenderPass, textures: Seq<GraphTexture>) -> Seq<AccessRequest> {
    read_requests(p.reads@) + extra_requests(extra_barriers_seq(p.extra_barriers)) + write_requests(
        synch_writes(p.writes@, p.depth_attachment),
        textures,
    )
}

/// What the copy after a pass uses: its source is read, its destination written.
pub open spec fn copy_requests(c: Option<TextureCopy>) -> Seq<AccessRequest> {
    match c {
        Some(c) => seq![
            AccessRequest { target: BarrierTarget::Texture(c.src), access: AccessType::TransferRead },
            AccessRequest { target: BarrierTarget::Texture(c.dst), access: AccessType::TransferWrite },
        ],
        None => Seq::empty(),
    }
}

pub open spec fn pass_requests(p: RenderPass, textures: Seq<GraphTexture>) -> Seq<AccessRequest> {
    pre_render_requests(p, textures) + copy_requests(p.copy_command)
}

/// Everything the passes use, pass after pass.
pub open spec fn frame_requests(passes: Seq<RenderPass>, textures: Seq<GraphTexture>) -> Seq<AccessRequest>
    decreases passes.len(),
{
    if passes.len() == 0 {
        Seq::empty()
    } else {
        frame_requests(passes.drop_last(), textures) + pass_requests(passes.last(), textures)
    }
}

/// The barrier that makes the presented image ready to be rendered to.
pub open spec fn present_barrier() -> Barrier {
    Barrier {
        target: BarrierTarget::PresentImage,
        prev_access: AccessType::Present,
        next_access: AccessType::ColorAttachmentWrite,
    }
}

/// The render area of a pass: the presented image's for a presentation
/// pass, else that of its first color attachment, else that of its depth
/// attachment, else a single pixel.
pub open spec fn pass_extent(p: RenderPass, textures: Seq<GraphTexture>, present_extent: (u32, u32)) -> (u32, u32) {
    if p.presentation_pass {
        present_extent
    } else if p.writes@.len() > 0 {
        let d = textures[p.writes@[0].texture as int].desc;
        (d.width, d.height)
    } else {
        match p.depth_attachment {
            Some(DepthAttachment::GraphHandle(a)) => {
                let d = textures[a.texture as int].desc;
                (d.width, d.height)
            },
            Some(DepthAttachment::External(d, _)) => (d.width, d.height),
            None => (1, 1),
        }
    }
}

/// The copy as it is recorded: the aspects come from the two images.
pub open spec fn copy_with_aspects(c: TextureCopy, textures: Seq<GraphTexture>) -> TextureCopy {
    TextureCopy {
        copy_desc: ImageCopy {
            src_subresource: ImageSubresourceLayers {
                aspect_mask: textures[c.src as int].desc.aspect_flags,
                ..c.copy_desc.src_subresource
            },
            dst_subresource: ImageSubresourceLayers {
                aspect_mask: textures[c.dst as int].desc.aspect_flags,
                ..c.copy_desc.dst_subresource
            },
            ..c.copy_desc
        },
        ..c
    }
}

/// What the application records for one pass, in order: the barriers, the
/// rendering over `extent` with the pipeline of type `pipeline_type`, then,
/// if there is a copy, its barriers and the copy.
pub struct PassPlan {
    pub pipeline_type: PipelineType,
    pub barriers: Vec<Barrier>,
    pub extent: (u32, u32),
    pub copy_barriers: Vec<Barrier>,
    pub copy: Option<TextureCopy>,
}

/// A descriptor set that a pass binds before its command is recorded.
#[derive(Clone, Copy, Debug, PartialEq, Eq, Structural)]
pub enum BoundSet {
    /// The bindless set of the scene's textures, buffers and meshes.
    Bindless,
    /// The set of the camera's view data.
    View,
    /// The set of the textures and buffers the pass reads.
    InputTextures,
    /// The set of the pass's uniform buffer.
    Uniforms,
}

/// The sets a pass binds, each with the set index it is bound at, in the
/// order they are bound: the bindless set, the view set, the set of the
/// resources it reads when it has one, and the set of its uniform buffer,
/// at the index its shaders give the uniform block, when it has one.
pub open spec fn pass_set_bindings(has_input_set: bool, uniform_set: Option<u32>) -> Seq<(u32, BoundSet)> {
    seq![(DESCRIPTOR_SET_INDEX_BINDLESS, BoundSet::Bindless), (DESCRIPTOR_SET_INDEX_VIEW, BoundSet::View)]
        + (if has_input_set {
        seq![(DESCRIPTOR_SET_INDEX_INPUT_TEXTURES, BoundSet::InputTextures)]
    } else {
        Seq::empty()
    }) + match uniform_set {
        Some(set) => seq![(set, BoundSet::Uniforms)],
        None => Seq::empty(),
    }
}

/// The descriptor sets a pass binds, and where: see `pass_set_bindings`.
pub fn pass_descriptor_bindings(has_input_set: bool, uniform_set: Option<u32>) -> (r: Vec<(u32, BoundSet)>)
    ensures
        r@ == pass_set_bindings(has_input_set, uniform_set),
{
    let mut r: Vec<(u32, BoundSet)> = Vec::new();
    r.push((DESCRIPTOR_SET_INDEX_BINDLESS, BoundSet::Bindless));
    r.push((DESCRIPTOR_SET_INDEX_VIEW, BoundSet::View));
    if has_input_set {
        r.push((DESCRIPTOR_SET_INDEX_INPUT_TEXTURES, BoundSet::InputTextures));
    }
    match uniform_set {
        Some(set) => r.push((set, BoundSet::Uniforms)),
        None => {},
    }
    r
}

/// What the application records for one frame: the acceleration structure
/// rebuild with the barriers around it, if any, then the passes in order.
pub struct FramePlan {
    pub tlas_rebuild_barriers: Option<(Barrier, Barrier)>,
    pub passes: Vec<PassPlan>,
}

pub open spec fn same_but_access(a: GraphResources, b: GraphResources) -> bool {
    &&& a.textures@.len() == b.textures@.len()
    &&& a.buffers@.len() == b.buffers@.len()
    &&& forall|i: int|
        0 <= i < a.textures@.len() ==> (#[trigger] a.textures@[i]).name == b.textures@[i].name
            && a.textures@[i].desc == b.textures@[i].desc
    &&& forall|i: int|
        0 <= i < a.buffers@.len() ==> (#[trigger] a.buffers@[i]).name == b.buffers@[i].name
            && a.buffers@[i].size == b.buffers@[i].size && a.buffers@[i].usage == b.buffers@[i].usage
            && a.buffers@[i].memory_location == b.buffers@[i].memory_location
}

// ---------------------------------------------------------------------------
// Lemmas on requests
// ---------------------------------------------------------------------------
pub proof fn lemma_in_range_prefix(reqs: Seq<AccessRequest>, n: int, num_textures: nat, num_buffers: nat)
    requires
        0 <= n <= reqs.len(),
        requests_in_range(reqs, num_textures, num_buffers),
    ensures
        requests_in_range(reqs.take(n), num_textures, num_buffers),
        reqs.take(n) == reqs.subrange(0, n),
{
    assert forall|i: int| 0 <= i < reqs.take(n).len() implies request_in_range(
        #[trigger] reqs.take(n)[i],
        num_textures,
        num_buffers,
    ) by {
        assert(reqs.take(n)[i] == reqs[i]);
    }
}

pub proof fn lemma_apply_lengths(s: AccessState, reqs: Seq<AccessRequest>)
    requires
        requests_in_range(reqs, s.textures.len(), s.buffers.len()),
    ensures
        apply_requests(s, reqs).textures.len() == s.textures.len(),
        apply_requests(s, reqs).buffers.len() == s.buffers.len(),
    decreases reqs.len(),
{
    if reqs.len() > 0 {
        lemma_in_range_prefix(reqs, reqs.len() - 1, s.textures.len(), s.buffers.len());
        lemma_apply_lengths(s, reqs.drop_last());
    }
}

/// Applying two request lists one after the other is applying their concatenation.
pub proof fn lemma_apply_concat(s: AccessState, a: Seq<AccessRequest>, b: Seq<AccessRequest>)
    ensures
        apply_requests(s, a + b) == apply_requests(apply_requests(s, a), b),
    decreases b.len(),
{
    if b.len() == 0 {
        assert(a + b =~= a);
    } else {
        assert((a + b).drop_last() =~= a + b.drop_last());
        lemma_apply_concat(s, a, b.drop_last());
    }
}

/// A resource that no request names keeps its access.
pub proof fn lemma_apply_untouched(s: AccessState, reqs: Seq<AccessRequest>, t: BarrierTarget)
    requires
        requests_in_range(reqs, s.textures.len(), s.buffers.len()),
        target_in_range(t, s.textures.len(), s.buffers.len()),
        forall|i: int| 0 <= i < reqs.len() ==> (#[trigger] reqs[i]).target != t,
    ensures
        access_of(apply_requests(s, reqs), t) == access_of(s, t),
    decreases reqs.len(),
{
    if reqs.len() > 0 {
        let rest = reqs.drop_last();
        assert forall|i: int| 0 <= i < rest.len() implies (#[trigger] rest[i]).target != t by {
            assert(rest[i] == reqs[i]);
        }
        lemma_in_range_prefix(reqs, reqs.len() - 1, s.textures.len(), s.buffers.len());
        lemma_apply_untouched(s, rest, t);
        lemma_apply_lengths(s, rest);
        assert(reqs.last().target != t);
    }
}

/// Last request wins: after the requests, a resource is in the access of the
/// last request that names it.
pub proof fn lemma_apply_last_wins(s: AccessState, reqs: Seq<AccessRequest>, j: int)
    requires
        0 <= j < reqs.len(),
        forall|i: int| j < i < reqs.len() ==> (#[trigger] reqs[i]).target != reqs[j].target,
        requests_in_range(reqs, s.textures.len(), s.buffers.len()),
    ensures
        access_of(apply_requests(s, reqs), reqs[j].target) == reqs[j].access,
    decreases reqs.len(),
{
    let rest = reqs.drop_last();
    lemma_in_range_prefix(reqs, reqs.len() - 1, s.textures.len(), s.buffers.len());
    assert(request_in_range(reqs[j], s.textures.len(), s.buffers.len()));
    if j == reqs.len() - 1 {
        lemma_apply_lengths(s, rest);
    } else {
        assert forall|i: int| j < i < rest.len() implies (#[trigger] rest[i]).target != rest[j].target by {
            assert(rest[i] == reqs[i]);
        }
        lemma_apply_last_wins(s, rest, j);
        lemma_apply_lengths(s, rest);
        assert(reqs.last().target != reqs[j].target);
    }
}

/// Barriers chain: each barrier of a request list starts from the access of
/// the latest earlier request on the same resource, or from the resource's
/// initial access if there is none.
pub proof fn lemma_barriers_chain(s: AccessState, reqs: Seq<AccessRequest>, i: int)
    requires
        0 <= i < reqs.len(),
        requests_in_range(reqs, s.textures.len(), s.buffers.len()),
    ensures
        barriers_for(s, reqs)[i].target == reqs[i].target,
        barriers_for(s, reqs)[i].next_access == reqs[i].access,
        (forall|j: int| 0 <= j < i ==> reqs[j].target != reqs[i].target) ==> barriers_for(
            s,
            reqs,
        )[i].prev_access == access_of(s, reqs[i].target),
        forall|j: int|
            0 <= j < i && reqs[j].target == reqs[i].target && (forall|k: int|
                j < k < i ==> reqs[k].target != reqs[i].target) ==> barriers_for(s, reqs)[i].prev_access
                == reqs[j].access,
{
    let pre = reqs.take(i);
    lemma_in_range_prefix(reqs, i, s.textures.len(), s.buffers.len());
    assert(request_in_range(reqs[i], s.textures.len(), s.buffers.len()));
    if forall|j: int| 0 <= j < i ==> reqs[j].target != reqs[i].target {
        assert forall|j: int| 0 <= j < pre.len() implies (#[trigger] pre[j]).target != reqs[i].target by {
            assert(pre[j] == reqs[j]);
        }
        lemma_apply_untouched(s, pre, reqs[i].target);
    }
    assert forall|j: int|
        0 <= j < i && reqs[j].target == reqs[i].target && (forall|k: int|
            j < k < i ==> reqs[k].target != reqs[i].target) implies barriers_for(s, reqs)[i].prev_access
        == reqs[j].access by {
        assert forall|k: int| j < k < pre.len() implies (#[trigger] pre[k]).target != pre[j].target by {
            assert(pre[k] == reqs[k]);
        }
        lemma_apply_last_wins(s, pre, j);
    }
}

// ---------------------------------------------------------------------------
// Carrying out requests
// ---------------------------------------------------------------------------
impl GraphResources {
    /// Moves one resource to the requested access and returns the barrier
    /// that does it.
    pub fn transition(&mut self, req: AccessRequest) -> (b: Barrier)
        requires
            request_in_range(req, old(self).textures@.len(), old(self).buffers@.len()),
        ensures
            b == (Barrier {
                target: req.target,
                prev_access: access_of(resource_state(*old(self)), req.target),
                next_access: req.access,
            }),
            resource_state(*final(self)) == set_access(resource_state(*old(self)), req.target, req.access),
            same_but_access(*old(self), *final(self)),
    {
        match req.target {
            BarrierTarget::Texture(i) => {
                let prev = self.textures[i].prev_access;
                self.textures[i].prev_access = req.access;
                proof {
                    assert(resource_state(*self).textures =~= resource_state(*old(self)).textures.update(
                        i as int,
                        req.access,
                    ));
                    assert(resource_state(*self).buffers =~= resource_state(*old(self)).buffers);
                }
                Barrier { target: req.target, prev_access: prev, next_access: req.access }
            },
            BarrierTarget::Buffer(i) => {
                let prev = self.buffers[i].prev_access;
                self.buffers[i].prev_access = req.access;
                proof {
                    assert(resource_state(*self).buffers =~= resource_state(*old(self)).buffers.update(
                        i as int,
                        req.access,
                    ));
                    assert(resource_state(*self).textures =~= resource_state(*old(self)).textures);
                }
                Barrier { target: req.target, prev_access: prev, next_access: req.access }
            },
            _ => {
                // out of range by the precondition
                Barrier { target: req.target, prev_access: AccessType::Nothing, next_access: req.access }
            },
        }
    }

    /// Carries out the requests in order and returns their barriers.
    pub fn transition_all(&mut self, reqs: &Vec<AccessRequest>) -> (bs: Vec<Barrier>)
        requires
            requests_in_range(reqs@, old(self).textures@.len(), old(self).buffers@.len()),
        ensures
            bs@ == barriers_for(resource_state(*old(self)), reqs@),
            resource_state(*final(self)) == apply_requests(resource_state(*old(self)), reqs@),
            same_but_access(*old(self), *final(self)),
    {
        let ghost s0 = resource_state(*self);
        let ghost r0 = *self;
        let mut bs: Vec<Barrier> = Vec::new();
        let mut i: usize = 0;
        proof {
            assert(reqs@.take(0) =~= Seq::<AccessRequest>::empty());
        }
        while i < reqs.len()
            invariant
                i <= reqs@.len(),
                requests_in_range(reqs@, r0.textures@.len(), r0.buffers@.len()),
                same_but_access(r0, *self),
                s0 == resource_state(r0),
                resource_state(*self) == apply_requests(s0, reqs@.take(i as int)),
                bs@ == barriers_for(s0, reqs@.take(i as int)),
            decreases reqs@.len() - i,
        {
            let req = reqs[i];
            assert(request_in_range(reqs@[i as int], r0.textures@.len(), r0.buffers@.len()));
            let b = self.transition(req);
            bs.push(b);
            proof {
                let t1 = reqs@.take(i + 1);
                assert(t1.drop_last() =~= reqs@.take(i as int));
                assert(t1.last() == req);
                assert forall|j: int| 0 <= j < t1.len() implies #[trigger] barriers_for(s0, t1)[j] == bs@[j] by {
                    if j < i {
                        assert(t1.take(j) =~= reqs@.take(i as int).take(j));
                    } else {
                        assert(t1.take(j) =~= reqs@.take(i as int));
                    }
                }
                assert(bs@ =~= barriers_for(s0, t1));
            }
            i = i + 1;
        }
        assert(reqs@.take(reqs@.len() as int) =~= reqs@);
        bs
    }
}

// ---------------------------------------------------------------------------
// Requests of a pass
// ---------------------------------------------------------------------------
pub proof fn lemma_read_requests_in_range(reads: Seq<Resource>, nt: nat, nb: nat)
    requires
        forall|i: int| 0 <= i < reads.len() ==> resource_in_range(#[trigger] reads[i], nt, nb),
    ensures
        requests_in_range(read_requests(reads), nt, nb),
    decreases reads.len(),
{
    if reads.len() > 0 {
        let rest = reads.drop_last();
        assert forall|i: int| 0 <= i < rest.len() implies resource_in_range(#[trigger] rest[i], nt, nb) by {
            assert(rest[i] == reads[i]);
        }
        lemma_read_requests_in_range(rest, nt, nb);
        assert(resource_in_range(reads[reads.len() - 1], nt, nb));
    }
}

/// The requests of a pass depend on the graph's textures only through their
/// descriptions.
pub proof fn lemma_requests_use_descs(p: RenderPass, t1: Seq<GraphTexture>, t2: Seq<GraphTexture>)
    requires
        t1.len() == t2.len(),
        forall|i: int| 0 <= i < t1.len() ==> (#[trigger] t1[i]).desc == t2[i].desc,
        forall|i: int| 0 <= i < p.writes@.len() ==> (#[trigger] p.writes@[i]).texture < t1.len(),
        depth_in_range(p.depth_attachment, t1.len()),
        copy_in_range(p.copy_command, t1.len()),
    ensures
        pre_render_requests(p, t1) == pre_render_requests(p, t2),
        forall|e: (u32, u32)| pass_extent(p, t1, e) == #[trigger] pass_extent(p, t2, e),
        p.copy_command matches Some(c) ==> copy_with_aspects(c, t1) == copy_with_aspects(c, t2),
{
    let w = synch_writes(p.writes@, p.depth_attachment);
    assert forall|i: int| 0 <= i < w.len() implies (#[trigger] w[i]).texture < t1.len() by {
        if i < p.writes@.len() {
            assert(w[i] == p.writes@[i]);
        }
    }
    assert(write_requests(w, t1) =~= write_requests(w, t2));
    if p.writes@.len() > 0 {
        assert(t1[p.writes@[0].texture as int].desc == t2[p.writes@[0].texture as int].desc);
    }
}

/// The requests of the resources the pass reads.
pub fn read_requests_of(reads: &Vec<Resource>) -> (v: Vec<AccessRequest>)
    ensures
        v@ == read_requests(reads@),
{
    let mut v: Vec<AccessRequest> = Vec::new();
    let mut i: usize = 0;
    while i < reads.len()
        invariant
            i <= reads@.len(),
            v@ == read_requests(reads@.take(i as int)),
        decreases reads@.len() - i,
    {
        proof {
            let t1 = reads@.take(i + 1);
            assert(t1.drop_last() =~= reads@.take(i as int));
            assert(t1.last() == reads@[i as int]);
        }
        match reads[i] {
            Resource::Texture(t) => {
                v.push(AccessRequest { target: BarrierTarget::Texture(t.texture), access: t.access_type });
            },
            Resource::Buffer(b) => {
                v.push(AccessRequest { target: BarrierTarget::Buffer(b.buffer), access: b.access_type });
            },
            Resource::Tlas(_) => {},
        }
        i = i + 1;
    }
    assert(reads@.take(reads@.len() as int) =~= reads@);
    v
}

/// The requests a pass makes before it renders.
pub fn pre_render_requests_of(p: &RenderPass, textures: &Vec<GraphTexture>) -> (v: Vec<AccessRequest>)
    requires
        forall|i: int| 0 <= i < p.writes@.len() ==> (#[trigger] p.writes@[i]).texture < textures@.len(),
        depth_in_range(p.depth_attachment, textures@.len()),
    ensures
        v@ == pre_render_requests(*p, textures@),
{
    let mut v = read_requests_of(&p.reads);
    let ghost r = v@;
    match &p.extra_barriers {
        Some(extra) => {
            let mut i: usize = 0;
            while i < extra.len()
                invariant
                    i <= extra@.len(),
                    v@ == r + extra_requests(extra@.take(i as int)),
                decreases extra@.len() - i,
            {
                let (b, a) = extra[i];
                v.push(AccessRequest { target: BarrierTarget::Buffer(b), access: a });
                i = i + 1;
                assert(extra_requests(extra@.take(i as int)) =~= extra_requests(
                    extra@.take(i - 1 as int),
                ).push(AccessRequest { target: BarrierTarget::Buffer(b), access: a }));
                assert(v@ =~= r + extra_requests(extra@.take(i as int)));
            }
            assert(extra@.take(extra@.len() as int) =~= extra@);
        },
        None => {
            assert(extra_requests(Seq::empty()) =~= Seq::<AccessRequest>::empty());
            assert(v@ =~= r + extra_requests(Seq::empty()));
        },
    }
    let ghost re = v@;
    let ghost w = synch_writes(p.writes@, p.depth_attachment);
    let mut i: usize = 0;
    while i < p.writes.len()
        invariant
            i <= p.writes@.len(),
            forall|j: int| 0 <= j < p.writes@.len() ==> (#[trigger] p.writes@[j]).texture < textures@.len(),
            v@ == re + write_requests(p.writes@.take(i as int), textures@),
        decreases p.writes@.len() - i,
    {
        let a = p.writes[i];
        let fmt = textures[a.texture].desc.format;
        let access = if is_depth_image_fmt(fmt) {
            AccessType::DepthStencilAttachmentWrite
        } else {
            AccessType::ColorAttachmentWrite
        };
        v.push(AccessRequest { target: BarrierTarget::Texture(a.texture), access });
        i = i + 1;
        assert(write_requests(p.writes@.take(i as int), textures@) =~= write_requests(
            p.writes@.take(i - 1 as int),
            textures@,
        ).push(AccessRequest { target: BarrierTarget::Texture(a.texture), access }));
        assert(v@ =~= re + write_requests(p.writes@.take(i as int), textures@));
    }
    assert(p.writes@.take(p.writes@.len() as int) =~= p.writes@);
    match &p.depth_attachment {
        Some(DepthAttachment::GraphHandle(a)) => {
            let fmt = textures[a.texture].desc.format;
            let access = if is_depth_image_fmt(fmt) {
                AccessType::DepthStencilAttachmentWrite
            } else {
                AccessType::ColorAttachmentWrite
            };
            v.push(AccessRequest { target: BarrierTarget::Texture(a.texture), access });
            assert(write_requests(w, textures@) =~= write_requests(p.writes@, textures@).push(
                AccessRequest { target: BarrierTarget::Texture(a.texture), access },
            ));
        },
        _ => {},
    }
    assert(v@ =~= pre_render_requests(*p, textures@));
    v
}

/// The requests of the copy after a pass.
pub fn copy_requests_of(c: &Option<TextureCopy>) -> (v: Vec<AccessRequest>)
    ensures
        v@ == copy_requests(*c),
{
    let mut v: Vec<AccessRequest> = Vec::new();
    match c {
        Some(c) => {
            v.push(AccessRequest { target: BarrierTarget::Texture(c.src), access: AccessType::TransferRead });
            v.push(AccessRequest { target: BarrierTarget::Texture(c.dst), access: AccessType::TransferWrite });
        },
        None => {},
    }
    assert(v@ =~= copy_requests(*c));
    v
}

// ---------------------------------------------------------------------------
// Planning a frame
// ---------------------------------------------------------------------------
/// `plan` is what recording pass `p` gives when the graph's resources are in
/// `s` before it.
pub open spec fn pass_plan_matches(
    plan: PassPlan,
    p: RenderPass,
    graph: Graph,
    s: AccessState,
    present_extent: (u32, u32),
) -> bool {
    let textures = graph.resources.textures@;
    let pre = pre_render_requests(p, textures);
    &&& plan.pipeline_type == spec_pipeline_type(graph.pipeline_descs@[p.pipeline_handle as int]@)
    &&& plan.barriers@ == barriers_for(s, pre) + if p.presentation_pass {
        seq![present_barrier()]
    } else {
        Seq::empty()
    }
    &&& plan.extent == pass_extent(p, textures, present_extent)
    &&& plan.copy_barriers@ == barriers_for(apply_requests(s, pre), copy_requests(p.copy_command))
    &&& plan.copy == match p.copy_command {
        Some(c) => Some(copy_with_aspects(c, textures)),
        None => None,
    }
}

pub proof fn lemma_pass_requests_in_range(p: RenderPass, textures: Seq<GraphTexture>, nb: nat, np: nat)
    requires
        p.handles_valid(textures.len(), nb, np),
    ensures
        requests_in_range(pre_render_requests(p, textures), textures.len(), nb),
        requests_in_range(copy_requests(p.copy_command), textures.len(), nb),
        requests_in_range(pass_requests(p, textures), textures.len(), nb),
{
    lemma_read_requests_in_range(p.reads@, textures.len(), nb);
    let r = read_requests(p.reads@);
    let e = extra_requests(extra_barriers_seq(p.extra_barriers));
    let w = write_requests(synch_writes(p.writes@, p.depth_attachment), textures);
    let sw = synch_writes(p.writes@, p.depth_attachment);
    assert forall|i: int| 0 <= i < sw.len() implies (#[trigger] sw[i]).texture < textures.len() by {
        if i < p.writes@.len() {
            assert(sw[i] == p.writes@[i]);
        }
    }
    let pre = pre_render_requests(p, textures);
    assert forall|i: int| 0 <= i < pre.len() implies request_in_range(#[trigger] pre[i], textures.len(), nb) by {
        if i < r.len() {
            assert(pre[i] == r[i]);
        } else if i < r.len() + e.len() {
            assert(pre[i] == e[i - r.len()]);
        } else {
            assert(pre[i] == w[i - r.len() - e.len()]);
        }
    }
    let c = copy_requests(p.copy_command);
    let all = pass_requests(p, textures);
    assert forall|i: int| 0 <= i < all.len() implies request_in_range(#[trigger] all[i], textures.len(), nb) by {
        if i < pre.len() {
            assert(all[i] == pre[i]);
        } else {
            assert(all[i] == c[i - pre.len()]);
        }
    }
}

impl Graph {
    /// Plans the recording of pass `k`: its barriers, its render area and
    /// its copy, and moves the graph's resources to the accesses the pass
    /// leaves them in.
    pub fn plan_pass(&mut self, k: usize, present_extent: (u32, u32)) -> (plan: PassPlan)
        requires
            old(self).wf(),
            k < old(self).passes@.len(),
        ensures
            final(self).wf(),
            final(self).passes == old(self).passes,
            final(self).pipeline_descs == old(self).pipeline_descs,
            final(self).profiling_enabled == old(self).profiling_enabled,
            same_but_access(old(self).resources, final(self).resources),
            pass_plan_matches(
                plan,
                old(self).passes@[k as int],
                *old(self),
                resource_state(old(self).resources),
                present_extent,
            ),
            resource_state(final(self).resources) == apply_requests(
                resource_state(old(self).resources),
                pass_requests(old(self).passes@[k as int], old(self).resources.textures@),
            ),
    {
        let ghost g0 = *self;
        let ghost p = self.passes@[k as int];
        let ghost s0 = resource_state(self.resources);
        assert(p.handles_valid(
            g0.resources.textures@.len(),
            g0.resources.buffers@.len(),
            g0.pipeline_descs@.len(),
        ));
        proof {
            lemma_pass_requests_in_range(
                p,
                g0.resources.textures@,
                g0.resources.buffers@.len(),
                g0.pipeline_descs@.len(),
            );
        }
        let pre = pre_render_requests_of(&self.passes[k], &self.resources.textures);
        let copy_reqs = copy_requests_of(&self.passes[k].copy_command);
        let pipeline_type = self.pipeline_descs[self.passes[k].pipeline_handle].pipeline_type();
        // render area
        let extent = {
            let pass = &self.passes[k];
            if pass.presentation_pass {
                present_extent
            } else if pass.writes.len() > 0 {
                let d = self.resources.textures[pass.writes[0].texture].desc;
                (d.width, d.height)
            } else {
                match &pass.depth_attachment {
                    Some(DepthAttachment::GraphHandle(a)) => {
                        let d = self.resources.textures[a.texture].desc;
                        (d.width, d.height)
                    },
                    Some(DepthAttachment::External(d, _)) => (d.width, d.height),
                    None => (1, 1),
                }
            }
        };
        // the copy, with the aspects of its images
        let copy = match &self.passes[k].copy_command {
            Some(c) => {
                let mut cd = c.copy_desc;
                cd.src_subresource.aspect_mask = self.resources.textures[c.src].desc.aspect_flags;
                cd.dst_subresource.aspect_mask = self.resources.textures[c.dst].desc.aspect_flags;
                Some(TextureCopy { src: c.src, dst: c.dst, copy_desc: cd })
            },
            None => None,
        };
        let mut barriers = self.resources.transition_all(&pre);
        let ghost s1 = resource_state(self.resources);
        proof {
            lemma_apply_lengths(s0, pre@);
        }
        let copy_barriers = self.resources.transition_all(&copy_reqs);
        if self.passes[k].presentation_pass {
            barriers.push(
                Barrier {
                    target: BarrierTarget::PresentImage,
                    prev_access: AccessType::Present,
                    next_access: AccessType::ColorAttachmentWrite,
                },
            );
        }
        proof {
            lemma_apply_concat(s0, pre@, copy_reqs@);
            assert(barriers@ =~= barriers_for(s0, pre@) + if p.presentation_pass {
                seq![present_barrier()]
            } else {
                Seq::empty()
            });
            assert forall|q: int| 0 <= q < self.passes@.len() implies (#[trigger] self.passes@[q]).handles_valid(
                self.resources.textures@.len(),
                self.resources.buffers@.len(),
                self.pipeline_descs@.len(),
            ) by {
                assert(g0.passes@[q].handles_valid(
                    g0.resources.textures@.len(),
                    g0.resources.buffers@.len(),
                    g0.pipeline_descs@.len(),
                ));
            }
        }
        PassPlan { pipeline_type, barriers, extent, copy_barriers, copy }
    }
}

/// The barriers around a rebuild of the top level acceleration structure.
pub open spec fn tlas_rebuild_barriers() -> (Barrier, Barrier) {
    (
        Barrier {
            target: BarrierTarget::Global,
            prev_access: AccessType::AnyShaderReadOther,
            next_access: AccessType::AccelerationStructureBuildWrite,
        },
        Barrier {
            target: BarrierTarget::Global,
            prev_access: AccessType::AccelerationStructureBuildWrite,
            next_access: AccessType::AnyShaderReadOther,
        },
    )
}

pub proof fn lemma_frame_requests_step(passes: Seq<RenderPass>, textures: Seq<GraphTexture>, k: int)
    requires
        0 <= k < passes.len(),
    ensures
        frame_requests(passes.take(k + 1), textures) == frame_requests(passes.take(k), textures)
            + pass_requests(passes[k], textures),
{
    assert(passes.take(k + 1).drop_last() =~= passes.take(k));
}

impl Graph {
    /// Plans the recording of a frame. The acceleration structure is rebuilt
    /// first when ray tracing is available and a rebuild is asked for; then
    /// each pass is planned in order, starting from the accesses the earlier
    /// passes left the resources in. The resources end in the accesses the
    /// whole frame leaves them in, and the barriers on graph textures and
    /// buffers chain across the whole frame: each goes from the access the
    /// previous barrier on its resource moved it to, or from the access the
    /// resource had before the frame.
    pub fn plan_frame(&mut self, raytracing_available: bool, rebuild_tlas: bool, present_extent: (
        u32,
        u32,
    )) -> (plan: FramePlan)
        requires
            old(self).wf(),
        ensures
            final(self).wf(),
            final(self).passes == old(self).passes,
            final(self).pipeline_descs == old(self).pipeline_descs,
            final(self).profiling_enabled == old(self).profiling_enabled,
            same_but_access(old(self).resources, final(self).resources),
            plan.tlas_rebuild_barriers == if raytracing_available && rebuild_tlas {
                Some(tlas_rebuild_barriers())
            } else {
                None
            },
            plan.passes@.len() == old(self).passes@.len(),
            forall|k: int|
                0 <= k < old(self).passes@.len() ==> pass_plan_matches(
                    #[trigger] plan.passes@[k],
                    old(self).passes@[k],
                    *old(self),
                    apply_requests(
                        resource_state(old(self).resources),
                        frame_requests(old(self).passes@.take(k), old(self).resources.textures@),
                    ),
                    present_extent,
                ),
            resource_state(final(self).resources) == apply_requests(
                resource_state(old(self).resources),
                frame_requests(old(self).passes@, old(self).resources.textures@),
            ),
            frame_resource_barriers(plan.passes@, old(self).passes@) == barriers_for(
                resource_state(old(self).resources),
                frame_requests(old(self).passes@, old(self).resources.textures@),
            ),
            barriers_chain_from(
                resource_state(old(self).resources),
                frame_resource_barriers(plan.passes@, old(self).passes@),
            ),
    {
        let ghost g0 = *self;
        let ghost s0 = resource_state(self.resources);
        let ghost t0 = self.resources.textures@;
        let tlas = if raytracing_available && rebuild_tlas {
            Some(
                (
                    Barrier {
                        target: BarrierTarget::Global,
                        prev_access: AccessType::AnyShaderReadOther,
                        next_access: AccessType::AccelerationStructureBuildWrite,
                    },
                    Barrier {
                        target: BarrierTarget::Global,
                        prev_access: AccessType::AccelerationStructureBuildWrite,
                        next_access: AccessType::AnyShaderReadOther,
                    },
                ),
            )
        } else {
            None
        };
        let mut plans: Vec<PassPlan> = Vec::new();
        let mut k: usize = 0;
        proof {
            assert(g0.passes@.take(0) =~= Seq::<RenderPass>::empty());
        }
        while k < self.passes.len()
            invariant
                self.wf(),
                self.passes == g0.passes,
                self.pipeline_descs == g0.pipeline_descs,
                self.profiling_enabled == g0.profiling_enabled,
                same_but_access(g0.resources, self.resources),
                k <= g0.passes@.len(),
                plans@.len() == k,
                s0 == resource_state(g0.resources),
                t0 == g0.resources.textures@,
                resource_state(self.resources) == apply_requests(s0, frame_requests(g0.passes@.take(k as int), t0)),
                forall|j: int|
                    0 <= j < k ==> pass_plan_matches(
                        #[trigger] plans@[j],
                        g0.passes@[j],
                        g0,
                        apply_requests(s0, frame_requests(g0.passes@.take(j), t0)),
                        present_extent,
                    ),
            decreases g0.passes@.len() - k,
        {
            let ghost gk = *self;
            let plan = self.plan_pass(k, present_extent);
            proof {
                let p = g0.passes@[k as int];
                assert(p.handles_valid(t0.len(), g0.resources.buffers@.len(), g0.pipeline_descs@.len()));
                lemma_requests_use_descs(p, gk.resources.textures@, t0);
                lemma_frame_requests_step(g0.passes@, t0, k as int);
                lemma_apply_concat(s0, frame_requests(g0.passes@.take(k as int), t0), pass_requests(p, t0));
                assert(pre_render_requests(p, gk.resources.textures@) == pre_render_requests(p, t0));
                assert(pass_requests(p, gk.resources.textures@) == pass_requests(p, t0));
                assert(pass_extent(p, gk.resources.textures@, present_extent) == pass_extent(p, t0, present_extent));
            }
            plans.push(plan);
            k = k + 1;
        }
        proof {
            assert(g0.passes@.take(g0.passes@.len() as int) =~= g0.passes@);
        }
        let plan = FramePlan { tlas_rebuild_barriers: tlas, passes: plans };
        proof {
            lemma_frame_barriers_chain(g0, plan, present_extent);
        }
        plan
    }
}

// ---------------------------------------------------------------------------
// Barriers across a frame
// ---------------------------------------------------------------------------
/// No barrier before the `i`th is on the same resource.
pub open spec fn first_on_target(bs: Seq<Barrier>, i: int) -> bool {
    forall|j: int| 0 <= j < i ==> (#[trigger] bs[j]).target != bs[i].target
}

/// The `j`th barrier is the latest one before the `i`th on the same resource.
pub open spec fn latest_on_target(bs: Seq<Barrier>, j: int, i: int) -> bool {
    &&& 0 <= j < i
    &&& bs[j].target == bs[i].target
    &&& forall|k: int| j < k < i ==> (#[trigger] bs[k]).target != bs[i].target
}

/// Each barrier starts from the access the latest earlier barrier on the same
/// resource moved it to, or, for the first barrier on a resource, from the
/// access the resource had in `s`.
pub open spec fn barriers_chain_from(s: AccessState, bs: Seq<Barrier>) -> bool {
    forall|i: int|
        0 <= i < bs.len() ==> {
            &&& first_on_target(bs, i) ==> (#[trigger] bs[i]).prev_access == access_of(s, bs[i].target)
            &&& forall|j: int| #[trigger] latest_on_target(bs, j, i) ==> bs[i].prev_access == bs[j].next_access
        }
}

/// The barriers a pass plan records on graph resources: those before the
/// pass without the one for the presented image, then those of its copy.
pub open spec fn pass_resource_barriers(plan: PassPlan, p: RenderPass) -> Seq<Barrier> {
    (if p.presentation_pass {
        plan.barriers@.drop_last()
    } else {
        plan.barriers@
    }) + plan.copy_barriers@
}

/// The barriers a frame records on graph resources, pass after pass.
pub open spec fn frame_resource_barriers(plans: Seq<PassPlan>, passes: Seq<RenderPass>) -> Seq<Barrier>
    decreases passes.len(),
{
    if passes.len() == 0 || plans.len() == 0 {
        Seq::empty()
    } else {
        frame_resource_barriers(plans.drop_last(), passes.drop_last()) + pass_resource_barriers(
            plans.last(),
            passes.last(),
        )
    }
}

/// Carrying out two request lists one after the other gives the barriers of
/// their concatenation.
pub proof fn lemma_barriers_concat(s: AccessState, a: Seq<AccessRequest>, b: Seq<AccessRequest>)
    ensures
        barriers_for(s, a + b) == barriers_for(s, a) + barriers_for(apply_requests(s, a), b),
{
    let l = barriers_for(s, a + b);
    let r = barriers_for(s, a) + barriers_for(apply_requests(s, a), b);
    assert forall|i: int| 0 <= i < l.len() implies l[i] == r[i] by {
        if i < a.len() {
            assert((a + b).take(i) =~= a.take(i));
        } else {
            assert((a + b).take(i) =~= a + b.take(i - a.len()));
            lemma_apply_concat(s, a, b.take(i - a.len()));
        }
    }
    assert(l =~= r);
}

/// The barriers of requests that stay in range chain from `s`.
pub proof fn lemma_barriers_for_chain(s: AccessState, reqs: Seq<AccessRequest>)
    requires
        requests_in_range(reqs, s.textures.len(), s.buffers.len()),
    ensures
        barriers_chain_from(s, barriers_for(s, reqs)),
{
    let bs = barriers_for(s, reqs);
    assert forall|i: int| 0 <= i < bs.len() implies {
        &&& first_on_target(bs, i) ==> (#[trigger] bs[i]).prev_access == access_of(s, bs[i].target)
        &&& forall|j: int| #[trigger] latest_on_target(bs, j, i) ==> bs[i].prev_access == bs[j].next_access
    } by {
        lemma_barriers_chain(s, reqs, i);
        if first_on_target(bs, i) {
            assert forall|j: int| 0 <= j < i implies reqs[j].target != reqs[i].target by {
                assert(bs[j].target == reqs[j].target);
            }
        }
        assert forall|j: int| #[trigger] latest_on_target(bs, j, i) implies bs[i].prev_access == bs[j].next_access by {
            assert forall|k: int| j < k < i implies reqs[k].target != reqs[i].target by {
                assert(bs[k].target == reqs[k].target);
            }
            assert(bs[j].target == reqs[j].target);
        }
    }
}

/// The requests of a frame whose passes are valid for the graph stay in range.
pub proof fn lemma_frame_requests_in_range(passes: Seq<RenderPass>, textures: Seq<GraphTexture>, nb: nat, np: nat)
    requires
        forall|i: int| 0 <= i < passes.len() ==> (#[trigger] passes[i]).handles_valid(textures.len(), nb, np),
    ensures
        requests_in_range(frame_requests(passes, textures), textures.len(), nb),
    decreases passes.len(),
{
    if passes.len() > 0 {
        let rest = passes.drop_last();
        assert forall|i: int| 0 <= i < rest.len() implies (#[trigger] rest[i]).handles_valid(textures.len(), nb, np) by {
            assert(rest[i] == passes[i]);
        }
        lemma_frame_requests_in_range(rest, textures, nb, np);
        assert(passes.last() == passes[passes.len() - 1]);
        lemma_pass_requests_in_range(passes.last(), textures, nb, np);
        let a = frame_requests(rest, textures);
        let b = pass_requests(passes.last(), textures);
        assert forall|i: int| 0 <= i < (a + b).len() implies request_in_range(#[trigger] (a + b)[i], textures.len(), nb) by {
            if i < a.len() {
                assert((a + b)[i] == a[i]);
            } else {
                assert((a + b)[i] == b[i - a.len()]);
            }
        }
    }
}

/// The graph-resource barriers of passes planned one after the other, each
/// from the state the earlier ones left, are the barriers of the requests of
/// all of them together.
pub proof fn lemma_planned_barriers(
    plans: Seq<PassPlan>,
    passes: Seq<RenderPass>,
    g: Graph,
    s: AccessState,
    present_extent: (u32, u32),
)
    requires
        plans.len() == passes.len(),
        forall|k: int|
            0 <= k < passes.len() ==> pass_plan_matches(
                #[trigger] plans[k],
                passes[k],
                g,
                apply_requests(s, frame_requests(passes.take(k), g.resources.textures@)),
                present_extent,
            ),
    ensures
        frame_resource_barriers(plans, passes) == barriers_for(s, frame_requests(passes, g.resources.textures@)),
    decreases passes.len(),
{
    let t = g.resources.textures@;
    if passes.len() == 0 {
        assert(barriers_for(s, frame_requests(passes, t)) =~= Seq::<Barrier>::empty());
    } else {
        let n = passes.len() - 1;
        let rest = passes.drop_last();
        let prest = plans.drop_last();
        assert forall|k: int| 0 <= k < rest.len() implies pass_plan_matches(
            #[trigger] prest[k],
            rest[k],
            g,
            apply_requests(s, frame_requests(rest.take(k), t)),
            present_extent,
        ) by {
            assert(rest.take(k) =~= passes.take(k));
            assert(prest[k] == plans[k]);
            assert(pass_plan_matches(plans[k], passes[k], g, apply_requests(s, frame_requests(passes.take(k), t)), present_extent));
        }
        lemma_planned_barriers(prest, rest, g, s, present_extent);
        let p = passes[n];
        let plan = plans[n];
        assert(passes.take(n) =~= rest);
        assert(pass_plan_matches(plan, p, g, apply_requests(s, frame_requests(passes.take(n), t)), present_extent));
        let s1 = apply_requests(s, frame_requests(rest, t));
        let pre = pre_render_requests(p, t);
        let cp = copy_requests(p.copy_command);
        if p.presentation_pass {
            assert((barriers_for(s1, pre) + seq![present_barrier()]).drop_last() =~= barriers_for(s1, pre));
        }
        assert(pass_resource_barriers(plan, p) == barriers_for(s1, pre) + barriers_for(apply_requests(s1, pre), cp));
        lemma_barriers_concat(s1, pre, cp);
        lemma_barriers_concat(s, frame_requests(rest, t), pass_requests(p, t));
        assert(passes.last() == p);
        assert(plans.last() == plan);
    }
}

/// Barriers chain across a whole frame: in the plan of a frame, each barrier
/// on a graph texture or buffer goes from the access the latest earlier
/// barrier on that resource moved it to (in this pass or an earlier one), or,
/// for its first barrier in the frame, from the access it had before the
/// frame; and these barriers are exactly those of all the frame's requests,
/// in order.
pub proof fn lemma_frame_barriers_chain(g: Graph, plan: FramePlan, present_extent: (u32, u32))
    requires
        g.wf(),
        plan.passes@.len() == g.passes@.len(),
        forall|k: int|
            0 <= k < g.passes@.len() ==> pass_plan_matches(
                #[trigger] plan.passes@[k],
                g.passes@[k],
                g,
                apply_requests(
                    resource_state(g.resources),
                    frame_requests(g.passes@.take(k), g.resources.textures@),
                ),
                present_extent,
            ),
    ensures
        frame_resource_barriers(plan.passes@, g.passes@) == barriers_for(
            resource_state(g.resources),
            frame_requests(g.passes@, g.resources.textures@),
        ),
        barriers_chain_from(resource_state(g.resources), frame_resource_barriers(plan.passes@, g.passes@)),
{
    let s = resource_state(g.resources);
    lemma_planned_barriers(plan.passes@, g.passes@, g, s, present_extent);
    lemma_frame_requests_in_range(
        g.passes@,
        g.resources.textures@,
        g.resources.buffers@.len(),
        g.pipeline_descs@.len(),
    );
    lemma_barriers_for_chain(s, frame_requests(g.passes@, g.resources.textures@));
}


// ---------------------------------------------------------------------------
// Attachment barriers
// ---------------------------------------------------------------------------
/// Attachments get the barrier their format calls for. In the plan of a
/// pass, the barriers just before the one for the presented image (if any)
/// are those of the attachments the graph owns: first each color attachment
/// in order, then the graph-owned depth attachment. Each goes to its
/// texture, and moves it to depth-stencil attachment writing when the
/// texture has a depth format (D16, D32, D16 with stencil, D24 with stencil,
/// D32 with stencil), and to color attachment writing otherwise.
pub proof fn lemma_attachment_barriers(plan: PassPlan, p: RenderPass, g: Graph, s: AccessState, present_extent: (
    u32,
    u32,
))
    requires
        pass_plan_matches(plan, p, g, s, present_extent),
    ensures
        ({
            let t = g.resources.textures@;
            let owned_depth: int = if p.depth_attachment is Some && p.depth_attachment.unwrap() is GraphHandle {
                1
            } else {
                0
            };
            let n = p.writes@.len() + owned_depth;
            let m = plan.barriers@.len() - if p.presentation_pass {
                1int
            } else {
                0int
            };
            &&& n <= m
            &&& forall|i: int|
                #![trigger p.writes@[i]]
                0 <= i < p.writes@.len() ==> {
                    let f = t[p.writes@[i].texture as int].desc.format;
                    &&& plan.barriers@[m - n + i].target == BarrierTarget::Texture(p.writes@[i].texture)
                    &&& plan.barriers@[m - n + i].next_access == if f == FORMAT_D16_UNORM || f
                        == FORMAT_D32_SFLOAT || f == FORMAT_D16_UNORM_S8_UINT || f
                        == FORMAT_D24_UNORM_S8_UINT || f == FORMAT_D32_SFLOAT_S8_UINT {
                        AccessType::DepthStencilAttachmentWrite
                    } else {
                        AccessType::ColorAttachmentWrite
                    }
                }
            &&& p.depth_attachment matches Some(DepthAttachment::GraphHandle(a)) ==> {
                let f = t[a.texture as int].desc.format;
                &&& plan.barriers@[m - 1].target == BarrierTarget::Texture(a.texture)
                &&& plan.barriers@[m - 1].next_access == if f == FORMAT_D16_UNORM || f == FORMAT_D32_SFLOAT
                    || f == FORMAT_D16_UNORM_S8_UINT || f == FORMAT_D24_UNORM_S8_UINT || f
                    == FORMAT_D32_SFLOAT_S8_UINT {
                    AccessType::DepthStencilAttachmentWrite
                } else {
                    AccessType::ColorAttachmentWrite
                }
            }
        }),
{
    let t = g.resources.textures@;
    let pre = pre_render_requests(p, t);
    let sw = synch_writes(p.writes@, p.depth_attachment);
    let w = write_requests(sw, t);
    let head = read_requests(p.reads@) + extra_requests(extra_barriers_seq(p.extra_barriers));
    assert(pre == head + w);
    let bs = barriers_for(s, pre);
    let tail: Seq<Barrier> = if p.presentation_pass {
        seq![present_barrier()]
    } else {
        Seq::empty()
    };
    assert(plan.barriers@ == bs + tail);
    assert forall|i: int| 0 <= i < w.len() implies (#[trigger] (bs + tail)[head.len() + i]).target
        == BarrierTarget::Texture(sw[i].texture) && (bs + tail)[head.len() + i].next_access == write_access(
        t[sw[i].texture as int].desc.format,
    ) by {
        assert((bs + tail)[head.len() + i] == bs[head.len() + i]);
        assert(pre[head.len() + i] == w[i]);
    }
    assert forall|i: int| 0 <= i < p.writes@.len() implies sw[i] == p.writes@[i] by {}
    match p.depth_attachment {
        Some(DepthAttachment::GraphHandle(a)) => {
            assert(sw.len() == p.writes@.len() + 1);
            assert(sw[p.writes@.len() as int] == a);
            assert((bs + tail)[head.len() + p.writes@.len() as int].target == BarrierTarget::Texture(sw[p.writes@.len() as int].texture));
        },
        _ => {},
    }
}

} // verus!
