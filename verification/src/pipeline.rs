use vstd::prelude::*;

use crate::image::{FORMAT_R32G32B32A32_SFLOAT, FORMAT_R32G32_SFLOAT, FORMAT_UNDEFINED};

verus! {

/// Which kind of pipeline a description asks for.
#[derive(Clone, Copy, Debug, PartialEq, Eq, Structural)]
pub enum PipelineType {
    Graphics,
    Compute,
    Raytracing,
}

/// `VK_VERTEX_INPUT_RATE_VERTEX`.
pub const VERTEX_INPUT_RATE_VERTEX: i32 = 0;

/// Size in bytes of one vertex of a primitive: position, normal, color and
/// tangent are four floats each, the texture coordinate two, and every
/// four-float member starts on a 16-byte boundary.
pub const VERTEX_STRIDE: u32 = 80;

/// Byte offsets of the vertex members, in declaration order: position,
/// normal, texture coordinate, color, tangent.
pub const VERTEX_OFFSET_POS: u32 = 0;
pub const VERTEX_OFFSET_NORMAL: u32 = 16;
pub const VERTEX_OFFSET_UV: u32 = 32;
pub const VERTEX_OFFSET_COLOR: u32 = 48;
pub const VERTEX_OFFSET_TANGENT: u32 = 64;

#[derive(Clone, Copy, Debug, PartialEq, Eq, Structural)]
pub struct VertexInputBindingDescription {
    pub binding: u32,
    pub stride: u32,
    pub input_rate: i32,
}

#[derive(Clone, Copy, Debug, PartialEq, Eq, Structural)]
pub struct VertexInputAttributeDescription {
    pub location: u32,
    pub binding: u32,
    pub format: i32,
    pub offset: u32,
}

/// Everything a pipeline is created from. Two passes that describe the same
/// pipeline share it.
pub struct PipelineDesc {
    pub vertex_path: Option<String>,
    pub fragment_path: Option<String>,
    pub compute_path: Option<String>,
    pub raygen_path: Option<String>,
    pub miss_path: Option<String>,
    pub hit_path: Option<String>,
    pub vertex_input_binding_descriptions: Vec<VertexInputBindingDescription>,
    pub vertex_input_attribute_descriptions: Vec<VertexInputAttributeDescription>,
    pub color_attachment_formats: Vec<i32>,
    pub depth_stencil_attachment_format: i32,
}

/// The mathematical content of a pipeline description.
pub struct PipelineDescView {
    pub vertex_path: Option<Seq<char>>,
    pub fragment_path: Option<Seq<char>>,
    pub compute_path: Option<Seq<char>>,
    pub raygen_path: Option<Seq<char>>,
    pub miss_path: Option<Seq<char>>,
    pub hit_path: Option<Seq<char>>,
    pub vertex_input_binding_descriptions: Seq<VertexInputBindingDescription>,
    pub vertex_input_attribute_descriptions: Seq<VertexInputAttributeDescription>,
    pub color_attachment_formats: Seq<i32>,
    pub depth_stencil_attachment_format: i32,
}

pub open spec fn opt_view(s: Option<String>) -> Option<Seq<char>> {
    match s {
        Some(s) => Some(s@),
        None => None,
    }
}

impl View for PipelineDesc {
    type V = PipelineDescView;

    open spec fn view(&self) -> PipelineDescView {
        PipelineDescView {
            vertex_path: opt_view(self.vertex_path),
            fragment_path: opt_view(self.fragment_path),
            compute_path: opt_view(self.compute_path),
            raygen_path: opt_view(self.raygen_path),
            miss_path: opt_view(self.miss_path),
            hit_path: opt_view(self.hit_path),
            vertex_input_binding_descriptions: self.vertex_input_binding_descriptions@,
            vertex_input_attribute_descriptions: self.vertex_input_attribute_descriptions@,
            color_attachment_formats: self.color_attachment_formats@,
            depth_stencil_attachment_format: self.depth_stencil_attachment_format,
        }
    }
}

pub open spec fn spec_pipeline_type(desc: PipelineDescView) -> PipelineType {
    if desc.raygen_path is Some {
        PipelineType::Raytracing
    } else if desc.compute_path is Some {
        PipelineType::Compute
    } else {
        PipelineType::Graphics
    }
}

fn opt_string_eq(a: &Option<String>, b: &Option<String>) -> (r: bool)
    ensures
        r == (opt_view(*a) == opt_view(*b)),
{
    match (a, b) {
        (Some(x), Some(y)) => x.eq(y),
        (None, None) => true,
        _ => false,
    }
}

fn formats_eq(a: &Vec<i32>, b: &Vec<i32>) -> (r: bool)
    ensures
        r == (a@ == b@),
{
    if a.len() != b.len() {
        return false;
    }
    let mut i: usize = 0;
    while i < a.len()
        invariant
            a@.len() == b@.len(),
            i <= a@.len(),
            forall|j: int| 0 <= j < i ==> a@[j] == b@[j],
        decreases a.len() - i,
    {
        if a[i] != b[i] {
            return false;
        }
        i = i + 1;
    }
    assert(a@ =~= b@);
    true
}

fn bindings_eq(a: &Vec<VertexInputBindingDescription>, b: &Vec<VertexInputBindingDescription>) -> (r: bool)
    ensures
        r == (a@ == b@),
{
    if a.len() != b.len() {
        return false;
    }
    let mut i: usize = 0;
    while i < a.len()
        invariant
            a@.len() == b@.len(),
            i <= a@.len(),
            forall|j: int| 0 <= j < i ==> a@[j] == b@[j],
        decreases a.len() - i,
    {
        if a[i] != b[i] {
            return false;
        }
        i = i + 1;
    }
    assert(a@ =~= b@);
    true
}

fn attributes_eq(a: &Vec<VertexInputAttributeDescription>, b: &Vec<VertexInputAttributeDescription>) -> (r: bool)
    ensures
        r == (a@ == b@),
{
    if a.len() != b.len() {
        return false;
    }
    let mut i: usize = 0;
    while i < a.len()
        invariant
            a@.len() == b@.len(),
            i <= a@.len(),
            forall|j: int| 0 <= j < i ==> a@[j] == b@[j],
        decreases a.len() - i,
    {
        if a[i] != b[i] {
            return false;
        }
        i = i + 1;
    }
    assert(a@ =~= b@);
    true
}

fn opt_string_copy(a: &Option<String>) -> (r: Option<String>)
    ensures
        opt_view(r) == opt_view(*a),
{
    match a {
        Some(s) => Some(s.clone()),
        None => None,
    }
}

fn vec_copy<T: Copy>(a: &Vec<T>) -> (r: Vec<T>)
    ensures
        r@ == a@,
{
    let mut r: Vec<T> = Vec::new();
    let mut i: usize = 0;
    while i < a.len()
        invariant
            i <= a@.len(),
            r@ == a@.take(i as int),
        decreases a.len() - i,
    {
        r.push(a[i]);
        i = i + 1;
        assert(r@ =~= a@.take(i as int));
    }
    assert(a@.take(a@.len() as int) =~= a@);
    r
}

impl PipelineDesc {
    pub fn builder() -> (r: PipelineDescBuilder)
        ensures
            r.desc@ == empty_pipeline_desc(),
    {
        PipelineDescBuilder::new()
    }

    /// Whether two descriptions describe the same pipeline.
    pub fn same_as(&self, other: &PipelineDesc) -> (r: bool)
        ensures
            r == (self@ == other@),
    {
        let r = opt_string_eq(&self.vertex_path, &other.vertex_path) && opt_string_eq(
            &self.fragment_path,
            &other.fragment_path,
        ) && opt_string_eq(&self.compute_path, &other.compute_path) && opt_string_eq(
            &self.raygen_path,
            &other.raygen_path,
        ) && opt_string_eq(&self.miss_path, &other.miss_path) && opt_string_eq(
            &self.hit_path,
            &other.hit_path,
        ) && bindings_eq(
            &self.vertex_input_binding_descriptions,
            &other.vertex_input_binding_descriptions,
        ) && attributes_eq(
            &self.vertex_input_attribute_descriptions,
            &other.vertex_input_attribute_descriptions,
        ) && formats_eq(&self.color_attachment_formats, &other.color_attachment_formats)
            && self.depth_stencil_attachment_format == other.depth_stencil_attachment_format;
        proof {
            if r {
                assert(self@ == other@);
            }
        }
        r
    }

    /// A description equal to this one.
    pub fn duplicate(&self) -> (r: PipelineDesc)
        ensures
            r@ == self@,
    {
        PipelineDesc {
            vertex_path: opt_string_copy(&self.vertex_path),
            fragment_path: opt_string_copy(&self.fragment_path),
            compute_path: opt_string_copy(&self.compute_path),
            raygen_path: opt_string_copy(&self.raygen_path),
            miss_path: opt_string_copy(&self.miss_path),
            hit_path: opt_string_copy(&self.hit_path),
            vertex_input_binding_descriptions: vec_copy(&self.vertex_input_binding_descriptions),
            vertex_input_attribute_descriptions: vec_copy(
                &self.vertex_input_attribute_descriptions,
            ),
            color_attachment_formats: vec_copy(&self.color_attachment_formats),
            depth_stencil_attachment_format: self.depth_stencil_attachment_format,
        }
    }

    /// A ray generation shader makes a ray tracing pipeline, else a compute
    /// shader makes a compute pipeline, else the pipeline is a graphics one.
    pub fn pipeline_type(&self) -> (r: PipelineType)
        ensures
            r == spec_pipeline_type(self@),
    {
        match (&self.compute_path, &self.raygen_path) {
            (_, Some(_)) => PipelineType::Raytracing,
            (Some(_), _) => PipelineType::Compute,
            (None, None) => PipelineType::Graphics,
        }
    }
}

pub open spec fn empty_pipeline_desc() -> PipelineDescView {
    PipelineDescView {
        vertex_path: None,
        fragment_path: None,
        compute_path: None,
        raygen_path: None,
        miss_path: None,
        hit_path: None,
        vertex_input_binding_descriptions: Seq::empty(),
        vertex_input_attribute_descriptions: Seq::empty(),
        color_attachment_formats: Seq::empty(),
        depth_stencil_attachment_format: FORMAT_UNDEFINED,
    }
}

pub open spec fn spec_primitive_vertex_bindings() -> Seq<VertexInputBindingDescription> {
    seq![VertexInputBindingDescription { binding: 0, stride: VERTEX_STRIDE, input_rate: VERTEX_INPUT_RATE_VERTEX }]
}

pub open spec fn spec_primitive_vertex_attributes() -> Seq<VertexInputAttributeDescription> {
    seq![
        VertexInputAttributeDescription { location: 0, binding: 0, format: FORMAT_R32G32B32A32_SFLOAT, offset: VERTEX_OFFSET_POS },
        VertexInputAttributeDescription { location: 1, binding: 0, format: FORMAT_R32G32B32A32_SFLOAT, offset: VERTEX_OFFSET_NORMAL },
        VertexInputAttributeDescription { location: 2, binding: 0, format: FORMAT_R32G32_SFLOAT, offset: VERTEX_OFFSET_UV },
        VertexInputAttributeDescription { location: 3, binding: 0, format: FORMAT_R32G32B32A32_SFLOAT, offset: VERTEX_OFFSET_COLOR },
        VertexInputAttributeDescription { location: 4, binding: 0, format: FORMAT_R32G32B32A32_SFLOAT, offset: VERTEX_OFFSET_TANGENT },
    ]
}

/// The single vertex buffer binding of a primitive: one vertex per step.
pub fn get_vertex_input_binding_descriptions() -> (r: Vec<VertexInputBindingDescription>)
    ensures
        r@ == spec_primitive_vertex_bindings(),
{
    let mut v: Vec<VertexInputBindingDescription> = Vec::new();
    v.push(
        VertexInputBindingDescription {
            binding: 0,
            stride: VERTEX_STRIDE,
            input_rate: VERTEX_INPUT_RATE_VERTEX,
        },
    );
    assert(v@ =~= spec_primitive_vertex_bindings());
    v
}

/// The five vertex attributes of a primitive, at locations 0 to 4.
pub fn get_vertex_input_attribute_descriptions() -> (r: Vec<VertexInputAttributeDescription>)
    ensures
        r@ == spec_primitive_vertex_attributes(),
{
    let mut v: Vec<VertexInputAttributeDescription> = Vec::new();
    v.push(
        VertexInputAttributeDescription {
            location: 0,
            binding: 0,
            format: FORMAT_R32G32B32A32_SFLOAT,
            offset: VERTEX_OFFSET_POS,
        },
    );
    v.push(
        VertexInputAttributeDescription {
            location: 1,
            binding: 0,
            format: FORMAT_R32G32B32A32_SFLOAT,
            offset: VERTEX_OFFSET_NORMAL,
        },
    );
    v.push(
        VertexInputAttributeDescription {
            location: 2,
            binding: 0,
            format: FORMAT_R32G32_SFLOAT,
            offset: VERTEX_OFFSET_UV,
        },
    );
    v.push(
        VertexInputAttributeDescription {
            location: 3,
            binding: 0,
            format: FORMAT_R32G32B32A32_SFLOAT,
            offset: VERTEX_OFFSET_COLOR,
        },
    );
    v.push(
        VertexInputAttributeDescription {
            location: 4,
            binding: 0,
            format: FORMAT_R32G32B32A32_SFLOAT,
            offset: VERTEX_OFFSET_TANGENT,
        },
    );
    assert(v@ =~= spec_primitive_vertex_attributes());
    v
}

/// Builds a pipeline description field by field.
pub struct PipelineDescBuilder {
    pub desc: PipelineDesc,
}

impl PipelineDescBuilder {
    pub fn new() -> (r: Self)
        ensures
            r.desc@ == empty_pipeline_desc(),
    {
        let r = PipelineDescBuilder {
            desc: PipelineDesc {
                vertex_path: None,
                fragment_path: None,
                compute_path: None,
                raygen_path: None,
                miss_path: None,
                hit_path: None,
                vertex_input_binding_descriptions: Vec::new(),
                vertex_input_attribute_descriptions: Vec::new(),
                color_attachment_formats: Vec::new(),
                depth_stencil_attachment_format: FORMAT_UNDEFINED,
            },
        };
        assert(r.desc@ == empty_pipeline_desc());
        r
    }

    pub fn vertex_path(self, path: &str) -> (r: Self)
        ensures
            r.desc@ == (PipelineDescView { vertex_path: Some(path@), ..self.desc@ }),
    {
        let mut b = self;
        b.desc.vertex_path = Some(path.to_string());
        b
    }

    pub fn fragment_path(self, path: &str) -> (r: Self)
        ensures
            r.desc@ == (PipelineDescView { fragment_path: Some(path@), ..self.desc@ }),
    {
        let mut b = self;
        b.desc.fragment_path = Some(path.to_string());
        b
    }

    pub fn compute_path(self, path: &str) -> (r: Self)
        ensures
            r.desc@ == (PipelineDescView { compute_path: Some(path@), ..self.desc@ }),
    {
        let mut b = self;
        b.desc.compute_path = Some(path.to_string());
        b
    }

    pub fn raygen_path(self, path: &str) -> (r: Self)
        ensures
            r.desc@ == (PipelineDescView { raygen_path: Some(path@), ..self.desc@ }),
    {
        let mut b = self;
        b.desc.raygen_path = Some(path.to_string());
        b
    }

    /// The miss shader of a ray tracing pipeline.
    pub fn miss_path(self, path: &str) -> (r: Self)
        ensures
            r.desc@ == (PipelineDescView { miss_path: Some(path@), ..self.desc@ }),
    {
        let mut b = self;
        b.desc.miss_path = Some(path.to_string());
        b
    }

    /// The closest hit shader of a ray tracing pipeline.
    pub fn hit_path(self, path: &str) -> (r: Self)
        ensures
            r.desc@ == (PipelineDescView { hit_path: Some(path@), ..self.desc@ }),
    {
        let mut b = self;
        b.desc.hit_path = Some(path.to_string());
        b
    }

    pub fn vertex_input_binding_descriptions(
        self,
        descriptions: Vec<VertexInputBindingDescription>,
    ) -> (r: Self)
        ensures
            r.desc@ == (PipelineDescView {
                vertex_input_binding_descriptions: descriptions@,
                ..self.desc@
            }),
    {
        let mut b = self;
        b.desc.vertex_input_binding_descriptions = descriptions;
        b
    }

    pub fn vertex_input_attribute_descriptions(
        self,
        descriptions: Vec<VertexInputAttributeDescription>,
    ) -> (r: Self)
        ensures
            r.desc@ == (PipelineDescView {
                vertex_input_attribute_descriptions: descriptions@,
                ..self.desc@
            }),
    {
        let mut b = self;
        b.desc.vertex_input_attribute_descriptions = descriptions;
        b
    }

    /// Uses the vertex buffer binding of a primitive.
    pub fn default_primitive_vertex_bindings(self) -> (r: Self)
        ensures
            r.desc@ == (PipelineDescView {
                vertex_input_binding_descriptions: spec_primitive_vertex_bindings(),
                ..self.desc@
            }),
    {
        let mut b = self;
        b.desc.vertex_input_binding_descriptions = get_vertex_input_binding_descriptions();
        b
    }

    /// Uses the vertex attributes of a primitive.
    pub fn default_primitive_vertex_attributes(self) -> (r: Self)
        ensures
            r.desc@ == (PipelineDescView {
                vertex_input_attribute_descriptions: spec_primitive_vertex_attributes(),
                ..self.desc@
            }),
    {
        let mut b = self;
        b.desc.vertex_input_attribute_descriptions = get_vertex_input_attribute_descriptions();
        b
    }

    pub fn color_attachment_formats(self, formats: Vec<i32>) -> (r: Self)
        ensures
            r.desc@ == (PipelineDescView { color_attachment_formats: formats@, ..self.desc@ }),
    {
        let mut b = self;
        b.desc.color_attachment_formats = formats;
        b
    }

    pub fn depth_stencil_attachment_format(self, format: i32) -> (r: Self)
        ensures
            r.desc@ == (PipelineDescView { depth_stencil_attachment_format: format, ..self.desc@ }),
    {
        let mut b = self;
        b.desc.depth_stencil_attachment_format = format;
        b
    }

    pub fn build(self) -> (r: PipelineDesc)
        ensures
            r@ == self.desc@,
    {
        self.desc
    }
}

} // verus!
