use vstd::prelude::*;

verus! {

/// Every way in which a pass can use a resource, in the vocabulary of the
/// Vulkan synchronization helpers: a barrier goes from one of these to another.
#[derive(Clone, Copy, Debug, PartialEq, Eq, Structural)]
pub enum AccessType {
    Nothing,
    CommandBufferReadNVX,
    IndirectBuffer,
    IndexBuffer,
    VertexBuffer,
    VertexShaderReadUniformBuffer,
    VertexShaderReadSampledImageOrUniformTexelBuffer,
    VertexShaderReadOther,
    TessellationControlShaderReadUniformBuffer,
    TessellationControlShaderReadSampledImageOrUniformTexelBuffer,
    TessellationControlShaderReadOther,
    TessellationEvaluationShaderReadUniformBuffer,
    TessellationEvaluationShaderReadSampledImageOrUniformTexelBuffer,
    TessellationEvaluationShaderReadOther,
    GeometryShaderReadUniformBuffer,
    GeometryShaderReadSampledImageOrUniformTexelBuffer,
    GeometryShaderReadOther,
    FragmentShaderReadUniformBuffer,
    FragmentShaderReadSampledImageOrUniformTexelBuffer,
    FragmentShaderReadColorInputAttachment,
    FragmentShaderReadDepthStencilInputAttachment,
    FragmentShaderReadOther,
    ColorAttachmentRead,
    DepthStencilAttachmentRead,
    ComputeShaderReadUniformBuffer,
    ComputeShaderReadSampledImageOrUniformTexelBuffer,
    ComputeShaderReadOther,
    AnyShaderReadUniformBuffer,
    AnyShaderReadUniformBufferOrVertexBuffer,
    AnyShaderReadSampledImageOrUniformTexelBuffer,
    AnyShaderReadOther,
    TransferRead,
    HostRead,
    Present,
    CommandBufferWriteNVX,
    VertexShaderWrite,
    TessellationControlShaderWrite,
    TessellationEvaluationShaderWrite,
    GeometryShaderWrite,
    FragmentShaderWrite,
    ColorAttachmentWrite,
    DepthStencilAttachmentWrite,
    DepthAttachmentWriteStencilReadOnly,
    StencilAttachmentWriteDepthReadOnly,
    ComputeShaderWrite,
    AnyShaderWrite,
    TransferWrite,
    HostWrite,
    ColorAttachmentReadWrite,
    General,
    RayTracingShaderReadSampledImageOrUniformTexelBuffer,
    RayTracingShaderReadColorInputAttachment,
    RayTracingShaderReadDepthStencilInputAttachment,
    RayTracingShaderReadAccelerationStructure,
    RayTracingShaderReadOther,
    AccelerationStructureBuildWrite,
    AccelerationStructureBuildRead,
    AccelerationStructureBufferWrite,
}

/// What a barrier synchronizes: a graph texture (an image barrier), a graph
/// buffer or all memory (a global memory barrier), or the swapchain image
/// being presented.
#[derive(Clone, Copy, Debug, PartialEq, Eq, Structural)]
pub enum BarrierTarget {
    Texture(usize),
    Buffer(usize),
    Global,
    PresentImage,
}

/// One barrier: the resource, the access it was last used with, and the
/// access it is about to be used with.
#[derive(Clone, Copy, Debug, PartialEq, Eq, Structural)]
pub struct Barrier {
    pub target: BarrierTarget,
    pub prev_access: AccessType,
    pub next_access: AccessType,
}

} // verus!
