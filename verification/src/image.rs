use vstd::prelude::*;

verus! {

/// Vulkan format codes (`VkFormat`) that the renderer names.
pub const FORMAT_UNDEFINED: i32 = 0;
pub const FORMAT_R8_UNORM: i32 = 9;
pub const FORMAT_R8G8B8A8_UNORM: i32 = 37;
pub const FORMAT_B8G8R8A8_UNORM: i32 = 44;
pub const FORMAT_R16_UNORM: i32 = 70;
pub const FORMAT_R16G16_SFLOAT: i32 = 83;
pub const FORMAT_R32G32_SFLOAT: i32 = 103;
pub const FORMAT_R32G32B32_SFLOAT: i32 = 106;
pub const FORMAT_R32G32B32A32_SFLOAT: i32 = 109;
pub const FORMAT_D16_UNORM: i32 = 124;
pub const FORMAT_D32_SFLOAT: i32 = 126;
pub const FORMAT_D16_UNORM_S8_UINT: i32 = 128;
pub const FORMAT_D24_UNORM_S8_UINT: i32 = 129;
pub const FORMAT_D32_SFLOAT_S8_UINT: i32 = 130;

/// Image aspect bits (`VkImageAspectFlags`).
pub const IMAGE_ASPECT_COLOR: u32 = 0x1;
pub const IMAGE_ASPECT_DEPTH: u32 = 0x2;

/// Image usage bits (`VkImageUsageFlags`).
pub const IMAGE_USAGE_TRANSFER_SRC: u32 = 0x1;
pub const IMAGE_USAGE_TRANSFER_DST: u32 = 0x2;
pub const IMAGE_USAGE_SAMPLED: u32 = 0x4;
pub const IMAGE_USAGE_STORAGE: u32 = 0x8;
pub const IMAGE_USAGE_COLOR_ATTACHMENT: u32 = 0x10;
pub const IMAGE_USAGE_DEPTH_STENCIL_ATTACHMENT: u32 = 0x20;

/// The usage every image description starts with: it can be copied into,
/// sampled and rendered to.
pub const DEFAULT_IMAGE_USAGE: u32 = 0x16;

#[derive(Clone, Copy, Debug, PartialEq, Eq, Structural)]
pub enum ImageType {
    Tex1d,
    Tex1dArray,
    Tex2d,
    Tex2dArray,
    Tex3d,
    Cube,
    CubeArray,
}

/// Everything the renderer needs to know to create an image.
#[derive(Clone, Copy, Debug, PartialEq, Eq, Structural)]
pub struct ImageDesc {
    pub width: u32,
    pub height: u32,
    pub depth: u32,
    pub array_layers: u32,
    pub mip_levels: u32,
    pub format: i32,
    pub image_type: ImageType,
    pub aspect_flags: u32,
    pub usage: u32,
}

/// The kinds of image view the renderer creates.
#[derive(Clone, Copy, Debug, PartialEq, Eq, Structural)]
pub enum ImageViewType {
    Type2d,
    Type2dArray,
    Cube,
}

/// How the channels of a view are mapped: the identity swizzle of a color
/// image, or the default mapping of a depth image.
#[derive(Clone, Copy, Debug, PartialEq, Eq, Structural)]
pub enum ComponentMapping {
    Rgba,
    Default,
}

/// Image layouts (`VkImageLayout`); `Other` carries any code not listed.
#[derive(Clone, Copy, Debug, PartialEq, Eq, Structural)]
pub enum ImageLayout {
    Undefined,
    General,
    ColorAttachmentOptimal,
    DepthStencilAttachmentOptimal,
    DepthStencilReadOnlyOptimal,
    ShaderReadOnlyOptimal,
    TransferSrcOptimal,
    TransferDstOptimal,
    Preinitialized,
    PresentSrcKhr,
    Other(i32),
}

/// The memory access bits used by explicit layout transitions.
#[derive(Clone, Copy, Debug, PartialEq, Eq, Structural)]
pub enum AccessMask {
    HostWrite,
    TransferRead,
    TransferWrite,
    ShaderRead,
    ColorAttachmentRead,
    ColorAttachmentWrite,
    DepthStencilAttachmentRead,
}

/// The pipeline stages used by explicit layout transitions.
#[derive(Clone, Copy, Debug, PartialEq, Eq, Structural)]
pub enum PipelineStage {
    Host,
    Transfer,
    FragmentShader,
    EarlyFragmentTests,
    ColorAttachmentOutput,
}

/// The barrier that moves a whole image from one layout to another.
#[derive(Clone, Copy, Debug, PartialEq, Eq, Structural)]
pub struct LayoutTransition {
    pub src_access: AccessMask,
    pub src_stage: PipelineStage,
    pub dst_access: AccessMask,
    pub dst_stage: PipelineStage,
    pub new_layout: ImageLayout,
    pub aspect_mask: u32,
    pub layer_count: u32,
}

impl ImageDesc {
    /// A single-layer 2D color image.
    pub fn new_2d(width: u32, height: u32, format: i32) -> (r: Self)
        ensures
            r == (ImageDesc {
                width,
                height,
                depth: 1,
                array_layers: 1,
                mip_levels: 1,
                format,
                image_type: ImageType::Tex2d,
                aspect_flags: IMAGE_ASPECT_COLOR,
                usage: DEFAULT_IMAGE_USAGE,
            }),
    {
        ImageDesc {
            width,
            height,
            depth: 1,
            array_layers: 1,
            mip_levels: 1,
            format,
            image_type: ImageType::Tex2d,
            aspect_flags: IMAGE_ASPECT_COLOR,
            usage: DEFAULT_IMAGE_USAGE,
        }
    }

    /// A 2D color image with `array_layers` layers.
    pub fn new_2d_array(width: u32, height: u32, array_layers: u32, format: i32) -> (r: Self)
        ensures
            r == (ImageDesc {
                width,
                height,
                depth: 1,
                array_layers,
                mip_levels: 1,
                format,
                image_type: ImageType::Tex2dArray,
                aspect_flags: IMAGE_ASPECT_COLOR,
                usage: DEFAULT_IMAGE_USAGE,
            }),
    {
        ImageDesc {
            width,
            height,
            depth: 1,
            array_layers,
            mip_levels: 1,
            format,
            image_type: ImageType::Tex2dArray,
            aspect_flags: IMAGE_ASPECT_COLOR,
            usage: DEFAULT_IMAGE_USAGE,
        }
    }

    /// A cube map: a color image of six layers.
    pub fn new_cubemap(width: u32, height: u32, format: i32) -> (r: Self)
        ensures
            r == (ImageDesc {
                width,
                height,
                depth: 1,
                array_layers: 6,
                mip_levels: 1,
                format,
                image_type: ImageType::Cube,
                aspect_flags: IMAGE_ASPECT_COLOR,
                usage: DEFAULT_IMAGE_USAGE,
            }),
    {
        ImageDesc {
            width,
            height,
            depth: 1,
            array_layers: 6,
            mip_levels: 1,
            format,
            image_type: ImageType::Cube,
            aspect_flags: IMAGE_ASPECT_COLOR,
            usage: DEFAULT_IMAGE_USAGE,
        }
    }

    /// The same description with other aspect flags.
    pub fn aspect(self, aspect_flags: u32) -> (r: Self)
        ensures
            r == (ImageDesc { aspect_flags, ..self }),
    {
        let mut desc = self;
        desc.aspect_flags = aspect_flags;
        desc
    }

    /// The same description with `mip_levels` mip levels.
    pub fn mip_levels(self, mip_levels: u32) -> (r: Self)
        ensures
            r == (ImageDesc { mip_levels, ..self }),
    {
        let mut desc = self;
        desc.mip_levels = mip_levels;
        desc
    }

    /// The same description with other usage flags.
    pub fn usage(self, usage_flags: u32) -> (r: Self)
        ensures
            r == (ImageDesc { usage: usage_flags, ..self }),
    {
        let mut desc = self;
        desc.usage = usage_flags;
        desc
    }

    pub fn width(&self) -> (r: u32)
        ensures
            r == self.width,
    {
        self.width
    }

    pub fn height(&self) -> (r: u32)
        ensures
            r == self.height,
    {
        self.height
    }

    pub fn format(&self) -> (r: i32)
        ensures
            r == self.format,
    {
        self.format
    }

    /// Cube and cube-array images are created cube compatible.
    pub fn is_cube_compatible(&self) -> (r: bool)
        ensures
            r == (self.image_type == ImageType::Cube || self.image_type == ImageType::CubeArray),
    {
        match self.image_type {
            ImageType::Cube | ImageType::CubeArray => true,
            _ => false,
        }
    }

    /// The view over the whole image: a 2D view of a single-layer 2D image, an
    /// array view of a layered 2D array, a cube view of a cube map. Other
    /// descriptions have no view (`None`).
    pub fn view_type(&self) -> (r: Option<ImageViewType>)
        ensures
            r == spec_view_type(*self),
    {
        if self.image_type == ImageType::Tex2d && self.array_layers == 1 {
            Some(ImageViewType::Type2d)
        } else if self.image_type == ImageType::Tex2dArray && self.array_layers > 1 {
            Some(ImageViewType::Type2dArray)
        } else if self.image_type == ImageType::Cube {
            Some(ImageViewType::Cube)
        } else {
            None
        }
    }

    /// The views created for the single layers of a layered image, one per
    /// layer, in layer order: a 2D view for each face of a cube map, a view of
    /// the image's own view type otherwise. A single-layer image gets none.
    pub fn layer_view_types(&self) -> (r: Vec<ImageViewType>)
        requires
            spec_view_type(*self) is Some,
        ensures
            self.array_layers > 1 ==> r@ == Seq::new(
                self.array_layers as nat,
                |i: int| spec_layer_view_type(*self),
            ),
            self.array_layers <= 1 ==> r@.len() == 0,
    {
        let mut views: Vec<ImageViewType> = Vec::new();
        if self.array_layers > 1 {
            let view = if self.image_type == ImageType::Cube {
                ImageViewType::Type2d
            } else {
                match self.view_type() {
                    Some(v) => v,
                    None => ImageViewType::Type2d,
                }
            };
            let mut layer: u32 = 0;
            while layer < self.array_layers
                invariant
                    layer <= self.array_layers,
                    views@.len() == layer,
                    view == spec_layer_view_type(*self),
                    forall|i: int| 0 <= i < layer ==> views@[i] == view,
                decreases self.array_layers - layer,
            {
                views.push(view);
                layer = layer + 1;
            }
            assert(views@ =~= Seq::new(self.array_layers as nat, |i: int| spec_layer_view_type(*self)));
        }
        views
    }
}

pub open spec fn spec_view_type(desc: ImageDesc) -> Option<ImageViewType> {
    if desc.image_type == ImageType::Tex2d && desc.array_layers == 1 {
        Some(ImageViewType::Type2d)
    } else if desc.image_type == ImageType::Tex2dArray && desc.array_layers > 1 {
        Some(ImageViewType::Type2dArray)
    } else if desc.image_type == ImageType::Cube {
        Some(ImageViewType::Cube)
    } else {
        None
    }
}

pub open spec fn spec_layer_view_type(desc: ImageDesc) -> ImageViewType {
    if desc.image_type == ImageType::Cube {
        ImageViewType::Type2d
    } else {
        spec_view_type(desc).unwrap()
    }
}

pub open spec fn spec_is_depth_format(format: i32) -> bool {
    ||| format == FORMAT_D32_SFLOAT
    ||| format == FORMAT_D32_SFLOAT_S8_UINT
    ||| format == FORMAT_D16_UNORM_S8_UINT
    ||| format == FORMAT_D16_UNORM
    ||| format == FORMAT_D24_UNORM_S8_UINT
}

/// Whether a format holds depth: the depth formats the renderer uses.
pub fn is_depth_image_fmt(format: i32) -> (r: bool)
    ensures
        r == spec_is_depth_format(format),
{
    format == FORMAT_D32_SFLOAT || format == FORMAT_D32_SFLOAT_S8_UINT || format
        == FORMAT_D16_UNORM_S8_UINT || format == FORMAT_D16_UNORM || format
        == FORMAT_D24_UNORM_S8_UINT
}

/// The channel mapping of a view with the given aspect: the identity swizzle
/// for color, the default mapping for depth, none for any other aspect.
pub fn component_mapping(aspect_flags: u32) -> (r: Option<ComponentMapping>)
    ensures
        aspect_flags == IMAGE_ASPECT_COLOR ==> r == Some(ComponentMapping::Rgba),
        aspect_flags == IMAGE_ASPECT_DEPTH ==> r == Some(ComponentMapping::Default),
        aspect_flags != IMAGE_ASPECT_COLOR && aspect_flags != IMAGE_ASPECT_DEPTH ==> r is None,
{
    if aspect_flags == IMAGE_ASPECT_COLOR {
        Some(ComponentMapping::Rgba)
    } else if aspect_flags == IMAGE_ASPECT_DEPTH {
        Some(ComponentMapping::Default)
    } else {
        None
    }
}

pub open spec fn spec_source_masks(layout: ImageLayout) -> Option<(AccessMask, PipelineStage)> {
    match layout {
        ImageLayout::Undefined => Some((AccessMask::HostWrite, PipelineStage::Host)),
        ImageLayout::Preinitialized => Some((AccessMask::HostWrite, PipelineStage::Host)),
        ImageLayout::TransferDstOptimal => Some((AccessMask::TransferWrite, PipelineStage::Transfer)),
        ImageLayout::TransferSrcOptimal => Some((AccessMask::TransferRead, PipelineStage::Transfer)),
        ImageLayout::General => Some((AccessMask::HostWrite, PipelineStage::Host)),
        ImageLayout::ShaderReadOnlyOptimal => Some((AccessMask::HostWrite, PipelineStage::Host)),
        ImageLayout::ColorAttachmentOptimal => Some(
            (AccessMask::ColorAttachmentWrite, PipelineStage::ColorAttachmentOutput),
        ),
        _ => None,
    }
}

pub open spec fn spec_destination_masks(layout: ImageLayout) -> Option<(AccessMask, PipelineStage)> {
    match layout {
        ImageLayout::TransferSrcOptimal => Some((AccessMask::TransferRead, PipelineStage::Transfer)),
        ImageLayout::TransferDstOptimal => Some((AccessMask::TransferWrite, PipelineStage::Transfer)),
        ImageLayout::ShaderReadOnlyOptimal => Some(
            (AccessMask::ShaderRead, PipelineStage::FragmentShader),
        ),
        ImageLayout::ColorAttachmentOptimal => Some(
            (AccessMask::ColorAttachmentWrite, PipelineStage::ColorAttachmentOutput),
        ),
        ImageLayout::General => Some((AccessMask::ShaderRead, PipelineStage::FragmentShader)),
        ImageLayout::PresentSrcKhr => Some(
            (AccessMask::ColorAttachmentRead, PipelineStage::ColorAttachmentOutput),
        ),
        ImageLayout::DepthStencilReadOnlyOptimal => Some(
            (AccessMask::DepthStencilAttachmentRead, PipelineStage::EarlyFragmentTests),
        ),
        _ => None,
    }
}

/// The access and stage that an image in `layout` is waited on with.
pub fn source_masks(layout: ImageLayout) -> (r: Option<(AccessMask, PipelineStage)>)
    ensures
        r == spec_source_masks(layout),
{
    match layout {
        ImageLayout::Undefined => Some((AccessMask::HostWrite, PipelineStage::Host)),
        ImageLayout::Preinitialized => Some((AccessMask::HostWrite, PipelineStage::Host)),
        ImageLayout::TransferDstOptimal => Some((AccessMask::TransferWrite, PipelineStage::Transfer)),
        ImageLayout::TransferSrcOptimal => Some((AccessMask::TransferRead, PipelineStage::Transfer)),
        ImageLayout::General => Some((AccessMask::HostWrite, PipelineStage::Host)),
        ImageLayout::ShaderReadOnlyOptimal => Some((AccessMask::HostWrite, PipelineStage::Host)),
        ImageLayout::ColorAttachmentOptimal => Some(
            (AccessMask::ColorAttachmentWrite, PipelineStage::ColorAttachmentOutput),
        ),
        _ => None,
    }
}

/// The access and stage that an image moving to `layout` is made visible to.
pub fn destination_masks(layout: ImageLayout) -> (r: Option<(AccessMask, PipelineStage)>)
    ensures
        r == spec_destination_masks(layout),
{
    match layout {
        ImageLayout::TransferSrcOptimal => Some((AccessMask::TransferRead, PipelineStage::Transfer)),
        ImageLayout::TransferDstOptimal => Some((AccessMask::TransferWrite, PipelineStage::Transfer)),
        ImageLayout::ShaderReadOnlyOptimal => Some(
            (AccessMask::ShaderRead, PipelineStage::FragmentShader),
        ),
        ImageLayout::ColorAttachmentOptimal => Some(
            (AccessMask::ColorAttachmentWrite, PipelineStage::ColorAttachmentOutput),
        ),
        ImageLayout::General => Some((AccessMask::ShaderRead, PipelineStage::FragmentShader)),
        ImageLayout::PresentSrcKhr => Some(
            (AccessMask::ColorAttachmentRead, PipelineStage::ColorAttachmentOutput),
        ),
        ImageLayout::DepthStencilReadOnlyOptimal => Some(
            (AccessMask::DepthStencilAttachmentRead, PipelineStage::EarlyFragmentTests),
        ),
        _ => None,
    }
}

/// The barrier that moves an image described by `desc` from `current` to
/// `new_layout`, covering all its layers and its aspect. `None` where either
/// layout has no masks in the tables above.
pub fn layout_transition(desc: &ImageDesc, current: ImageLayout, new_layout: ImageLayout) -> (r:
    Option<LayoutTransition>)
    ensures
        r is Some <==> (spec_source_masks(current) is Some && spec_destination_masks(
            new_layout,
        ) is Some),
        r matches Some(t) ==> {
            &&& (t.src_access, t.src_stage) == spec_source_masks(current).unwrap()
            &&& (t.dst_access, t.dst_stage) == spec_destination_masks(new_layout).unwrap()
            &&& t.new_layout == new_layout
            &&& t.aspect_mask == desc.aspect_flags
            &&& t.layer_count == desc.array_layers
        },
{
    match (source_masks(current), destination_masks(new_layout)) {
        (Some((src_access, src_stage)), Some((dst_access, dst_stage))) => Some(
            LayoutTransition {
                src_access,
                src_stage,
                dst_access,
                dst_stage,
                new_layout,
                aspect_mask: desc.aspect_flags,
                layer_count: desc.array_layers,
            },
        ),
        _ => None,
    }
}


/// The barriers of layout transitions, layout by layout. An image moved to
/// a layout for shader reading (shader-read-only or general) is waited for
/// by fragment shader reads; to a transfer source or destination, by
/// transfer reads or writes; to color attachment use, by color attachment
/// writes at the color output stage; to presentation, by color attachment
/// reads there; to read-only depth, by depth reads at the early fragment
/// tests. Moving out of a transfer or color attachment layout waits on the
/// same access and stage that moving into it makes visible; moving out of
/// an undefined, preinitialized, general or shader-read-only layout waits
/// on host writes. Every other pair of layouts has no transition.
pub proof fn lemma_layout_transition_masks(current: ImageLayout, new_layout: ImageLayout)
    ensures
        spec_destination_masks(new_layout) == match new_layout {
            ImageLayout::ShaderReadOnlyOptimal | ImageLayout::General => Some(
                (AccessMask::ShaderRead, PipelineStage::FragmentShader),
            ),
            ImageLayout::TransferSrcOptimal => Some((AccessMask::TransferRead, PipelineStage::Transfer)),
            ImageLayout::TransferDstOptimal => Some((AccessMask::TransferWrite, PipelineStage::Transfer)),
            ImageLayout::ColorAttachmentOptimal => Some(
                (AccessMask::ColorAttachmentWrite, PipelineStage::ColorAttachmentOutput),
            ),
            ImageLayout::PresentSrcKhr => Some(
                (AccessMask::ColorAttachmentRead, PipelineStage::ColorAttachmentOutput),
            ),
            ImageLayout::DepthStencilReadOnlyOptimal => Some(
                (AccessMask::DepthStencilAttachmentRead, PipelineStage::EarlyFragmentTests),
            ),
            _ => None,
        },
        (current == ImageLayout::TransferSrcOptimal || current == ImageLayout::TransferDstOptimal || current
            == ImageLayout::ColorAttachmentOptimal) ==> spec_source_masks(current) == spec_destination_masks(
            current,
        ),
        (current == ImageLayout::Undefined || current == ImageLayout::Preinitialized || current
            == ImageLayout::General || current == ImageLayout::ShaderReadOnlyOptimal) ==> spec_source_masks(
            current,
        ) == Some((AccessMask::HostWrite, PipelineStage::Host)),
        !(current == ImageLayout::TransferSrcOptimal || current == ImageLayout::TransferDstOptimal || current
            == ImageLayout::ColorAttachmentOptimal || current == ImageLayout::Undefined || current
            == ImageLayout::Preinitialized || current == ImageLayout::General || current
            == ImageLayout::ShaderReadOnlyOptimal) ==> spec_source_masks(current) is None,
{
}

} // verus!
