//! What the resource factory derives from a generation's format, extent
//! and image count when it builds the resources: the description of the
//! render pass, viewport and scissor of the pipeline, one framebuffer for
//! each image view, and one descriptor write for each uniform buffer.

use crate::generation::Generation;
use crate::surface::Extent;
use vstd::prelude::*;

verus! {

/// Size in bytes of the shader parameters of one frame: elapsed time and
/// the width and height of the target, each a 32-bit number.
pub const UNIFORM_BUFFER_SIZE: u64 = 12;

/// The viewport of the pipeline, in pixels. The depth range is the whole
/// range from 0 to 1.
#[derive(Clone, Copy, Debug, PartialEq, Eq, Structural)]
pub struct Viewport {
    pub x: i64,
    pub y: i64,
    pub width: i64,
    pub height: i64,
}

/// The scissor rectangle of the pipeline.
#[derive(Clone, Copy, Debug, PartialEq, Eq, Structural)]
pub struct Scissor {
    pub x: i32,
    pub y: i32,
    pub extent: Extent,
}

/// What a framebuffer is made from: one image view as its only attachment.
#[derive(Clone, Copy, Debug, PartialEq, Eq, Structural)]
pub struct FramebufferInfo {
    /// Index of the image view.
    pub view: usize,
    pub width: u32,
    pub height: u32,
    pub layers: u32,
}

/// One update of a descriptor set: the whole uniform buffer of an image at
/// binding 0 of the image's set.
#[derive(Clone, Copy, Debug, PartialEq, Eq, Structural)]
pub struct DescriptorWrite {
    /// Index of the descriptor set.
    pub set: usize,
    pub binding: u32,
    pub array_element: u32,
    /// Index of the uniform buffer.
    pub buffer: usize,
    pub offset: u64,
    pub range: u64,
}

/// The viewport over `extent`, turned upside down: it starts at the bottom
/// edge and has a negative height, so that the y axis points up.
pub open spec fn spec_viewport(extent: Extent) -> Viewport {
    Viewport {
        x: 0,
        y: extent.height as i64,
        width: extent.width as i64,
        height: (-(extent.height as int)) as i64,
    }
}

/// The framebuffer of image `image` of a generation of size `extent`.
pub open spec fn spec_framebuffer(extent: Extent, image: usize) -> FramebufferInfo {
    FramebufferInfo { view: image, width: extent.width, height: extent.height, layers: 1 }
}

/// The descriptor write of image `image`.
pub open spec fn spec_descriptor_write(image: usize) -> DescriptorWrite {
    DescriptorWrite {
        set: image,
        binding: 0,
        array_element: 0,
        buffer: image,
        offset: 0,
        range: UNIFORM_BUFFER_SIZE,
    }
}

/// The viewport of the pipeline of a generation of size `extent`.
pub fn viewport(extent: Extent) -> (r: Viewport)
    ensures
        r == spec_viewport(extent),
        r.y + r.height == 0,
        r.width == extent.width,
{
    let height: i64 = extent.height as i64;
    let width: i64 = extent.width as i64;
    Viewport { x: 0, y: height, width, height: -height }
}

/// The scissor rectangle of the pipeline: the whole extent.
pub fn scissor(extent: Extent) -> (r: Scissor)
    ensures
        r == (Scissor { x: 0, y: 0, extent }),
{
    Scissor { x: 0, y: 0, extent }
}

/// The framebuffers of a generation: one for each image view, of the
/// generation's extent.
pub fn framebuffers(generation: &Generation) -> (r: Vec<FramebufferInfo>)
    ensures
        r@.len() == generation.image_count,
        forall|i: int|
            0 <= i < generation.image_count ==> #[trigger] r@[i] == spec_framebuffer(
                generation.config.extent,
                i as usize,
            ),
{
    let mut r: Vec<FramebufferInfo> = Vec::new();
    let mut image: usize = 0;
    while image < generation.image_count
        invariant
            image <= generation.image_count,
            r@.len() == image,
            forall|i: int|
                0 <= i < image ==> #[trigger] r@[i] == spec_framebuffer(
                    generation.config.extent,
                    i as usize,
                ),
        decreases generation.image_count - image,
    {
        r.push(
            FramebufferInfo {
                view: image,
                width: generation.config.extent.width,
                height: generation.config.extent.height,
                layers: 1,
            },
        );
        image += 1;
    }
    r
}

/// The descriptor writes for `pool_size` images: one for each image, in one
/// pass, each pointing the image's set at the image's uniform buffer.
pub fn descriptor_writes(pool_size: usize) -> (r: Vec<DescriptorWrite>)
    ensures
        r@.len() == pool_size,
        forall|i: int| 0 <= i < pool_size ==> #[trigger] r@[i] == spec_descriptor_write(i as usize),
{
    let mut r: Vec<DescriptorWrite> = Vec::new();
    let mut image: usize = 0;
    while image < pool_size
        invariant
            image <= pool_size,
            r@.len() == image,
            forall|i: int| 0 <= i < image ==> #[trigger] r@[i] == spec_descriptor_write(i as usize),
        decreases pool_size - image,
    {
        r.push(
            DescriptorWrite {
                set: image,
                binding: 0,
                array_element: 0,
                buffer: image,
                offset: 0,
                range: UNIFORM_BUFFER_SIZE,
            },
        );
        image += 1;
    }
    r
}

/// Raw value of the format of two 32-bit floating-point components.
pub const FORMAT_R32G32_SFLOAT: i32 = 103;

/// Raw value of the format of three 32-bit floating-point components.
pub const FORMAT_R32G32B32_SFLOAT: i32 = 106;

/// Size in bytes of one vertex: a position of two components and a colour
/// of three, each a 32-bit number.
pub const VERTEX_STRIDE: u32 = 20;

/// How the vertex buffer is read: one binding, advanced for each vertex.
#[derive(Clone, Copy, Debug, PartialEq, Eq, Structural)]
pub struct VertexBinding {
    pub binding: u32,
    pub stride: u32,
    /// True when the binding advances for each instance, not each vertex.
    pub per_instance: bool,
}

/// Where one attribute of a vertex lies.
#[derive(Clone, Copy, Debug, PartialEq, Eq, Structural)]
pub struct VertexAttribute {
    pub binding: u32,
    pub location: u32,
    pub format: i32,
    pub offset: u32,
}

/// The layout of the vertex buffer.
pub struct VertexLayout {}

/// Size in bytes of an attribute of the given format.
pub open spec fn format_size(format: i32) -> int {
    if format == FORMAT_R32G32_SFLOAT {
        8
    } else if format == FORMAT_R32G32B32_SFLOAT {
        12
    } else {
        0
    }
}

impl VertexLayout {
    /// The one binding of the vertex buffer.
    pub fn binding_description() -> (r: VertexBinding)
        ensures
            r == (VertexBinding { binding: 0, stride: VERTEX_STRIDE, per_instance: false }),
    {
        VertexBinding { binding: 0, stride: VERTEX_STRIDE, per_instance: false }
    }

    /// The two attributes of a vertex: the position at location 0, and
    /// behind it the colour at location 1. They do not overlap, and
    /// together they fill the vertex.
    pub fn attribute_descriptions() -> (r: [VertexAttribute; 2])
        ensures
            r@[0] == (VertexAttribute {
                binding: 0,
                location: 0,
                format: FORMAT_R32G32_SFLOAT,
                offset: 0,
            }),
            r@[1] == (VertexAttribute {
                binding: 0,
                location: 1,
                format: FORMAT_R32G32B32_SFLOAT,
                offset: 8,
            }),
            r@[0].offset + format_size(r@[0].format) == r@[1].offset,
            r@[1].offset + format_size(r@[1].format) == VERTEX_STRIDE,
    {
        let position = VertexAttribute {
            binding: 0,
            location: 0,
            format: FORMAT_R32G32_SFLOAT,
            offset: 0,
        };
        let color = VertexAttribute {
            binding: 0,
            location: 1,
            format: FORMAT_R32G32B32_SFLOAT,
            offset: 8,
        };
        [position, color]
    }

    /// Size in bytes of a vertex buffer of `vertex_count` vertices, or
    /// `None` where it exceeds the range of sizes.
    pub fn buffer_size(vertex_count: usize) -> (r: Option<u64>)
        ensures
            match r {
                Some(size) => size == vertex_count * VERTEX_STRIDE,
                None => vertex_count * VERTEX_STRIDE > u64::MAX,
            },
    {
        let count: u64 = vertex_count as u64;
        let stride: u64 = VERTEX_STRIDE as u64;
        count.checked_mul(stride)
    }
}

/// Pipeline stage in which colour is written to the attachment. Every
/// submission waits for its image at this stage.
pub const STAGE_COLOR_ATTACHMENT_OUTPUT: u32 = 0x400;

/// Access that writes to a colour attachment.
pub const ACCESS_COLOR_ATTACHMENT_WRITE: u32 = 0x100;

/// Stands for whatever was submitted before the render pass.
pub const SUBPASS_EXTERNAL: u32 = 0xFFFF_FFFF;

/// Raw value of the load operation that clears the attachment.
pub const LOAD_OP_CLEAR: i32 = 1;

/// Raw value of the load operation that leaves the contents undefined.
pub const LOAD_OP_DONT_CARE: i32 = 2;

/// Raw value of the store operation that keeps what was rendered.
pub const STORE_OP_STORE: i32 = 0;

/// Raw value of the store operation that may discard what was rendered.
pub const STORE_OP_DONT_CARE: i32 = 1;

/// Raw value of the layout of an image whose contents do not matter.
pub const LAYOUT_UNDEFINED: i32 = 0;

/// Raw value of the layout of an image used as colour attachment.
pub const LAYOUT_COLOR_ATTACHMENT_OPTIMAL: i32 = 2;

/// Raw value of the layout of an image that is handed to presentation.
pub const LAYOUT_PRESENT_SRC: i32 = 1000001002;

/// The one colour attachment of the render pass.
#[derive(Clone, Copy, Debug, PartialEq, Eq, Structural)]
pub struct AttachmentDescription {
    pub format: i32,
    pub samples: u32,
    pub load_op: i32,
    pub store_op: i32,
    pub stencil_load_op: i32,
    pub stencil_store_op: i32,
    pub initial_layout: i32,
    pub final_layout: i32,
}

/// What a subpass waits for before it starts.
#[derive(Clone, Copy, Debug, PartialEq, Eq, Structural)]
pub struct SubpassDependency {
    pub src_subpass: u32,
    pub dst_subpass: u32,
    pub src_stage_mask: u32,
    pub src_access_mask: u32,
    pub dst_stage_mask: u32,
    pub dst_access_mask: u32,
}

/// The render pass of a generation: one subpass that draws into one colour
/// attachment.
#[derive(Clone, Copy, Debug, PartialEq, Eq, Structural)]
pub struct RenderPassDescription {
    pub color_attachment: AttachmentDescription,
    /// Layout of the attachment during the subpass.
    pub color_layout: i32,
    pub dependency: SubpassDependency,
}

/// The render pass for images of format `format`. The attachment is
/// cleared, kept, and left ready for presentation. Colour output of the
/// subpass waits for colour output of whatever came before the pass, which
/// is the stage at which a submission waits for its image.
pub open spec fn spec_render_pass(format: i32) -> RenderPassDescription {
    RenderPassDescription {
        color_attachment: AttachmentDescription {
            format,
            samples: 1,
            load_op: LOAD_OP_CLEAR,
            store_op: STORE_OP_STORE,
            stencil_load_op: LOAD_OP_DONT_CARE,
            stencil_store_op: STORE_OP_DONT_CARE,
            initial_layout: LAYOUT_UNDEFINED,
            final_layout: LAYOUT_PRESENT_SRC,
        },
        color_layout: LAYOUT_COLOR_ATTACHMENT_OPTIMAL,
        dependency: SubpassDependency {
            src_subpass: SUBPASS_EXTERNAL,
            dst_subpass: 0,
            src_stage_mask: STAGE_COLOR_ATTACHMENT_OUTPUT,
            src_access_mask: 0,
            dst_stage_mask: STAGE_COLOR_ATTACHMENT_OUTPUT,
            dst_access_mask: ACCESS_COLOR_ATTACHMENT_WRITE,
        },
    }
}

/// Describes the render pass of a generation whose images have the format
/// `format`.
pub fn render_pass_description(format: i32) -> (r: RenderPassDescription)
    ensures
        r == spec_render_pass(format),
        r.color_attachment.format == format,
        r.dependency.src_stage_mask == STAGE_COLOR_ATTACHMENT_OUTPUT,
        r.dependency.dst_stage_mask == STAGE_COLOR_ATTACHMENT_OUTPUT,
{
    RenderPassDescription {
        color_attachment: AttachmentDescription {
            format,
            samples: 1,
            load_op: LOAD_OP_CLEAR,
            store_op: STORE_OP_STORE,
            stencil_load_op: LOAD_OP_DONT_CARE,
            stencil_store_op: STORE_OP_DONT_CARE,
            initial_layout: LAYOUT_UNDEFINED,
            final_layout: LAYOUT_PRESENT_SRC,
        },
        color_layout: LAYOUT_COLOR_ATTACHMENT_OPTIMAL,
        dependency: SubpassDependency {
            src_subpass: SUBPASS_EXTERNAL,
            dst_subpass: 0,
            src_stage_mask: STAGE_COLOR_ATTACHMENT_OUTPUT,
            src_access_mask: 0,
            dst_stage_mask: STAGE_COLOR_ATTACHMENT_OUTPUT,
            dst_access_mask: ACCESS_COLOR_ATTACHMENT_WRITE,
        },
    }
}

} // verus!
