//! The command recorder: the fixed sequence of commands that draws into one
//! image of a generation.

use crate::generation::Generation;
use crate::surface::Extent;
use vstd::prelude::*;

verus! {

/// One recorded command.
#[derive(Clone, Copy, Debug, PartialEq, Eq, Structural)]
pub enum Command {
    /// Begin the command buffer.
    Begin,
    /// Begin the render pass of generation `generation` on the framebuffer
    /// of image `framebuffer`, over the whole `extent`, clearing the single
    /// colour attachment to opaque black.
    BeginRenderPass { generation: u64, framebuffer: usize, extent: Extent },
    /// Bind the graphics pipeline of generation `generation`.
    BindPipeline { generation: u64 },
    /// Bind descriptor set `set` of generation `generation` as set 0.
    BindDescriptorSet { generation: u64, set: usize },
    /// Bind the vertex buffer at binding 0, from its start.
    BindVertexBuffer,
    /// Draw without indices.
    Draw { vertex_count: u32, instance_count: u32, first_vertex: u32, first_instance: u32 },
    /// End the render pass.
    EndRenderPass,
    /// End the command buffer.
    End,
}

impl Command {
    /// The generation whose resources the command names, if it names any.
    pub open spec fn generation(self) -> Option<u64> {
        match self {
            Command::BeginRenderPass { generation, .. } => Some(generation),
            Command::BindPipeline { generation } => Some(generation),
            Command::BindDescriptorSet { generation, .. } => Some(generation),
            _ => None,
        }
    }
}

/// The commands of image `image` of `generation`, drawing `vertex_count`
/// vertices once.
pub open spec fn spec_commands(generation: Generation, image: usize, vertex_count: u32) -> Seq<
    Command,
> {
    seq![
        Command::Begin,
        Command::BeginRenderPass {
            generation: generation.serial,
            framebuffer: image,
            extent: generation.config.extent,
        },
        Command::BindPipeline { generation: generation.serial },
        Command::BindDescriptorSet { generation: generation.serial, set: image },
        Command::BindVertexBuffer,
        Command::Draw { vertex_count, instance_count: 1, first_vertex: 0, first_instance: 0 },
        Command::EndRenderPass,
        Command::End,
    ]
}

/// Records the commands of one image: begin, render pass, pipeline,
/// the image's descriptor set, vertex buffer, one draw of the whole vertex
/// list, end of pass, end.
pub fn record_commands(generation: &Generation, image: usize, vertex_count: u32) -> (r: Vec<
    Command,
>)
    ensures
        r@ == spec_commands(*generation, image, vertex_count),
{
    let mut r: Vec<Command> = Vec::new();
    r.push(Command::Begin);
    r.push(
        Command::BeginRenderPass {
            generation: generation.serial,
            framebuffer: image,
            extent: generation.config.extent,
        },
    );
    r.push(Command::BindPipeline { generation: generation.serial });
    r.push(Command::BindDescriptorSet { generation: generation.serial, set: image });
    r.push(Command::BindVertexBuffer);
    r.push(Command::Draw { vertex_count, instance_count: 1, first_vertex: 0, first_instance: 0 });
    r.push(Command::EndRenderPass);
    r.push(Command::End);
    assert(r@ =~= spec_commands(*generation, image, vertex_count));
    r
}

/// Records the command buffers of a generation, one for each image.
pub fn record_all(generation: &Generation, vertex_count: u32) -> (r: Vec<Vec<Command>>)
    ensures
        r@.len() == generation.image_count,
        forall|i: int|
            0 <= i < generation.image_count ==> (#[trigger] r@[i])@ == spec_commands(
                *generation,
                i as usize,
                vertex_count,
            ),
{
    let mut r: Vec<Vec<Command>> = Vec::new();
    let mut image: usize = 0;
    while image < generation.image_count
        invariant
            image <= generation.image_count,
            r@.len() == image,
            forall|i: int|
                0 <= i < image ==> (#[trigger] r@[i])@ == spec_commands(
                    *generation,
                    i as usize,
                    vertex_count,
                ),
        decreases generation.image_count - image,
    {
        r.push(record_commands(generation, image, vertex_count));
        image += 1;
    }
    r
}

/// A command buffer names no framebuffer, pipeline or descriptor set of
/// another generation than its own. Its one render pass is on the
/// framebuffer of its own image, its one descriptor set is that of its
/// image, and it draws once.
pub proof fn lemma_commands_own_generation(generation: Generation, image: usize, vertex_count: u32)
    ensures
        forall|k: int|
            0 <= k < spec_commands(generation, image, vertex_count).len() ==> (
            #[trigger] spec_commands(generation, image, vertex_count)[k].generation() matches Some(
                serial,
            ) ==> serial == generation.serial),
        forall|k: int|
            0 <= k < spec_commands(generation, image, vertex_count).len() ==> (
            #[trigger] spec_commands(
                generation,
                image,
                vertex_count,
            )[k] matches Command::BeginRenderPass { framebuffer, extent, .. } ==> k == 1
                && framebuffer == image && extent == generation.config.extent),
        forall|k: int|
            0 <= k < spec_commands(generation, image, vertex_count).len() ==> (
            #[trigger] spec_commands(
                generation,
                image,
                vertex_count,
            )[k] matches Command::BindDescriptorSet { set, .. } ==> k == 3 && set == image),
        forall|k: int|
            0 <= k < spec_commands(generation, image, vertex_count).len() ==> (
            #[trigger] spec_commands(generation, image, vertex_count)[k] is Draw <==> k == 5),
        spec_commands(generation, image, vertex_count).len() == 8,
{
}

/// The command buffers of a generation that has been replaced name another
/// generation than the live one: none of them can be taken for one of the
/// new generation.
pub proof fn lemma_replaced_commands_differ(
    old_generation: Generation,
    config: crate::surface::SwapchainConfig,
    image_count: usize,
    image: usize,
    vertex_count: u32,
)
    ensures
        spec_commands(old_generation, image, vertex_count) != spec_commands(
            old_generation.spec_replaced(config, image_count),
            image,
            vertex_count,
        ),
{
    let new_generation = old_generation.spec_replaced(config, image_count);
    assert(spec_commands(old_generation, image, vertex_count)[2] != spec_commands(
        new_generation,
        image,
        vertex_count,
    )[2]);
}

} // verus!
