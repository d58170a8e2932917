//! The order in which the resource factory builds the resources of a
//! generation, and in which they are destroyed again: nothing is built
//! before what it is made from, and nothing is destroyed while something
//! made from it is left.

use vstd::prelude::*;

verus! {

/// A device resource of the renderer. The ones of a generation come first;
/// the others outlive every generation.
#[derive(Clone, Copy, Debug, PartialEq, Eq, Structural)]
pub enum Resource {
    /// The swapchain with its images.
    Swapchain,
    /// The view of one swapchain image.
    ImageView { image: usize },
    /// The description of the render target.
    RenderPass,
    PipelineLayout,
    /// The pipeline, one for all images.
    Pipeline,
    /// The framebuffer over one image view.
    Framebuffer { image: usize },
    /// The buffer of per-frame shader parameters of one image, with its
    /// memory.
    UniformBuffer { image: usize },
    /// The descriptor pool with the descriptor set of each image.
    Descriptors,
    /// The command buffers, one for each image.
    CommandBuffers,
    /// The vertex buffer with its memory.
    VertexBuffer,
    /// The fence and the two semaphores of one frame slot.
    SyncObjects { slot: usize },
    CommandPool,
    DescriptorSetLayout,
    Device,
    /// The messenger of the validation layer.
    DebugMessenger,
    Surface,
    Instance,
}

/// Which kind of per-image resource.
#[derive(Clone, Copy, Debug, PartialEq, Eq, Structural)]
pub enum PerImage {
    ImageView,
    Framebuffer,
    UniformBuffer,
}

impl PerImage {
    /// The resource of this kind that belongs to `image`.
    pub open spec fn spec_of(self, image: usize) -> Resource {
        match self {
            PerImage::ImageView => Resource::ImageView { image },
            PerImage::Framebuffer => Resource::Framebuffer { image },
            PerImage::UniformBuffer => Resource::UniformBuffer { image },
        }
    }

    /// The resources of this kind of `count` images, in the order of the
    /// images.
    pub open spec fn spec_all(self, count: nat) -> Seq<Resource> {
        Seq::new(count, |i: int| self.spec_of(i as usize))
    }

    /// The resource of this kind that belongs to `image`.
    pub fn of(self, image: usize) -> (r: Resource)
        ensures
            r == self.spec_of(image),
    {
        match self {
            PerImage::ImageView => Resource::ImageView { image },
            PerImage::Framebuffer => Resource::Framebuffer { image },
            PerImage::UniformBuffer => Resource::UniformBuffer { image },
        }
    }
}

impl Resource {
    /// True for a resource of a generation with `image_count` images.
    pub open spec fn in_generation(self, image_count: nat) -> bool {
        match self {
            Resource::Swapchain
            | Resource::RenderPass
            | Resource::PipelineLayout
            | Resource::Pipeline
            | Resource::Descriptors
            | Resource::CommandBuffers => true,
            Resource::ImageView { image }
            | Resource::Framebuffer { image }
            | Resource::UniformBuffer { image } => image < image_count,
            _ => false,
        }
    }

    /// True where `self` is made from `other`, so that `other` has to be
    /// there first and has to outlast it.
    pub open spec fn uses(self, other: Resource) -> bool {
        match self {
            Resource::Instance => false,
            Resource::Surface | Resource::DebugMessenger | Resource::Device => other
                == Resource::Instance,
            Resource::Swapchain => other == Resource::Surface || other == Resource::Device,
            Resource::ImageView { .. } => other == Resource::Swapchain || other == Resource::Device,
            Resource::Framebuffer { image } => other == (Resource::ImageView { image }) || other
                == Resource::RenderPass || other == Resource::Device,
            Resource::PipelineLayout => other == Resource::DescriptorSetLayout || other
                == Resource::Device,
            Resource::Pipeline => other == Resource::PipelineLayout || other == Resource::RenderPass
                || other == Resource::Device,
            Resource::Descriptors => other is UniformBuffer || other
                == Resource::DescriptorSetLayout || other == Resource::Device,
            Resource::CommandBuffers => other is Framebuffer || other == Resource::Pipeline || other
                == Resource::PipelineLayout || other == Resource::RenderPass || other
                == Resource::Descriptors || other == Resource::VertexBuffer || other
                == Resource::CommandPool || other == Resource::Device,
            _ => other == Resource::Device,
        }
    }

    /// Place of the resource's kind in the order of destruction.
    pub open spec fn teardown_rank(self) -> int {
        match self {
            Resource::CommandBuffers => 0,
            Resource::Descriptors => 1,
            Resource::UniformBuffer { .. } => 2,
            Resource::Framebuffer { .. } => 3,
            Resource::Pipeline => 4,
            Resource::PipelineLayout => 5,
            Resource::RenderPass => 6,
            Resource::ImageView { .. } => 7,
            Resource::Swapchain => 8,
            Resource::VertexBuffer => 9,
            Resource::SyncObjects { .. } => 10,
            Resource::CommandPool => 11,
            Resource::DescriptorSetLayout => 12,
            Resource::Device => 13,
            Resource::DebugMessenger => 14,
            Resource::Surface => 15,
            Resource::Instance => 16,
        }
    }

    /// Place of the resource's kind in the order in which a generation is
    /// built.
    pub open spec fn build_rank(self) -> int {
        match self {
            Resource::Swapchain => 0,
            Resource::RenderPass => 1,
            Resource::PipelineLayout => 2,
            Resource::Pipeline => 3,
            Resource::ImageView { .. } => 4,
            Resource::Framebuffer { .. } => 5,
            Resource::UniformBuffer { .. } => 6,
            Resource::Descriptors => 7,
            Resource::CommandBuffers => 8,
            _ => -1,
        }
    }

    /// A resource is destroyed before everything that it is made from.
    pub proof fn lemma_teardown_rank(self, other: Resource)
        requires
            self.uses(other),
        ensures
            self.teardown_rank() < other.teardown_rank(),
    {
    }

    /// A resource is built after everything that it is made from.
    pub proof fn lemma_build_rank(self, other: Resource)
        requires
            self.uses(other),
            self.build_rank() >= 0,
        ensures
            other.build_rank() < self.build_rank(),
    {
    }
}

/// The order in which the resources of a generation with `image_count`
/// images are destroyed: command buffers, the resources of each image,
/// framebuffers, pipeline, pipeline layout, render pass, image views, and
/// the swapchain last.
pub open spec fn spec_teardown_plan(image_count: nat) -> Seq<Resource> {
    seq![Resource::CommandBuffers, Resource::Descriptors] + PerImage::UniformBuffer.spec_all(
        image_count,
    ) + PerImage::Framebuffer.spec_all(image_count) + seq![
        Resource::Pipeline,
        Resource::PipelineLayout,
        Resource::RenderPass,
    ] + PerImage::ImageView.spec_all(image_count) + seq![Resource::Swapchain]
}

/// The order in which the resources of a generation with `image_count`
/// images are built: the swapchain first, whatever the number of images.
pub open spec fn spec_build_plan(image_count: nat) -> Seq<Resource> {
    seq![
        Resource::Swapchain,
        Resource::RenderPass,
        Resource::PipelineLayout,
        Resource::Pipeline,
    ] + PerImage::ImageView.spec_all(image_count) + PerImage::Framebuffer.spec_all(image_count)
        + PerImage::UniformBuffer.spec_all(image_count) + seq![
        Resource::Descriptors,
        Resource::CommandBuffers,
    ]
}

/// The resources that outlive the generations, in the order in which they
/// are destroyed when the loop is closed.
pub open spec fn spec_context_teardown(slots: nat, validation: bool) -> Seq<Resource> {
    seq![Resource::VertexBuffer] + Seq::new(
        slots,
        |s: int| Resource::SyncObjects { slot: s as usize },
    ) + seq![Resource::CommandPool, Resource::DescriptorSetLayout, Resource::Device] + (
    if validation {
        seq![Resource::DebugMessenger]
    } else {
        Seq::empty()
    }) + seq![Resource::Surface, Resource::Instance]
}

/// Everything that is destroyed when the loop is closed, in order: the
/// live generation, then what outlives the generations.
pub open spec fn spec_shutdown_plan(image_count: nat, slots: nat, validation: bool) -> Seq<
    Resource,
> {
    spec_teardown_plan(image_count) + spec_context_teardown(slots, validation)
}

/// When a generation is torn down, nothing that is destroyed is still used
/// by a resource destroyed after it, and every resource of the generation
/// is destroyed once.
pub proof fn lemma_teardown_order(image_count: nat)
    requires
        image_count <= usize::MAX,
    ensures
        forall|p: int, q: int|
            0 <= p < q < spec_teardown_plan(image_count).len() ==> !(
            #[trigger] spec_teardown_plan(image_count)[q]).uses(
                #[trigger] spec_teardown_plan(image_count)[p],
            ),
        forall|r: Resource|
            r.in_generation(image_count) <==> spec_teardown_plan(image_count).contains(r),
        spec_teardown_plan(image_count).no_duplicates(),
        spec_teardown_plan(image_count).len() == 6 + 3 * image_count,
{
    let plan = spec_teardown_plan(image_count);
    let n = image_count as int;
    assert(plan.len() == 6 + 3 * n);
    assert forall|p: int| 0 <= p < plan.len() implies (#[trigger] plan[p]) == teardown_at(
        image_count,
        p,
    ) by {}
    assert forall|p: int, q: int| 0 <= p < q < plan.len() implies !(#[trigger] plan[q]).uses(
        #[trigger] plan[p],
    ) by {
        assert(plan[p] == teardown_at(image_count, p));
        assert(plan[q] == teardown_at(image_count, q));
        if plan[q].uses(plan[p]) {
            plan[q].lemma_teardown_rank(plan[p]);
        }
    }
    assert forall|r: Resource| r.in_generation(image_count) implies plan.contains(r) by {
        let p = teardown_index(image_count, r);
        assert(plan[p] == teardown_at(image_count, p));
        assert(plan[p] == r);
    }
    assert forall|r: Resource| plan.contains(r) implies r.in_generation(image_count) by {
        let p = choose|p: int| 0 <= p < plan.len() && plan[p] == r;
        assert(plan[p] == teardown_at(image_count, p));
    }
    assert forall|p: int, q: int| 0 <= p < plan.len() && 0 <= q < plan.len() && p != q implies plan[p]
        != plan[q] by {
        assert(plan[p] == teardown_at(image_count, p));
        assert(plan[q] == teardown_at(image_count, q));
    }
}

/// The resource at place `p` of the teardown of `image_count` images.
pub open spec fn teardown_at(image_count: nat, p: int) -> Resource {
    let n = image_count as int;
    if p == 0 {
        Resource::CommandBuffers
    } else if p == 1 {
        Resource::Descriptors
    } else if p < 2 + n {
        Resource::UniformBuffer { image: (p - 2) as usize }
    } else if p < 2 + 2 * n {
        Resource::Framebuffer { image: (p - 2 - n) as usize }
    } else if p == 2 + 2 * n {
        Resource::Pipeline
    } else if p == 3 + 2 * n {
        Resource::PipelineLayout
    } else if p == 4 + 2 * n {
        Resource::RenderPass
    } else if p < 5 + 3 * n {
        Resource::ImageView { image: (p - 5 - 2 * n) as usize }
    } else {
        Resource::Swapchain
    }
}

/// The place of `r` in the teardown of `image_count` images.
pub open spec fn teardown_index(image_count: nat, r: Resource) -> int {
    let n = image_count as int;
    match r {
        Resource::CommandBuffers => 0,
        Resource::Descriptors => 1,
        Resource::UniformBuffer { image } => 2 + image,
        Resource::Framebuffer { image } => 2 + n + image,
        Resource::Pipeline => 2 + 2 * n,
        Resource::PipelineLayout => 3 + 2 * n,
        Resource::RenderPass => 4 + 2 * n,
        Resource::ImageView { image } => 5 + 2 * n + image,
        _ => 5 + 3 * n,
    }
}

/// When a generation is built, nothing is built before a resource that it
/// is made from, the swapchain comes first, and every resource of the
/// generation is built once.
pub proof fn lemma_build_order(image_count: nat)
    requires
        image_count <= usize::MAX,
    ensures
        forall|p: int, q: int|
            0 <= p < q < spec_build_plan(image_count).len() ==> !(#[trigger] spec_build_plan(
                image_count,
            )[p]).uses(#[trigger] spec_build_plan(image_count)[q]),
        forall|r: Resource|
            r.in_generation(image_count) <==> spec_build_plan(image_count).contains(r),
        spec_build_plan(image_count).no_duplicates(),
        spec_build_plan(image_count).len() == 6 + 3 * image_count,
        spec_build_plan(image_count)[0] == Resource::Swapchain,
{
    let plan = spec_build_plan(image_count);
    let n = image_count as int;
    assert(plan.len() == 6 + 3 * n);
    assert forall|p: int, q: int| 0 <= p < q < plan.len() implies !(#[trigger] plan[p]).uses(
        #[trigger] plan[q],
    ) by {
        assert(plan[p] == build_at(image_count, p));
        assert(plan[q] == build_at(image_count, q));
        if plan[p].uses(plan[q]) {
            plan[p].lemma_build_rank(plan[q]);
        }
    }
    assert forall|r: Resource| r.in_generation(image_count) implies plan.contains(r) by {
        let p = build_index(image_count, r);
        assert(plan[p] == build_at(image_count, p));
        assert(plan[p] == r);
    }
    assert forall|r: Resource| plan.contains(r) implies r.in_generation(image_count) by {
        let p = choose|p: int| 0 <= p < plan.len() && plan[p] == r;
        assert(plan[p] == build_at(image_count, p));
    }
    assert forall|p: int, q: int| 0 <= p < plan.len() && 0 <= q < plan.len() && p != q implies plan[p]
        != plan[q] by {
        assert(plan[p] == build_at(image_count, p));
        assert(plan[q] == build_at(image_count, q));
    }
    assert(plan[0] == build_at(image_count, 0));
}

/// The resource at place `p` of the build of `image_count` images.
pub open spec fn build_at(image_count: nat, p: int) -> Resource {
    let n = image_count as int;
    if p == 0 {
        Resource::Swapchain
    } else if p == 1 {
        Resource::RenderPass
    } else if p == 2 {
        Resource::PipelineLayout
    } else if p == 3 {
        Resource::Pipeline
    } else if p < 4 + n {
        Resource::ImageView { image: (p - 4) as usize }
    } else if p < 4 + 2 * n {
        Resource::Framebuffer { image: (p - 4 - n) as usize }
    } else if p < 4 + 3 * n {
        Resource::UniformBuffer { image: (p - 4 - 2 * n) as usize }
    } else if p == 4 + 3 * n {
        Resource::Descriptors
    } else {
        Resource::CommandBuffers
    }
}

/// The place of `r` in the build of `image_count` images.
pub open spec fn build_index(image_count: nat, r: Resource) -> int {
    let n = image_count as int;
    match r {
        Resource::Swapchain => 0,
        Resource::RenderPass => 1,
        Resource::PipelineLayout => 2,
        Resource::Pipeline => 3,
        Resource::ImageView { image } => 4 + image,
        Resource::Framebuffer { image } => 4 + n + image,
        Resource::UniformBuffer { image } => 4 + 2 * n + image,
        Resource::Descriptors => 4 + 3 * n,
        _ => 5 + 3 * n,
    }
}

/// The resource at place `p` of what is destroyed after the generation when
/// the loop is closed.
pub open spec fn context_at(slots: nat, validation: bool, p: int) -> Resource {
    let m = slots as int;
    let v: int = if validation {
        1
    } else {
        0
    };
    if p == 0 {
        Resource::VertexBuffer
    } else if p < 1 + m {
        Resource::SyncObjects { slot: (p - 1) as usize }
    } else if p == 1 + m {
        Resource::CommandPool
    } else if p == 2 + m {
        Resource::DescriptorSetLayout
    } else if p == 3 + m {
        Resource::Device
    } else if p == 4 + m && validation {
        Resource::DebugMessenger
    } else if p == 4 + m + v {
        Resource::Surface
    } else {
        Resource::Instance
    }
}

/// When the loop is closed, nothing that is destroyed is still used by a
/// resource destroyed after it, and nothing is destroyed twice: the
/// generation goes first, the device after everything made on it, the
/// instance last.
pub proof fn lemma_shutdown_order(image_count: nat, slots: nat, validation: bool)
    requires
        image_count <= usize::MAX,
        slots <= usize::MAX,
    ensures
        forall|p: int, q: int|
            0 <= p < q < spec_shutdown_plan(image_count, slots, validation).len() ==> !(
            #[trigger] spec_shutdown_plan(image_count, slots, validation)[q]).uses(
                #[trigger] spec_shutdown_plan(image_count, slots, validation)[p],
            ),
        spec_shutdown_plan(image_count, slots, validation).len() == 12 + 3 * image_count + slots
            + if validation {
            1int
        } else {
            0int
        },
        spec_shutdown_plan(image_count, slots, validation).last() == Resource::Instance,
        spec_shutdown_plan(image_count, slots, validation).no_duplicates(),
{
    let plan = spec_shutdown_plan(image_count, slots, validation);
    let first = spec_teardown_plan(image_count);
    let second = spec_context_teardown(slots, validation);
    let n = image_count as int;
    assert(first.len() == 6 + 3 * n);
    assert forall|p: int| 0 <= p < plan.len() implies (#[trigger] plan[p]) == (if p
        < first.len() {
        teardown_at(image_count, p)
    } else {
        context_at(slots, validation, p - first.len())
    }) by {
        if p < first.len() {
            assert(plan[p] == first[p]);
        } else {
            assert(plan[p] == second[p - first.len()]);
        }
    }
    assert forall|p: int, q: int| 0 <= p < q < plan.len() implies !(#[trigger] plan[q]).uses(
        #[trigger] plan[p],
    ) by {
        if plan[q].uses(plan[p]) {
            plan[q].lemma_teardown_rank(plan[p]);
        }
    }
    assert(plan.last() == plan[plan.len() - 1]);
    assert forall|p: int, q: int| 0 <= p < plan.len() && 0 <= q < plan.len() && p != q implies plan[p]
        != plan[q] by {}
}

/// Appends the resources of `kind` of all `image_count` images.
fn push_all(plan: &mut Vec<Resource>, kind: PerImage, image_count: usize)
    ensures
        final(plan)@ == old(plan)@ + kind.spec_all(image_count as nat),
{
    let mut image: usize = 0;
    while image < image_count
        invariant
            image <= image_count,
            plan@ == old(plan)@ + kind.spec_all(image as nat),
        decreases image_count - image,
    {
        plan.push(kind.of(image));
        assert(plan@ =~= old(plan)@ + kind.spec_all((image + 1) as nat));
        image += 1;
    }
}

/// The resources of a generation with `image_count` images in the order in
/// which they are destroyed, once the device is idle.
pub fn teardown_plan(image_count: usize) -> (plan: Vec<Resource>)
    ensures
        plan@ == spec_teardown_plan(image_count as nat),
{
    let mut plan: Vec<Resource> = Vec::new();
    plan.push(Resource::CommandBuffers);
    plan.push(Resource::Descriptors);
    assert(plan@ =~= seq![Resource::CommandBuffers, Resource::Descriptors]);
    push_all(&mut plan, PerImage::UniformBuffer, image_count);
    push_all(&mut plan, PerImage::Framebuffer, image_count);
    let ghost before = plan@;
    plan.push(Resource::Pipeline);
    plan.push(Resource::PipelineLayout);
    plan.push(Resource::RenderPass);
    assert(plan@ =~= before + seq![
        Resource::Pipeline,
        Resource::PipelineLayout,
        Resource::RenderPass,
    ]);
    push_all(&mut plan, PerImage::ImageView, image_count);
    let ghost before = plan@;
    plan.push(Resource::Swapchain);
    assert(plan@ =~= before + seq![Resource::Swapchain]);
    plan
}

/// The resources of a generation with `image_count` images in the order in
/// which they are built.
pub fn build_plan(image_count: usize) -> (plan: Vec<Resource>)
    ensures
        plan@ == spec_build_plan(image_count as nat),
{
    let mut plan: Vec<Resource> = Vec::new();
    plan.push(Resource::Swapchain);
    plan.push(Resource::RenderPass);
    plan.push(Resource::PipelineLayout);
    plan.push(Resource::Pipeline);
    assert(plan@ =~= seq![
        Resource::Swapchain,
        Resource::RenderPass,
        Resource::PipelineLayout,
        Resource::Pipeline,
    ]);
    push_all(&mut plan, PerImage::ImageView, image_count);
    push_all(&mut plan, PerImage::Framebuffer, image_count);
    push_all(&mut plan, PerImage::UniformBuffer, image_count);
    let ghost before = plan@;
    plan.push(Resource::Descriptors);
    plan.push(Resource::CommandBuffers);
    assert(plan@ =~= before + seq![Resource::Descriptors, Resource::CommandBuffers]);
    plan
}

/// The resources that outlive the generations, in the order in which they
/// are destroyed: the vertex buffer, the synchronization objects of the
/// `slots` frame slots, the command pool, the descriptor set layout, the
/// device, the messenger of the validation layer where there is one, the
/// surface and the instance.
pub fn context_teardown(slots: usize, validation: bool) -> (plan: Vec<Resource>)
    ensures
        plan@ == spec_context_teardown(slots as nat, validation),
{
    let mut plan: Vec<Resource> = Vec::new();
    plan.push(Resource::VertexBuffer);
    let mut slot: usize = 0;
    while slot < slots
        invariant
            slot <= slots,
            plan@ == seq![Resource::VertexBuffer] + Seq::new(
                slot as nat,
                |s: int| Resource::SyncObjects { slot: s as usize },
            ),
        decreases slots - slot,
    {
        plan.push(Resource::SyncObjects { slot });
        assert(plan@ =~= seq![Resource::VertexBuffer] + Seq::new(
            (slot + 1) as nat,
            |s: int| Resource::SyncObjects { slot: s as usize },
        ));
        slot += 1;
    }
    plan.push(Resource::CommandPool);
    plan.push(Resource::DescriptorSetLayout);
    plan.push(Resource::Device);
    if validation {
        plan.push(Resource::DebugMessenger);
    }
    plan.push(Resource::Surface);
    plan.push(Resource::Instance);
    assert(plan@ =~= spec_context_teardown(slots as nat, validation));
    plan
}

/// Everything that is destroyed when the loop is closed, once the device
/// is idle, in order: the generation with `image_count` images, then what
/// outlives the generations.
pub fn shutdown_plan(image_count: usize, slots: usize, validation: bool) -> (plan: Vec<Resource>)
    ensures
        plan@ == spec_shutdown_plan(image_count as nat, slots as nat, validation),
{
    let mut plan = teardown_plan(image_count);
    let mut context = context_teardown(slots, validation);
    plan.append(&mut context);
    plan
}

} // verus!
