use vstd::prelude::*;

use crate::vulkan::texture::ImageLayout;

verus! {

/// Numeric code of the 8-bit BGRA unsigned-normalized pixel format.
pub const FORMAT_B8G8R8A8_UNORM: u32 = 44;

/// Numeric code of the non-linear sRGB color space.
pub const COLOR_SPACE_SRGB_NONLINEAR: u32 = 0;

/// A pixel format paired with a color space, as the surface advertises them.
#[derive(Debug, Clone, Copy, PartialEq, Eq, Structural)]
pub struct SurfaceFormat {
    pub format: u32,
    pub color_space: u32,
}

/// How presented images are queued for display.
#[derive(Debug, Clone, Copy, PartialEq, Eq, Structural)]
pub enum PresentMode {
    Immediate,
    Mailbox,
    Fifo,
    FifoRelaxed,
}

/// The surface capabilities the device reports. A `max_image_count` of zero
/// means the surface puts no upper bound on the image count, and a current
/// extent of `u32::MAX` means the surface leaves the extent to the caller.
#[derive(Debug, Clone, Copy, PartialEq, Eq, Structural)]
pub struct SurfaceCaps {
    pub min_image_count: u32,
    pub max_image_count: u32,
    pub current_width: u32,
    pub current_height: u32,
    pub min_width: u32,
    pub min_height: u32,
    pub max_width: u32,
    pub max_height: u32,
}

/// Everything the swapchain was created with.
#[derive(Debug, Clone, Copy, PartialEq, Eq, Structural)]
pub struct SwapchainProperties {
    pub format: SurfaceFormat,
    pub present_mode: PresentMode,
    pub width: u32,
    pub height: u32,
    pub image_count: u32,
}

/// The format the renderer prefers: BGRA8 in non-linear sRGB.
pub open spec fn spec_preferred_format() -> SurfaceFormat {
    SurfaceFormat { format: FORMAT_B8G8R8A8_UNORM, color_space: COLOR_SPACE_SRGB_NONLINEAR }
}

/// Picks the surface format: the preferred BGRA8/sRGB pair when the surface
/// offers it, and the first offered format otherwise.
pub fn choose_format(formats: &Vec<SurfaceFormat>) -> (r: SurfaceFormat)
    requires
        formats@.len() > 0,
    ensures
        formats@.contains(spec_preferred_format()) ==> r == spec_preferred_format(),
        !formats@.contains(spec_preferred_format()) ==> r == formats@[0],
{
    let n = formats.len();
    let mut k: usize = 0;
    while k < n
        invariant
            k <= n,
            n == formats@.len(),
            forall|i: int| 0 <= i < k ==> #[trigger] formats@[i] != spec_preferred_format(),
        decreases n - k,
    {
        let f = formats[k];
        if f.format == FORMAT_B8G8R8A8_UNORM && f.color_space == COLOR_SPACE_SRGB_NONLINEAR {
            return f;
        }
        k = k + 1;
    }
    formats[0]
}

/// Picks the present mode: mailbox when available, which keeps the queue at
/// triple buffering; otherwise first-in-first-out, which every surface
/// supports.
pub fn choose_present_mode(modes: &Vec<PresentMode>) -> (r: PresentMode)
    ensures
        modes@.contains(PresentMode::Mailbox) ==> r == PresentMode::Mailbox,
        !modes@.contains(PresentMode::Mailbox) ==> r == PresentMode::Fifo,
{
    let n = modes.len();
    let mut k: usize = 0;
    while k < n
        invariant
            k <= n,
            n == modes@.len(),
            forall|i: int| 0 <= i < k ==> #[trigger] modes@[i] != PresentMode::Mailbox,
        decreases n - k,
    {
        if matches!(modes[k], PresentMode::Mailbox) {
            return PresentMode::Mailbox;
        }
        k = k + 1;
    }
    PresentMode::Fifo
}

/// Picks the extent: the surface's current extent when it fixes one, and the
/// desired extent clamped into the supported range otherwise.
pub fn choose_extent(caps: &SurfaceCaps, desired_width: u32, desired_height: u32) -> (r: (
    u32,
    u32,
))
    requires
        caps.min_width <= caps.max_width,
        caps.min_height <= caps.max_height,
    ensures
        caps.current_width != u32::MAX ==> r == (caps.current_width, caps.current_height),
        caps.current_width == u32::MAX ==> r.0 == if desired_width < caps.min_width {
            caps.min_width
        } else if desired_width > caps.max_width {
            caps.max_width
        } else {
            desired_width
        },
        caps.current_width == u32::MAX ==> r.1 == if desired_height < caps.min_height {
            caps.min_height
        } else if desired_height > caps.max_height {
            caps.max_height
        } else {
            desired_height
        },
{
    if caps.current_width != u32::MAX {
        return (caps.current_width, caps.current_height);
    }
    let w = if desired_width < caps.min_width {
        caps.min_width
    } else if desired_width > caps.max_width {
        caps.max_width
    } else {
        desired_width
    };
    let h = if desired_height < caps.min_height {
        caps.min_height
    } else if desired_height > caps.max_height {
        caps.max_height
    } else {
        desired_height
    };
    (w, h)
}

/// Picks the image count: one more than the minimum, for triple buffering
/// where the minimum is two, clamped to the maximum where the surface has
/// one.
pub fn choose_image_count(caps: &SurfaceCaps) -> (r: u32)
    requires
        caps.min_image_count < u32::MAX,
    ensures
        r == if caps.max_image_count > 0 && caps.min_image_count + 1 > caps.max_image_count {
            caps.max_image_count as int
        } else {
            caps.min_image_count + 1
        },
{
    let preferred = caps.min_image_count + 1;
    if caps.max_image_count > 0 && preferred > caps.max_image_count {
        caps.max_image_count
    } else {
        preferred
    }
}

/// Picks format, present mode, extent and image count together, each within
/// the reported capability bounds.
pub fn get_ideal_swapchain_properties(
    formats: &Vec<SurfaceFormat>,
    modes: &Vec<PresentMode>,
    caps: &SurfaceCaps,
    desired_width: u32,
    desired_height: u32,
) -> (r: SwapchainProperties)
    requires
        formats@.len() > 0,
        caps.min_width <= caps.max_width,
        caps.min_height <= caps.max_height,
        caps.min_image_count < u32::MAX,
    ensures
        formats@.contains(spec_preferred_format()) ==> r.format == spec_preferred_format(),
        !formats@.contains(spec_preferred_format()) ==> r.format == formats@[0],
        modes@.contains(PresentMode::Mailbox) ==> r.present_mode == PresentMode::Mailbox,
        !modes@.contains(PresentMode::Mailbox) ==> r.present_mode == PresentMode::Fifo,
        caps.current_width != u32::MAX ==> (r.width, r.height) == (
            caps.current_width,
            caps.current_height,
        ),
        caps.min_width <= r.width <= caps.max_width || r.width == caps.current_width,
        caps.min_height <= r.height <= caps.max_height || r.height == caps.current_height,
        r.image_count == if caps.max_image_count > 0 && caps.min_image_count + 1
            > caps.max_image_count {
            caps.max_image_count as int
        } else {
            caps.min_image_count + 1
        },
{
    let format = choose_format(formats);
    let present_mode = choose_present_mode(modes);
    let (width, height) = choose_extent(caps, desired_width, desired_height);
    let image_count = choose_image_count(caps);
    SwapchainProperties { format, present_mode, width, height, image_count }
}

/// One attachment of the render pass: its pixel format, its sample count,
/// whether it is the single-sampled resolve target, and the layout it is in
/// when the pass ends.
#[derive(Debug, Clone, Copy, PartialEq, Eq, Structural)]
pub struct AttachmentDesc {
    pub format: u32,
    pub samples: u32,
    pub is_resolve: bool,
    pub final_layout: ImageLayout,
}

/// The render pass attachments, in attachment order: the multisampled color
/// target in the swapchain's format, the multisampled depth target, and the
/// single-sampled resolve target that is presented.
pub fn render_pass_attachments(color_format: u32, depth_format: u32, msaa_samples: u32) -> (r: Vec<
    AttachmentDesc,
>)
    ensures
        r@ == seq![
            AttachmentDesc {
                format: color_format,
                samples: msaa_samples,
                is_resolve: false,
                final_layout: ImageLayout::ColorAttachment,
            },
            AttachmentDesc {
                format: depth_format,
                samples: msaa_samples,
                is_resolve: false,
                final_layout: ImageLayout::DepthStencilAttachment,
            },
            AttachmentDesc {
                format: color_format,
                samples: 1u32,
                is_resolve: true,
                final_layout: ImageLayout::PresentSrc,
            },
        ],
{
    let mut r: Vec<AttachmentDesc> = Vec::new();
    r.push(
        AttachmentDesc {
            format: color_format,
            samples: msaa_samples,
            is_resolve: false,
            final_layout: ImageLayout::ColorAttachment,
        },
    );
    r.push(
        AttachmentDesc {
            format: depth_format,
            samples: msaa_samples,
            is_resolve: false,
            final_layout: ImageLayout::DepthStencilAttachment,
        },
    );
    r.push(
        AttachmentDesc {
            format: color_format,
            samples: 1,
            is_resolve: true,
            final_layout: ImageLayout::PresentSrc,
        },
    );
    proof {
        assert(r@ =~= seq![
            AttachmentDesc {
                format: color_format,
                samples: msaa_samples,
                is_resolve: false,
                final_layout: ImageLayout::ColorAttachment,
            },
            AttachmentDesc {
                format: depth_format,
                samples: msaa_samples,
                is_resolve: false,
                final_layout: ImageLayout::DepthStencilAttachment,
            },
            AttachmentDesc {
                format: color_format,
                samples: 1u32,
                is_resolve: true,
                final_layout: ImageLayout::PresentSrc,
            },
        ]);
    }
    r
}

/// How the swapchain images are shared between queue families.
#[derive(Debug, Clone, Copy, PartialEq, Eq, Structural)]
pub enum SharingMode {
    Exclusive,
    Concurrent,
}

/// Picks the image sharing mode: concurrent between the two queue families
/// when graphics and present are different families, exclusive otherwise.
pub fn choose_sharing_mode(graphics_index: u32, present_index: u32) -> (r: SharingMode)
    ensures
        r == SharingMode::Concurrent <==> graphics_index != present_index,
        r == SharingMode::Exclusive <==> graphics_index == present_index,
{
    if graphics_index != present_index {
        SharingMode::Concurrent
    } else {
        SharingMode::Exclusive
    }
}

/// One step of tearing down or rebuilding the swapchain bundle and what
/// depends on it.
#[derive(Debug, Clone, Copy, PartialEq, Eq, Structural)]
pub enum SwapchainStep {
    WaitDeviceIdle,
    DestroyDepthTarget,
    DestroyColorTarget,
    DestroyFramebuffers,
    DestroyPipelineObjects,
    DestroyRenderPass,
    DestroyImageViews,
    DestroySwapchain,
    CreateSwapchain,
    CreateImageViews,
    CreateRenderPass,
    RecreatePipelines,
    CreateColorTarget,
    CreateDepthTarget,
    CreateFramebuffers,
    RecordCommandBuffers,
}

impl SwapchainStep {
    /// Whether the step destroys an existing object.
    pub open spec fn is_destroy(self) -> bool {
        match self {
            SwapchainStep::DestroyDepthTarget => true,
            SwapchainStep::DestroyColorTarget => true,
            SwapchainStep::DestroyFramebuffers => true,
            SwapchainStep::DestroyPipelineObjects => true,
            SwapchainStep::DestroyRenderPass => true,
            SwapchainStep::DestroyImageViews => true,
            SwapchainStep::DestroySwapchain => true,
            _ => false,
        }
    }

    /// Whether the step creates or rebuilds an object.
    pub open spec fn is_create(self) -> bool {
        match self {
            SwapchainStep::CreateSwapchain => true,
            SwapchainStep::CreateImageViews => true,
            SwapchainStep::CreateRenderPass => true,
            SwapchainStep::RecreatePipelines => true,
            SwapchainStep::CreateColorTarget => true,
            SwapchainStep::CreateDepthTarget => true,
            SwapchainStep::CreateFramebuffers => true,
            SwapchainStep::RecordCommandBuffers => true,
            _ => false,
        }
    }
}

/// The teardown half of a swapchain recreation: wait for the device to go
/// idle, then destroy in reverse dependency order — depth and color targets,
/// framebuffers, the pipelines' GPU objects, the render pass, the image
/// views, and last the swapchain itself.
pub open spec fn spec_teardown_plan() -> Seq<SwapchainStep> {
    seq![
        SwapchainStep::WaitDeviceIdle,
        SwapchainStep::DestroyDepthTarget,
        SwapchainStep::DestroyColorTarget,
        SwapchainStep::DestroyFramebuffers,
        SwapchainStep::DestroyPipelineObjects,
        SwapchainStep::DestroyRenderPass,
        SwapchainStep::DestroyImageViews,
        SwapchainStep::DestroySwapchain,
    ]
}

/// The rebuild half: the swapchain first, then its image views, the render
/// pass, every registered pipeline against the new render pass, the color
/// and depth targets, the framebuffers, and finally the command buffers.
pub open spec fn spec_rebuild_plan() -> Seq<SwapchainStep> {
    seq![
        SwapchainStep::CreateSwapchain,
        SwapchainStep::CreateImageViews,
        SwapchainStep::CreateRenderPass,
        SwapchainStep::RecreatePipelines,
        SwapchainStep::CreateColorTarget,
        SwapchainStep::CreateDepthTarget,
        SwapchainStep::CreateFramebuffers,
        SwapchainStep::RecordCommandBuffers,
    ]
}

/// The steps of one full swapchain recreation, in the order they must run.
/// Valid only for a non-zero extent: a minimized window must skip recreation
/// entirely.
pub fn recreate_plan(width: u32, height: u32) -> (plan: Vec<SwapchainStep>)
    requires
        width > 0,
        height > 0,
    ensures
        plan@ == spec_teardown_plan() + spec_rebuild_plan(),
{
    let mut plan: Vec<SwapchainStep> = Vec::new();
    plan.push(SwapchainStep::WaitDeviceIdle);
    plan.push(SwapchainStep::DestroyDepthTarget);
    plan.push(SwapchainStep::DestroyColorTarget);
    plan.push(SwapchainStep::DestroyFramebuffers);
    plan.push(SwapchainStep::DestroyPipelineObjects);
    plan.push(SwapchainStep::DestroyRenderPass);
    plan.push(SwapchainStep::DestroyImageViews);
    plan.push(SwapchainStep::DestroySwapchain);
    plan.push(SwapchainStep::CreateSwapchain);
    plan.push(SwapchainStep::CreateImageViews);
    plan.push(SwapchainStep::CreateRenderPass);
    plan.push(SwapchainStep::RecreatePipelines);
    plan.push(SwapchainStep::CreateColorTarget);
    plan.push(SwapchainStep::CreateDepthTarget);
    plan.push(SwapchainStep::CreateFramebuffers);
    plan.push(SwapchainStep::RecordCommandBuffers);
    proof {
        assert(plan@ =~= spec_teardown_plan() + spec_rebuild_plan());
    }
    plan
}

/// Ordering law of swapchain recreation: the plan begins by waiting for the
/// device to go idle, every step of the teardown half destroys and every
/// step of the rebuild half creates, and the whole teardown precedes the
/// whole rebuild — so every object class is destroyed before any is created,
/// and no GPU object of the old bundle survives into the new one.
#[verifier::rlimit(50)]
pub proof fn lemma_recreate_plan_ordered()
    ensures
        (spec_teardown_plan() + spec_rebuild_plan())[0] == SwapchainStep::WaitDeviceIdle,
        forall|i: int|
            1 <= i < spec_teardown_plan().len() ==> (#[trigger] spec_teardown_plan()[i]).is_destroy(),
        forall|j: int|
            0 <= j < spec_rebuild_plan().len() ==> !(#[trigger] spec_rebuild_plan()[j]).is_destroy(),
        forall|i: int, j: int|
            #![trigger (spec_teardown_plan() + spec_rebuild_plan())[i].is_destroy(), (spec_teardown_plan() + spec_rebuild_plan())[j].is_create()]
            0 <= i < (spec_teardown_plan() + spec_rebuild_plan()).len() && 0 <= j < (
            spec_teardown_plan() + spec_rebuild_plan()).len() && (spec_teardown_plan()
                + spec_rebuild_plan())[i].is_destroy() && (spec_teardown_plan()
                + spec_rebuild_plan())[j].is_create() ==> i < j,
{
    let plan = spec_teardown_plan() + spec_rebuild_plan();
    assert forall|i: int, j: int|
        0 <= i < plan.len() && 0 <= j < plan.len() && (#[trigger] plan[i].is_destroy()) && (
        #[trigger] plan[j].is_create()) implies i < j by {
        assert(plan.len() == 16);
        if i >= 8 {
            assert(!plan[i].is_destroy());
        }
        if j < 8 {
            assert(!plan[j].is_create());
        }
    }
}

} // verus!
