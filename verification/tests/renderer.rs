use shaderpixel::vulkan::app::{ArtDesc, GeometryInit, VkApp, PIPELINE_IDX_ART, PIPELINE_IDX_CUBE};
use shaderpixel::vulkan::frame::{frame_actions, AcquireResult, FrameAction, InFlightFrames, PresentResult};
use shaderpixel::vulkan::geometry::{Geometry, GeometryStore};
use shaderpixel::vulkan::pipeline::{CullMode, DrawStep, Pipeline};
use shaderpixel::vulkan::shader::{
    mark_slots_changed, ReloadOutcome, ShaderSlot, ShaderStage, SlotState,
};
use shaderpixel::vulkan::structs::{
    get_descriptor_set_layout_binding, get_push_constant_range, get_sampler_set_layout_binding,
};
use shaderpixel::vulkan::swapchain::{
    choose_format, choose_image_count, choose_present_mode, choose_sharing_mode, recreate_plan,
    render_pass_attachments, PresentMode, SharingMode, SurfaceCaps, SurfaceFormat,
    SwapchainProperties, SwapchainStep,
};
use shaderpixel::vulkan::texture::{cubemap_face_copies, ImageLayout};
use shaderpixel::vulkan::app::ResizeDecision;

fn test_properties(width: u32, height: u32) -> SwapchainProperties {
    SwapchainProperties {
        format: SurfaceFormat { format: 44, color_space: 0 },
        present_mode: PresentMode::Fifo,
        width,
        height,
        image_count: 3,
    }
}

fn fake_spirv() -> Vec<u32> {
    vec![0x0723_0203, 0x0001_0000, 0, 1, 0]
}

/// A renderer core with embedded main and skybox shaders and two
/// hot-reloadable art panels that share one vertex shader.
fn test_app() -> VkApp {
    let slots = vec![
        ShaderSlot::new(ShaderStage::Vertex).with_bytes(fake_spirv()),
        ShaderSlot::new(ShaderStage::Fragment).with_bytes(fake_spirv()),
        ShaderSlot::new(ShaderStage::Vertex).with_bytes(fake_spirv()),
        ShaderSlot::new(ShaderStage::Fragment).with_bytes(fake_spirv()),
        ShaderSlot::new(ShaderStage::Vertex)
            .with_bytes(fake_spirv())
            .with_path("art.vert".to_string()),
        ShaderSlot::new(ShaderStage::Fragment)
            .with_bytes(fake_spirv())
            .with_path("one.frag".to_string()),
        ShaderSlot::new(ShaderStage::Fragment)
            .with_bytes(fake_spirv())
            .with_path("two.frag".to_string()),
    ];
    let arts = vec![
        ArtDesc { vert_slot: 4, frag_slot: 5, is_3d: false },
        ArtDesc { vert_slot: 4, frag_slot: 6, is_3d: true },
    ];
    let (app, loads, freed) = VkApp::new(
        test_properties(800, 600),
        4,
        126,
        slots,
        arts,
        GeometryInit { vertex_buffer: 10, index_buffer: 11, index_count: 36 },
        GeometryInit { vertex_buffer: 12, index_buffer: 13, index_count: 36 },
        GeometryInit { vertex_buffer: 14, index_buffer: 15, index_count: 6 },
        vec![100, 101, 102],
    );
    // every slot held bytecode, so every slot's module must be loaded
    assert_eq!(loads.len(), 7);
    // the box and the quad are each shared with a panel, so nothing is freed
    assert!(freed.is_empty());
    app
}

#[test]
fn geometry_refcount_destroys_once() {
    let mut store = GeometryStore::new();
    let g = Geometry::new(&mut store, 1, 2, 12);
    let n = 3;
    let mut handles = Vec::new();
    for _ in 0..n {
        handles.push(g.clone_ref(&mut store));
    }
    assert_eq!(store.count(0), n as u64 + 1);
    let mut destroys = 0;
    for h in handles {
        if h.cleanup(&mut store) {
            destroys += 1;
        }
        assert_eq!(destroys, 0);
    }
    if g.cleanup(&mut store) {
        destroys += 1;
    }
    assert_eq!(destroys, 1);
    assert_eq!(store.count(0), 0);
}

#[test]
fn reload_while_compiling_is_noop() {
    let mut slot = ShaderSlot::new(ShaderStage::Fragment)
        .with_bytes(fake_spirv())
        .with_path("art.frag".to_string());
    slot.mark_changed();
    let first = slot.request_reload(false);
    assert!(matches!(first, ReloadOutcome::Enqueued(_)));
    assert_eq!(slot.state, SlotState::Compiling);
    assert!(!slot.dirty);
    // a second request in rapid succession enqueues nothing
    let second = slot.request_reload(false);
    assert!(matches!(second, ReloadOutcome::InFlight));
    assert_eq!(slot.state, SlotState::Compiling);
    let third = slot.request_reload(true);
    assert!(matches!(third, ReloadOutcome::InFlight));
}

#[test]
fn failed_compile_keeps_previous_bytecode() {
    let mut slot = ShaderSlot::new(ShaderStage::Fragment).with_bytes(fake_spirv());
    slot.mark_changed();
    assert!(matches!(slot.request_reload(false), ReloadOutcome::Enqueued(_)));
    slot.finish_compile(Err("syntax error".to_string()));
    assert_eq!(slot.state, SlotState::Ready);
    assert_eq!(slot.bytecode, Some(fake_spirv()));
    assert!(slot.last_error.is_some());
}

#[test]
fn frame_ring_cycles_and_defers_fence_reset() {
    let mut frames = InFlightFrames::new(2);
    assert_eq!(frames.next(), 0);
    assert_eq!(frames.next(), 1);
    assert_eq!(frames.next(), 0);

    let mut frames = InFlightFrames::new(2);
    // an out-of-date acquire must not touch the fence or advance the ring
    assert!(frames.begin_frame(AcquireResult::OutOfDate).is_none());
    assert_eq!(frames.current_frame, 0);
    assert!(!frames.fence_pending[0]);
    // a successful frame submits on slot 0 and advances
    let plan = frames.begin_frame(AcquireResult::Image(2)).unwrap();
    assert_eq!(plan.sync_slot, 0);
    assert_eq!(plan.image_index, 2);
    assert!(frames.fence_pending[0]);
    assert!(!frames.finish_frame(PresentResult::Presented(false)));
    assert_eq!(frames.current_frame, 1);
    assert!(frames.finish_frame(PresentResult::OutOfDate));
}

#[test]
fn swapchain_selection() {
    let formats = vec![
        SurfaceFormat { format: 50, color_space: 0 },
        SurfaceFormat { format: 44, color_space: 0 },
    ];
    assert_eq!(choose_format(&formats), SurfaceFormat { format: 44, color_space: 0 });
    let formats = vec![SurfaceFormat { format: 50, color_space: 1 }];
    assert_eq!(choose_format(&formats), SurfaceFormat { format: 50, color_space: 1 });

    let modes = vec![PresentMode::Fifo, PresentMode::Mailbox];
    assert_eq!(choose_present_mode(&modes), PresentMode::Mailbox);
    let modes = vec![PresentMode::Immediate];
    assert_eq!(choose_present_mode(&modes), PresentMode::Fifo);

    let caps = SurfaceCaps {
        min_image_count: 2,
        max_image_count: 0,
        current_width: u32::MAX,
        current_height: u32::MAX,
        min_width: 1,
        min_height: 1,
        max_width: 4096,
        max_height: 4096,
    };
    assert_eq!(choose_image_count(&caps), 3);
    let caps = SurfaceCaps { max_image_count: 2, ..caps };
    assert_eq!(choose_image_count(&caps), 2);

    assert_eq!(choose_sharing_mode(0, 0), SharingMode::Exclusive);
    assert_eq!(choose_sharing_mode(0, 1), SharingMode::Concurrent);
}

#[test]
fn recreate_plan_destroys_before_creating() {
    let plan = recreate_plan(400, 300);
    assert_eq!(plan[0], SwapchainStep::WaitDeviceIdle);
    assert_eq!(plan.len(), 16);
    let first_create = plan.iter().position(|s| *s == SwapchainStep::CreateSwapchain).unwrap();
    assert_eq!(first_create, 8);
    assert_eq!(plan[7], SwapchainStep::DestroySwapchain);
    assert_eq!(plan[15], SwapchainStep::RecordCommandBuffers);
}

#[test]
fn ten_frames_then_minimize_then_recreate() {
    let mut app = test_app();
    for i in 0..10u32 {
        let jobs = app.request_art_reloads(false);
        assert!(jobs.is_empty());
        let (_loads, rebuilt) = app.poll_art_pipelines();
        assert!(!rebuilt);
        assert_eq!(app.resize_decision(800, 600), ResizeDecision::DrawNormally);
        let plan = app.draw_frame(AcquireResult::Image(i % 3)).unwrap();
        assert_eq!(plan.image_index, i % 3);
        app.finish_frame(PresentResult::Presented(false));
        assert!(!app.dirty_swapchain);
    }
    // the window resize event marks the swapchain dirty
    app.dirty_swapchain = true;
    // minimized: zero extent must skip recreation and keep the flag
    assert_eq!(app.resize_decision(0, 0), ResizeDecision::SkipMinimized);
    assert!(app.dirty_swapchain);
    // a usable extent triggers exactly one full recreation
    assert_eq!(app.resize_decision(400, 300), ResizeDecision::Recreate);
    let (plan, _loads) = app.recreate_swapchain(test_properties(400, 300));
    assert_eq!(plan.len(), 16);
    assert!(!app.dirty_swapchain);
    assert_eq!(app.swapchain.width, 400);
    // every pipeline survived the recreation fully constructed
    for p in app.pipelines.iter() {
        assert!(p.has_pipeline != p.waiting_for_shaders);
        assert!(!p.waiting_for_shaders);
    }
    let plan = app.draw_frame(AcquireResult::Image(0)).unwrap();
    assert_eq!(plan.image_index, 0);
    app.finish_frame(PresentResult::Presented(false));
    assert!(!app.dirty_swapchain);
}

#[test]
fn shader_change_rebuilds_only_its_pipeline() {
    let mut app = test_app();
    // settle: everything ready
    let (_loads, _rebuilt) = app.poll_art_pipelines();
    assert!(!app.pipelines[PIPELINE_IDX_ART].waiting_for_shaders);
    assert!(!app.pipelines[PIPELINE_IDX_ART + 1].waiting_for_shaders);

    // the watcher reports a change of the second panel's fragment shader
    mark_slots_changed(&mut app.slots, &vec![6]);
    assert!(app.slots[6].dirty);
    assert!(!app.slots[5].dirty);

    // the next frame's sweep turns the dirty bit into one compile job
    let jobs = app.request_art_reloads(false);
    assert_eq!(jobs, vec![6]);
    assert!(app.pipelines[PIPELINE_IDX_ART + 1].waiting_for_shaders);
    // no other pipeline is affected
    assert!(!app.pipelines[0].waiting_for_shaders);
    assert!(!app.pipelines[PIPELINE_IDX_CUBE].waiting_for_shaders);
    assert!(!app.pipelines[PIPELINE_IDX_ART].waiting_for_shaders);

    // the worker delivers the new bytecode; the next poll rebuilds it
    app.slots[6].finish_compile(Ok(fake_spirv()));
    let (loads, rebuilt) = app.poll_art_pipelines();
    assert!(rebuilt);
    assert_eq!(loads.len(), 1);
    assert_eq!(loads[0].slot, 6);
    assert!(!app.pipelines[PIPELINE_IDX_ART + 1].waiting_for_shaders);
    assert!(app.pipelines[PIPELINE_IDX_ART + 1].has_pipeline);
}

#[test]
fn forced_reload_enqueues_each_shared_slot_once() {
    let mut app = test_app();
    let jobs = app.request_art_reloads(true);
    // slots 4 (shared), 5 and 6 each get exactly one job
    let mut sorted = jobs.clone();
    sorted.sort();
    assert_eq!(sorted, vec![4, 5, 6]);
    assert!(app.pipelines[PIPELINE_IDX_ART].waiting_for_shaders);
    assert!(app.pipelines[PIPELINE_IDX_ART + 1].waiting_for_shaders);
    // main and skybox pipelines keep their modules
    assert!(app.pipelines[0].has_pipeline);
    assert!(app.pipelines[1].has_pipeline);
}

#[test]
fn toggle_and_record_plan() {
    let mut app = test_app();
    let included = app.record_plan();
    assert_eq!(included, vec![0, 1, 2, 3]);
    app.toggle_cubemap();
    assert!(!app.pipelines[PIPELINE_IDX_CUBE].active);
    let included = app.record_plan();
    assert_eq!(included, vec![0, 2, 3]);
    app.toggle_cubemap();
    assert!(app.pipelines[PIPELINE_IDX_CUBE].active);
}

#[test]
fn bind_steps_record_the_draw_in_order() {
    let mut store = GeometryStore::new();
    let g = Geometry::new(&mut store, 21, 22, 36);
    // the handles a geometry hands back are the ones it was created over
    assert_eq!(g.get(), Some((21, 22, 36)));
    let p = Pipeline::new(CullMode::Back, 0, 1, Some(g), true, true, true);
    assert!(p.has_pipeline);
    assert_eq!(
        p.bind_to_cmd_buffer(),
        vec![
            DrawStep::BindPipeline,
            DrawStep::BindVertexBuffer(21),
            DrawStep::BindIndexBuffer(22),
            DrawStep::PushConstants,
            DrawStep::BindDescriptorSets,
            DrawStep::DrawIndexed(36, 1),
        ]
    );
    let bare = Pipeline::new(CullMode::Back, 0, 1, None, false, true, true);
    assert_eq!(
        bare.bind_to_cmd_buffer(),
        vec![DrawStep::BindPipeline, DrawStep::BindDescriptorSets, DrawStep::DrawIndexed(0, 1)]
    );
}

#[test]
fn unshared_quad_geometry_is_freed() {
    let slots = vec![
        ShaderSlot::new(ShaderStage::Vertex).with_bytes(fake_spirv()),
        ShaderSlot::new(ShaderStage::Fragment).with_bytes(fake_spirv()),
        ShaderSlot::new(ShaderStage::Vertex).with_bytes(fake_spirv()),
        ShaderSlot::new(ShaderStage::Fragment).with_bytes(fake_spirv()),
        ShaderSlot::new(ShaderStage::Vertex).with_path("art.vert".to_string()),
        ShaderSlot::new(ShaderStage::Fragment).with_path("box.frag".to_string()),
    ];
    // the only panel draws on the box, so nothing shares the quad
    let arts = vec![ArtDesc { vert_slot: 4, frag_slot: 5, is_3d: true }];
    let (_app, _loads, freed) = VkApp::new(
        test_properties(800, 600),
        4,
        126,
        slots,
        arts,
        GeometryInit { vertex_buffer: 10, index_buffer: 11, index_count: 36 },
        GeometryInit { vertex_buffer: 12, index_buffer: 13, index_count: 36 },
        GeometryInit { vertex_buffer: 14, index_buffer: 15, index_count: 6 },
        vec![100],
    );
    assert_eq!(freed, vec![(14, 15)]);
}

#[test]
fn frame_actions_keep_the_fence_discipline() {
    assert_eq!(frame_actions(1, AcquireResult::OutOfDate), vec![FrameAction::AcquireImage(1)]);
    assert_eq!(
        frame_actions(0, AcquireResult::Image(2)),
        vec![
            FrameAction::AcquireImage(0),
            FrameAction::WaitFence(0),
            FrameAction::ResetFence(0),
            FrameAction::UpdateUniforms(2),
            FrameAction::SubmitCommands(0),
            FrameAction::PresentImage(2),
        ]
    );
}

#[test]
fn render_pass_and_descriptor_data() {
    let attachments = render_pass_attachments(44, 126, 4);
    assert_eq!(attachments.len(), 3);
    assert_eq!((attachments[0].format, attachments[0].samples), (44, 4));
    assert_eq!(attachments[0].final_layout, ImageLayout::ColorAttachment);
    assert_eq!((attachments[1].format, attachments[1].samples), (126, 4));
    assert_eq!(attachments[1].final_layout, ImageLayout::DepthStencilAttachment);
    assert_eq!((attachments[2].format, attachments[2].samples), (44, 1));
    assert!(attachments[2].is_resolve);
    assert_eq!(attachments[2].final_layout, ImageLayout::PresentSrc);

    let copies = cubemap_face_copies(64, 64);
    assert_eq!(copies.len(), 6);
    for (i, c) in copies.iter().enumerate() {
        assert_eq!(c.face as usize, i);
        assert_eq!(c.buffer_offset, i as u64 * 4 * 64 * 64);
    }

    let ubo = get_descriptor_set_layout_binding();
    assert_eq!((ubo.binding, ubo.descriptor_type, ubo.descriptor_count, ubo.stage_flags), (0, 6, 1, 0x1));
    let sampler = get_sampler_set_layout_binding();
    assert_eq!((sampler.binding, sampler.descriptor_type, sampler.stage_flags), (1, 1, 0x10));
    let range = get_push_constant_range();
    assert_eq!((range.stage_flags, range.offset, range.size), (0x1, 0, 64));
}

#[test]
fn shutdown_releases_everything_once() {
    let app = test_app();
    // outstanding handles: the model geometry in pipeline 0, the box in the
    // skybox pipeline and one panel, the quad in the other panel
    let (freed, modules) = app.shutdown();
    // every buffer pair is freed exactly once, by the release of its last
    // handle, in pipeline order: model first, then the quad (its only
    // panel), then the box (its second holder)
    assert_eq!(freed, vec![(10, 11), (14, 15), (12, 13)]);
    // after construction every slot's bytecode was loaded into a module
    assert_eq!(modules, vec![0, 1, 2, 3, 4, 5, 6]);
}

#[test]
fn texture_swap_returns_previous() {
    let mut app = test_app();
    let previous = app.load_new_texture(777);
    assert_eq!(previous, 100);
    assert_eq!(app.textures[0], 777);
}
