use gfx_core::context::Core;
use gfx_core::deletion_queue::DeletableResource;
use gfx_core::deletion_queue::DeletionQueue;
use gfx_core::error::GfxError;
use gfx_core::surface::needs_mutable_format;
use gfx_core::surface::plan_surface;
use gfx_core::surface::select_present_mode;
use gfx_core::surface::select_surface_format;
use gfx_core::surface::srgb_pair_of;
use gfx_core::surface::Extent2D;
use gfx_core::surface::Format;
use gfx_core::surface::PresentMode;
use gfx_core::surface::PresentableSurface;
use gfx_core::surface::ResizeAction;
use gfx_core::surface::SurfaceCapabilities;
use gfx_core::surface::SurfaceConfig;
use gfx_core::surface::SurfaceFormat;
use gfx_core::surface::Swapchain;

fn test_caps() -> SurfaceCapabilities {
    SurfaceCapabilities {
        min_image_count: 2,
        max_image_count: 0,
        current_extent: Extent2D { width: u32::MAX, height: u32::MAX },
        min_image_extent: Extent2D { width: 1, height: 1 },
        max_image_extent: Extent2D { width: 4096, height: 4096 },
        supports_identity_transform: true,
    }
}

fn test_swapchain(handle: u64) -> Swapchain {
    Swapchain {
        vk_swapchain: handle,
        vk_images: vec![10, 11, 12],
        vk_image_views: vec![20, 21, 22],
    }
}

fn test_surface() -> PresentableSurface {
    let config = SurfaceConfig {
        extent: Extent2D { width: 800, height: 600 },
        format: Format::B8g8r8a8Unorm,
        present_mode: PresentMode::Fifo,
        num_images: 3,
    };
    PresentableSurface::new(
        1,
        config,
        test_swapchain(2),
        vec![30, 31, 32],
        vec![(40, 41), (42, 43), (44, 45)],
    )
}

#[test]
fn present_mode_selection_prefers_mailbox() {
    let modes = vec![
        PresentMode::Fifo,
        PresentMode::Other(7),
        PresentMode::Mailbox,
        PresentMode::FifoRelaxed,
    ];
    assert_eq!(select_present_mode(&modes), Ok(PresentMode::Mailbox));

    let fallback = vec![PresentMode::Other(7), PresentMode::Fifo];
    assert_eq!(select_present_mode(&fallback), Ok(PresentMode::Fifo));

    let anything = vec![PresentMode::Other(7)];
    assert_eq!(select_present_mode(&anything), Ok(PresentMode::Other(7)));

    assert_eq!(select_present_mode(&vec![]), Err(GfxError::NoPresentMode));
}

#[test]
fn format_selection_favours_srgb_encoded_formats() {
    let formats = vec![
        SurfaceFormat { format: Format::B8g8r8a8Unorm, srgb_nonlinear: true },
        SurfaceFormat { format: Format::R8g8b8a8Srgb, srgb_nonlinear: true },
        // Best format, but in the wrong color space: never chosen.
        SurfaceFormat { format: Format::R8g8b8a8Srgb, srgb_nonlinear: false },
    ];
    assert_eq!(select_surface_format(&formats), Ok(Format::R8g8b8a8Srgb));

    let unorm_only = vec![SurfaceFormat { format: Format::B8g8r8a8Unorm, srgb_nonlinear: true }];
    assert_eq!(select_surface_format(&unorm_only), Ok(Format::B8g8r8a8Unorm));

    let wrong_space = vec![SurfaceFormat { format: Format::R8g8b8a8Srgb, srgb_nonlinear: false }];
    assert_eq!(select_surface_format(&wrong_space), Err(GfxError::NoSurfaceFormat));
}

#[test]
fn srgb_pairing_marks_unorm_formats_as_mutable() {
    assert_eq!(srgb_pair_of(Format::R8g8b8a8Unorm), Format::R8g8b8a8Srgb);
    assert_eq!(srgb_pair_of(Format::B8g8r8a8Unorm), Format::B8g8r8a8Srgb);
    assert_eq!(srgb_pair_of(Format::A8b8g8r8UnormPack32), Format::A8b8g8r8SrgbPack32);
    assert_eq!(srgb_pair_of(Format::R8g8b8a8Srgb), Format::R8g8b8a8Srgb);
    assert!(needs_mutable_format(Format::B8g8r8a8Unorm));
    assert!(!needs_mutable_format(Format::B8g8r8a8Srgb));
    assert!(!needs_mutable_format(Format::Other(99)));
}

#[test]
fn planning_picks_extent_count_mode_and_format() {
    let formats = vec![
        SurfaceFormat { format: Format::B8g8r8a8Unorm, srgb_nonlinear: true },
        SurfaceFormat { format: Format::B8g8r8a8Srgb, srgb_nonlinear: true },
    ];
    let modes = vec![PresentMode::Fifo, PresentMode::FifoRelaxed];
    let window = Extent2D { width: 1366, height: 768 };
    let config = plan_surface(&test_caps(), &formats, &modes, window).unwrap();
    assert_eq!(config.extent, window);
    assert_eq!(config.num_images, 3);
    assert_eq!(config.present_mode, PresentMode::FifoRelaxed);
    assert_eq!(config.format, Format::B8g8r8a8Srgb);
}

#[test]
fn planning_respects_the_platforms_fixed_extent_and_image_cap() {
    let caps = SurfaceCapabilities {
        max_image_count: 2,
        current_extent: Extent2D { width: 640, height: 480 },
        ..test_caps()
    };
    let formats = vec![SurfaceFormat { format: Format::R8g8b8a8Srgb, srgb_nonlinear: true }];
    let modes = vec![PresentMode::Fifo];
    let window = Extent2D { width: 1366, height: 768 };
    let config = plan_surface(&caps, &formats, &modes, window).unwrap();
    assert_eq!(config.extent, Extent2D { width: 640, height: 480 });
    assert_eq!(config.num_images, 2);
}

#[test]
fn planning_surfaces_each_setup_failure() {
    let formats = vec![SurfaceFormat { format: Format::R8g8b8a8Srgb, srgb_nonlinear: true }];
    let modes = vec![PresentMode::Fifo];
    let window = Extent2D { width: 100, height: 100 };

    let no_identity = SurfaceCapabilities { supports_identity_transform: false, ..test_caps() };
    assert_eq!(
        plan_surface(&no_identity, &formats, &modes, window),
        Err(GfxError::IdentityTransformUnsupported)
    );

    assert_eq!(
        plan_surface(&test_caps(), &formats, &vec![], window),
        Err(GfxError::NoPresentMode)
    );

    let wrong_space = vec![SurfaceFormat { format: Format::R8g8b8a8Srgb, srgb_nonlinear: false }];
    assert_eq!(
        plan_surface(&test_caps(), &wrong_space, &modes, window),
        Err(GfxError::NoSurfaceFormat)
    );
}

#[test]
fn resizing_to_the_same_extent_is_a_no_op() {
    let mut surface = test_surface();
    let action = surface.resize(&test_caps(), Extent2D { width: 800, height: 600 });
    assert_eq!(action, ResizeAction::Unchanged);
    assert_eq!(surface.swapchain_extent, Extent2D { width: 800, height: 600 });
    assert_eq!(surface.swapchain.vk_swapchain, 2);
}

#[test]
fn resizing_out_of_bounds_degrades_the_surface() {
    let mut surface = test_surface();
    let action = surface.resize(&test_caps(), Extent2D { width: 0, height: 0 });
    assert_eq!(action, ResizeAction::Degraded);
    assert_eq!(surface.swapchain_extent, Extent2D { width: 0, height: 0 });

    // A degraded surface reports "no swapchain" instead of blocking.
    assert_eq!(surface.start_frame(), Err(GfxError::NoSwapchain));

    let mut too_large = test_surface();
    let action = too_large.resize(&test_caps(), Extent2D { width: 5000, height: 600 });
    assert_eq!(action, ResizeAction::Degraded);
    assert_eq!(too_large.swapchain_extent, Extent2D { width: 0, height: 0 });
}

#[test]
fn a_successful_resize_supersedes_the_swapchain_and_defers_the_old_one() {
    let mut surface = test_surface();
    let mut core = Core::new();
    core.next_timeline_value();

    let action = surface.resize(&test_caps(), Extent2D { width: 1024, height: 768 });
    let plan = match action {
        ResizeAction::Recreate(plan) => plan,
        _ => panic!("expected a swapchain rebuild"),
    };
    assert_eq!(plan.extent, Extent2D { width: 1024, height: 768 });
    assert_eq!(plan.format, Format::B8g8r8a8Unorm);
    assert_eq!(plan.view_format, Format::B8g8r8a8Srgb);
    assert!(plan.mutable_format);
    assert_eq!(plan.present_mode, PresentMode::Fifo);
    assert_eq!(plan.min_image_count, 3);
    assert_eq!(plan.old_swapchain, 2);
    // Until the new swapchain is installed, nothing changed.
    assert_eq!(surface.swapchain_extent, Extent2D { width: 800, height: 600 });

    let mut queue = DeletionQueue::default();
    let new_swapchain = Swapchain {
        vk_swapchain: 3,
        vk_images: vec![50, 51, 52],
        vk_image_views: vec![60, 61, 62],
    };
    surface.install_swapchain(new_swapchain, plan.extent, &mut queue, &core);
    assert_eq!(surface.swapchain_extent, Extent2D { width: 1024, height: 768 });
    assert_eq!(surface.swapchain.vk_swapchain, 3);

    let records = queue.destroy_all_immediate();
    assert_eq!(records.len(), 4);
    for record in records.iter() {
        assert_eq!(record.timeline_value, 1);
    }
    assert!(records.iter().any(|r| r.resource == DeletableResource::Swapchain(2)));
    for view in [20u64, 21, 22] {
        assert!(records.iter().any(|r| r.resource == DeletableResource::ImageView(view)));
    }
}

#[test]
fn frame_slots_cycle_round_robin_independent_of_image_indices() {
    let mut surface = test_surface();
    let mut core = Core::new();

    for expected_slot in [0usize, 1, 2, 0, 1] {
        let request = surface.start_frame().unwrap();
        assert_eq!(request.sync_index, expected_slot);
        assert_eq!(request.vk_cmd_buffer, 30 + expected_slot as u64);
        assert_eq!(request.timeout_ns, 1_000_000_000);
        // The platform reuses image index 0 every time; the slot still
        // advances.
        let frame = surface.finish_start_frame(&request, 0);
        assert_eq!(frame.cmd_buffer(), request.vk_cmd_buffer);
        assert_eq!(frame.swapchain_image_view(), 20);
        assert_eq!(frame.extent, Extent2D { width: 800, height: 600 });
        surface.submit_frame(&mut core, frame);
    }
}

#[test]
fn submission_signals_the_fresh_timeline_value() {
    let mut surface = test_surface();
    let mut core = Core::new();

    let request = surface.start_frame().unwrap();
    assert_eq!(request.wait_timeline_value, 0);
    let frame = surface.finish_start_frame(&request, 1);
    let plan = surface.submit_frame(&mut core, frame);

    assert_eq!(plan.signal_timeline_value, 1);
    assert_eq!(core.current_timeline_value(), 1);
    assert_eq!(plan.wait_semaphore, 40);
    assert_eq!(plan.signal_render_semaphore, 41);
    assert_eq!(plan.present_wait_semaphore, 41);
    assert_eq!(plan.present_image_index, 1);
    assert_eq!(plan.vk_cmd_buffer, 30);
    assert_eq!(plan.barrier.image, 11);

    // The slot remembers what it last submitted.
    assert_eq!(surface.frame_syncs[0].prev_submit_timeline_value, 1);
}

#[test]
fn backpressure_times_out_once_the_ring_is_exhausted() {
    let mut surface = test_surface();
    let mut core = Core::new();
    let completed_value = 0u64;

    // Begin and submit one frame per slot while the GPU completes nothing.
    for _ in 0..3 {
        let request = surface.start_frame().unwrap();
        // Every slot was reusable so far: its wait is already satisfied.
        assert!(request.wait_timeline_value <= completed_value);
        let frame = surface.finish_start_frame(&request, 0);
        surface.submit_frame(&mut core, frame);
    }

    // The ring is exhausted: the next frame's slot demands a wait for a
    // value the GPU never completed, so its bounded wait must time out
    // rather than deadlock or reuse the slot early.
    let request = surface.start_frame().unwrap();
    assert!(request.wait_timeline_value > completed_value);
    assert_eq!(request.timeout_ns, 1_000_000_000);
}

#[test]
fn teardown_orders_swapchain_before_surface() {
    let mut surface = test_surface();
    let mut core = Core::new();

    // Submit a frame on slot 0 so the latest submitted value is 1.
    let request = surface.start_frame().unwrap();
    let frame = surface.finish_start_frame(&request, 0);
    surface.submit_frame(&mut core, frame);

    let mut queue = DeletionQueue::default();
    surface.queue_deletion(&mut queue);
    let records = queue.destroy_all_immediate();

    // Two semaphores per slot, the swapchain, three views, the surface.
    assert_eq!(records.len(), 2 * 3 + 1 + 3 + 1);

    let swapchain_at = records
        .iter()
        .find(|r| r.resource == DeletableResource::Swapchain(2))
        .unwrap()
        .timeline_value;
    let surface_at = records
        .iter()
        .find(|r| r.resource == DeletableResource::Surface(1))
        .unwrap()
        .timeline_value;
    assert_eq!(swapchain_at, 1);
    assert_eq!(surface_at, 2);

    // Slot 0's semaphores wait for its submission; idle slots are free.
    for semaphore in [40u64, 41] {
        let at = records
            .iter()
            .find(|r| r.resource == DeletableResource::Semaphore(semaphore))
            .unwrap()
            .timeline_value;
        assert_eq!(at, 1);
    }
    for semaphore in [42u64, 43, 44, 45] {
        let at = records
            .iter()
            .find(|r| r.resource == DeletableResource::Semaphore(semaphore))
            .unwrap()
            .timeline_value;
        assert_eq!(at, 0);
    }
}

#[test]
fn error_descriptions_match_their_conditions() {
    assert_eq!(GfxError::NoSwapchain.describe(), "no swapchain");
    assert_eq!(
        GfxError::StagingHeapTooSmall.describe(),
        "staging memory heap not big enough"
    );
}
