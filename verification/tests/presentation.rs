use morrigu::presentation::{
    select_present_mode, select_surface_format, swapchain_extent, swapchain_image_count,
    AcquireOutcome, FrameState, PresentMode, PresentOutcome, SurfaceFormat,
    COLOR_SPACE_SRGB_NONLINEAR, FORMAT_B8G8R8A8_SRGB,
};

#[test]
fn preferred_present_mode_when_offered() {
    let offered = [PresentMode::Fifo, PresentMode::Mailbox, PresentMode::Immediate];
    assert_eq!(select_present_mode(&offered, PresentMode::Mailbox), PresentMode::Mailbox);
    assert_eq!(select_present_mode(&offered, PresentMode::Other(1000361000)), PresentMode::Fifo);
    assert_eq!(select_present_mode(&[], PresentMode::Immediate), PresentMode::Fifo);
}

#[test]
fn srgb_surface_format_preferred() {
    let preferred = SurfaceFormat { format: FORMAT_B8G8R8A8_SRGB, color_space: COLOR_SPACE_SRGB_NONLINEAR };
    let unorm = SurfaceFormat { format: 44, color_space: 0 };
    assert_eq!(select_surface_format(&[unorm, preferred]), preferred);
    assert_eq!(select_surface_format(&[unorm]), unorm);
    // the right format in another colour space does not count
    let other_space = SurfaceFormat { format: FORMAT_B8G8R8A8_SRGB, color_space: 1000104002 };
    assert_eq!(select_surface_format(&[other_space, unorm]), other_space);
}

#[test]
fn image_count_is_min_plus_one_capped() {
    assert_eq!(swapchain_image_count(2, 0), 3);
    assert_eq!(swapchain_image_count(2, 8), 3);
    assert_eq!(swapchain_image_count(3, 3), 3);
}

#[test]
fn extent_follows_surface_unless_left_open() {
    assert_eq!(swapchain_extent((800, 600), (1280, 720)), (800, 600));
    assert_eq!(swapchain_extent((u32::MAX, u32::MAX), (1280, 720)), (1280, 720));
}

#[test]
fn resize_is_settled_by_one_recreation() {
    let mut s = FrameState::new(1280, 720);
    s.on_resize(1920, 1080);
    assert!(s.needs_resize);
    assert!(s.after_present(PresentOutcome::Presented { suboptimal: false }));
    assert!(!s.after_present(PresentOutcome::Presented { suboptimal: false }));
}

#[test]
fn out_of_date_recreates_and_keeps_pending_resize() {
    let mut s = FrameState::new(1280, 720);
    assert!(!s.after_present(PresentOutcome::Presented { suboptimal: false }));
    s.on_resize(10, 10);
    assert!(s.after_present(PresentOutcome::OutOfDate));
    assert!(s.needs_resize);
    assert!(s.after_present(PresentOutcome::Presented { suboptimal: true }));
    assert!(s.needs_resize);
}

#[test]
fn minimised_window_draws_nothing() {
    let mut s = FrameState::new(1280, 720);
    assert!(s.can_begin_frame());
    s.on_resize(0, 720);
    assert!(!s.can_begin_frame());
    s.on_resize(300, 200);
    assert!(s.can_begin_frame());
}

#[test]
fn acquire_records_image_index() {
    let mut s = FrameState::new(1280, 720);
    assert!(s.on_acquire(AcquireOutcome::Acquired { image_index: 2, suboptimal: true }));
    assert_eq!(s.next_image_index, 2);
    assert!(!s.on_acquire(AcquireOutcome::OutOfDate));
    assert_eq!(s.next_image_index, 2);
}

#[test]
fn framebuffers_fit_window_and_swapchain() {
    let mut s = FrameState::new(1280, 720);
    s.on_resize(1000, 900);
    s.on_swapchain_recreated(1200, 800);
    assert_eq!((s.framebuffer_width, s.framebuffer_height), (1000, 800));
}
