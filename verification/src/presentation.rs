use vstd::prelude::*;

verus! {

/// A Vulkan presentation mode; `Other` keeps the raw value of any mode the engine
/// has no name for.
#[derive(Clone, Copy, Debug, PartialEq, Eq, Structural)]
pub enum PresentMode {
    Immediate,
    Mailbox,
    Fifo,
    FifoRelaxed,
    Other(i32),
}

/// The raw `VkFormat` value of `B8G8R8A8_SRGB`.
pub const FORMAT_B8G8R8A8_SRGB: i32 = 50;

/// The raw `VkColorSpaceKHR` value of `SRGB_NONLINEAR`.
pub const COLOR_SPACE_SRGB_NONLINEAR: i32 = 0;

/// A surface format as the driver reports it: raw format and colour space values.
#[derive(Clone, Copy, Debug, PartialEq, Eq, Structural)]
pub struct SurfaceFormat {
    pub format: i32,
    pub color_space: i32,
}

/// The preferred present mode when the surface offers it, FIFO otherwise (the
/// one mode every surface supports).
pub open spec fn spec_select_present_mode(available: Seq<PresentMode>, preferred: PresentMode) -> PresentMode {
    if available.contains(preferred) {
        preferred
    } else {
        PresentMode::Fifo
    }
}

/// The swapchain presents in the preferred mode exactly when the surface offers
/// it; otherwise it falls back to FIFO, never to another offered mode.
pub proof fn lemma_present_mode_preferred_or_fifo(available: Seq<PresentMode>, preferred: PresentMode)
    ensures
        available.contains(preferred) ==> spec_select_present_mode(available, preferred)
            == preferred,
        !available.contains(preferred) ==> spec_select_present_mode(available, preferred)
            == PresentMode::Fifo,
        spec_select_present_mode(available, preferred) == preferred || spec_select_present_mode(
            available,
            preferred,
        ) == PresentMode::Fifo,
{
}

pub fn select_present_mode(available: &[PresentMode], preferred: PresentMode) -> (r: PresentMode)
    ensures
        r == spec_select_present_mode(available@, preferred),
{
    let mut i: usize = 0;
    while i < available.len()
        invariant
            i <= available@.len(),
            forall|j: int| 0 <= j < i ==> available@[j] != preferred,
        decreases available@.len() - i,
    {
        if available[i] == preferred {
            assert(available@[i as int] == preferred);
            return preferred;
        }
        i = i + 1;
    }
    PresentMode::Fifo
}

/// The sRGB BGRA8 format in the non-linear sRGB colour space.
pub open spec fn preferred_surface_format() -> SurfaceFormat {
    SurfaceFormat { format: FORMAT_B8G8R8A8_SRGB, color_space: COLOR_SPACE_SRGB_NONLINEAR }
}

/// The preferred surface format when the surface offers it, its first format otherwise.
pub open spec fn spec_select_surface_format(formats: Seq<SurfaceFormat>) -> SurfaceFormat {
    if formats.contains(preferred_surface_format()) {
        preferred_surface_format()
    } else {
        formats[0]
    }
}

pub fn select_surface_format(formats: &[SurfaceFormat]) -> (r: SurfaceFormat)
    requires
        formats@.len() > 0,
    ensures
        r == spec_select_surface_format(formats@),
{
    let preferred = SurfaceFormat {
        format: FORMAT_B8G8R8A8_SRGB,
        color_space: COLOR_SPACE_SRGB_NONLINEAR,
    };
    let mut i: usize = 0;
    while i < formats.len()
        invariant
            i <= formats@.len(),
            preferred == preferred_surface_format(),
            forall|j: int| 0 <= j < i ==> formats@[j] != preferred,
        decreases formats@.len() - i,
    {
        let f = formats[i];
        if f.format == preferred.format && f.color_space == preferred.color_space {
            assert(formats@[i as int] == preferred);
            return preferred;
        }
        i = i + 1;
    }
    formats[0]
}

/// One more image than the surface's minimum, capped by its maximum when it has one
/// (a maximum of 0 means none).
pub open spec fn spec_swapchain_image_count(min_image_count: u32, max_image_count: u32) -> u32 {
    if max_image_count > 0 && min_image_count + 1 > max_image_count {
        max_image_count
    } else {
        (min_image_count + 1) as u32
    }
}

pub fn swapchain_image_count(min_image_count: u32, max_image_count: u32) -> (r: u32)
    requires
        min_image_count < u32::MAX,
    ensures
        r == spec_swapchain_image_count(min_image_count, max_image_count),
{
    let mut requested = min_image_count + 1;
    if max_image_count > 0 && requested > max_image_count {
        requested = max_image_count;
    }
    requested
}

/// The extent of the swapchain: the surface's current extent, unless the surface
/// leaves it to the application (a current width of `u32::MAX`), in which case the
/// requested one.
pub open spec fn spec_swapchain_extent(current: (u32, u32), requested: (u32, u32)) -> (u32, u32) {
    if current.0 == u32::MAX {
        requested
    } else {
        current
    }
}

pub fn swapchain_extent(current: (u32, u32), requested: (u32, u32)) -> (r: (u32, u32))
    ensures
        r == spec_swapchain_extent(current, requested),
{
    if current.0 == u32::MAX {
        requested
    } else {
        current
    }
}

/// What the swapchain answered when asked for the next image.
pub enum AcquireOutcome {
    Acquired { image_index: u32, suboptimal: bool },
    OutOfDate,
}

/// What the swapchain answered when asked to present.
pub enum PresentOutcome {
    Presented { suboptimal: bool },
    OutOfDate,
}

/// The sizes and pending work that decide how frames are drawn and presented.
#[derive(Clone, Copy, Debug, PartialEq, Eq, Structural)]
pub struct FrameState {
    pub needs_resize: bool,
    pub window_width: u32,
    pub window_height: u32,
    pub framebuffer_width: u32,
    pub framebuffer_height: u32,
    pub next_image_index: u32,
}

pub open spec fn spec_can_begin_frame(s: FrameState) -> bool {
    s.window_width != 0 && s.window_height != 0
}

/// The state after the window was resized: the new size is noted and the
/// swapchain is due for recreation.
pub open spec fn spec_on_resize(s: FrameState, width: u32, height: u32) -> FrameState {
    FrameState { needs_resize: true, window_width: width, window_height: height, ..s }
}

/// The state after an image request, and whether the frame can be recorded; an
/// out-of-date swapchain must be recreated first.
pub open spec fn spec_on_acquire(s: FrameState, outcome: AcquireOutcome) -> (FrameState, bool) {
    match outcome {
        AcquireOutcome::Acquired { image_index, suboptimal } => (
            FrameState { next_image_index: image_index, ..s },
            true,
        ),
        AcquireOutcome::OutOfDate => (s, false),
    }
}

/// The state after presenting, and whether the swapchain must be recreated: when
/// it is out of date or suboptimal, or else when a resize is pending (which this
/// recreation settles).
pub open spec fn spec_after_present(s: FrameState, outcome: PresentOutcome) -> (FrameState, bool) {
    match outcome {
        PresentOutcome::OutOfDate => (s, true),
        PresentOutcome::Presented { suboptimal } => if suboptimal {
            (s, true)
        } else if s.needs_resize {
            (FrameState { needs_resize: false, ..s }, true)
        } else {
            (s, false)
        },
    }
}

/// The state once the swapchain was recreated with the given extent: the
/// framebuffers cover what both the window and the swapchain cover.
pub open spec fn spec_on_swapchain_recreated(s: FrameState, extent_width: u32, extent_height: u32) -> FrameState {
    FrameState {
        framebuffer_width: if s.window_width < extent_width {
            s.window_width
        } else {
            extent_width
        },
        framebuffer_height: if s.window_height < extent_height {
            s.window_height
        } else {
            extent_height
        },
        ..s
    }
}

impl FrameState {
    /// A window and framebuffers of the given size, no resize pending.
    pub fn new(width: u32, height: u32) -> (r: Self)
        ensures
            r == (FrameState {
                needs_resize: false,
                window_width: width,
                window_height: height,
                framebuffer_width: width,
                framebuffer_height: height,
                next_image_index: 0,
            }),
    {
        FrameState {
            needs_resize: false,
            window_width: width,
            window_height: height,
            framebuffer_width: width,
            framebuffer_height: height,
            next_image_index: 0,
        }
    }

    /// A frame is drawn only while the window has an area.
    pub fn can_begin_frame(&self) -> (r: bool)
        ensures
            r == spec_can_begin_frame(*self),
    {
        self.window_width != 0 && self.window_height != 0
    }

    pub fn on_resize(&mut self, width: u32, height: u32)
        ensures
            *final(self) == spec_on_resize(*old(self), width, height),
    {
        self.needs_resize = true;
        self.window_width = width;
        self.window_height = height;
    }

    pub fn on_acquire(&mut self, outcome: AcquireOutcome) -> (render: bool)
        ensures
            (*final(self), render) == spec_on_acquire(*old(self), outcome),
    {
        match outcome {
            AcquireOutcome::Acquired { image_index, suboptimal: _ } => {
                self.next_image_index = image_index;
                true
            },
            AcquireOutcome::OutOfDate => false,
        }
    }

    pub fn after_present(&mut self, outcome: PresentOutcome) -> (recreate: bool)
        ensures
            (*final(self), recreate) == spec_after_present(*old(self), outcome),
    {
        match outcome {
            PresentOutcome::OutOfDate => true,
            PresentOutcome::Presented { suboptimal } => {
                if suboptimal {
                    true
                } else if self.needs_resize {
                    self.needs_resize = false;
                    true
                } else {
                    false
                }
            },
        }
    }

    pub fn on_swapchain_recreated(&mut self, extent_width: u32, extent_height: u32)
        ensures
            *final(self) == spec_on_swapchain_recreated(*old(self), extent_width, extent_height),
    {
        self.framebuffer_width = if self.window_width < extent_width {
            self.window_width
        } else {
            extent_width
        };
        self.framebuffer_height = if self.window_height < extent_height {
            self.window_height
        } else {
            extent_height
        };
    }
}

/// A resize is settled by exactly one recreation: presenting normally right after
/// a resize asks for a recreation, and presenting normally again asks for none.
pub proof fn lemma_resize_settled_once(s: FrameState, width: u32, height: u32)
    ensures
        ({
            let resized = spec_on_resize(s, width, height);
            let (after_first, first) = spec_after_present(
                resized,
                PresentOutcome::Presented { suboptimal: false },
            );
            let (_, second) = spec_after_present(
                after_first,
                PresentOutcome::Presented { suboptimal: false },
            );
            first && !second
        }),
{
}

/// An out-of-date or suboptimal swapchain is always recreated, and such a
/// recreation leaves a pending resize pending.
pub proof fn lemma_out_of_date_always_recreates(s: FrameState, outcome: PresentOutcome)
    requires
        outcome matches PresentOutcome::OutOfDate || outcome matches PresentOutcome::Presented {
            suboptimal: true,
        },
    ensures
        spec_after_present(s, outcome).1,
        spec_after_present(s, outcome).0.needs_resize == s.needs_resize,
{
}

/// After a recreation the framebuffers fit in both the window and the swapchain,
/// and they are as large as the smaller of the two.
pub proof fn lemma_framebuffer_fits(s: FrameState, extent_width: u32, extent_height: u32)
    ensures
        ({
            let r = spec_on_swapchain_recreated(s, extent_width, extent_height);
            &&& r.framebuffer_width <= s.window_width && r.framebuffer_width <= extent_width
            &&& r.framebuffer_height <= s.window_height && r.framebuffer_height <= extent_height
            &&& (r.framebuffer_width == s.window_width || r.framebuffer_width == extent_width)
            &&& (r.framebuffer_height == s.window_height || r.framebuffer_height == extent_height)
        }),
{
}

/// A window minimised to no width or no height draws no frame until it is resized
/// to a visible size.
pub proof fn lemma_no_frame_without_area(s: FrameState, width: u32, height: u32)
    ensures
        spec_can_begin_frame(spec_on_resize(s, width, height)) <==> (width != 0 && height != 0),
{
}

} // verus!
