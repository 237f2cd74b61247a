use vstd::prelude::*;

use crate::presentation::PresentMode;

verus! {

/// A Vulkan version number: variant in bits 29..31, major in 22..28, minor in
/// 12..21, patch in 0..11; each part is shifted into place and or-ed, higher bits
/// of an oversized part falling off the top.
pub open spec fn spec_make_api_version(variant: u32, major: u32, minor: u32, patch: u32) -> u32 {
    (variant << 29u32) | (major << 22u32) | (minor << 12u32) | patch
}

/// Packs a Vulkan version number with `ash::vk::make_api_version`, whose body is
/// the shift-and-or that `spec_make_api_version` states.
#[verifier::external_body]
fn make_api_version(variant: u32, major: u32, minor: u32, patch: u32) -> (r: u32)
    ensures
        r == spec_make_api_version(variant, major, minor, patch),
{
    ash::vk::make_api_version(variant, major, minor, patch)
}

/// The Vulkan version the renderer asks of the device: 1.1.0.
pub fn required_api_version() -> (r: u32)
    ensures
        r == spec_make_api_version(0, 1, 1, 0),
{
    make_api_version(0, 1, 1, 0)
}

/// The version the engine reports to Vulkan: 1.0.0.
pub fn engine_version() -> (r: u32)
    ensures
        r == spec_make_api_version(0, 1, 0, 0),
{
    make_api_version(0, 1, 0, 0)
}

/// The Vulkan API version the instance is created for: 1.2.0.
pub fn instance_api_version() -> (r: u32)
    ensures
        r == spec_make_api_version(0, 1, 2, 0),
{
    make_api_version(0, 1, 2, 0)
}

/// What an application configuration holds, as plain values.
pub struct ApplicationConfigView {
    pub width: u32,
    pub height: u32,
    pub window_name: Seq<char>,
    pub application_name: Seq<char>,
    pub version: (u32, u32, u32),
}

/// The window and application settings of a simple Morrigu application.
pub struct ApplicationConfig<'a> {
    width: u32,
    height: u32,
    window_name: &'a str,
    application_name: &'a str,
    version: (u32, u32, u32),
}

impl<'a> View for ApplicationConfig<'a> {
    type V = ApplicationConfigView;

    closed spec fn view(&self) -> ApplicationConfigView {
        ApplicationConfigView {
            width: self.width,
            height: self.height,
            window_name: self.window_name@,
            application_name: self.application_name@,
            version: self.version,
        }
    }
}

impl<'a> ApplicationConfig<'a> {
    /// A 1280x720 window; window and application are named "Morrigu sample
    /// application", version 0.0.0.
    pub fn new() -> (r: ApplicationConfig<'a>)
        ensures
            r@ == (ApplicationConfigView {
                width: 1280,
                height: 720,
                window_name: "Morrigu sample application"@,
                application_name: "Morrigu sample application"@,
                version: (0, 0, 0),
            }),
    {
        ApplicationConfig {
            width: 1280,
            height: 720,
            window_name: "Morrigu sample application",
            application_name: "Morrigu sample application",
            version: (0, 0, 0),
        }
    }

    pub fn with_dimensions(self, width: u32, height: u32) -> (r: Self)
        ensures
            r@ == (ApplicationConfigView { width, height, ..self@ }),
    {
        let mut s = self;
        s.width = width;
        s.height = height;
        s
    }

    pub fn with_window_name(self, name: &'a str) -> (r: Self)
        ensures
            r@ == (ApplicationConfigView { window_name: name@, ..self@ }),
    {
        let mut s = self;
        s.window_name = name;
        s
    }

    pub fn with_application_name(self, name: &'a str) -> (r: Self)
        ensures
            r@ == (ApplicationConfigView { application_name: name@, ..self@ }),
    {
        let mut s = self;
        s.application_name = name;
        s
    }

    pub fn with_application_version(self, major: u32, minor: u32, patch: u32) -> (r: Self)
        ensures
            r@ == (ApplicationConfigView { version: (major, minor, patch), ..self@ }),
    {
        let mut s = self;
        s.version = (major, minor, patch);
        s
    }

    pub fn width(&self) -> (r: u32)
        ensures
            r == self@.width,
    {
        self.width
    }

    pub fn height(&self) -> (r: u32)
        ensures
            r == self@.height,
    {
        self.height
    }

    pub fn window_name(&self) -> (r: &'a str)
        ensures
            r@ == self@.window_name,
    {
        self.window_name
    }

    pub fn application_name(&self) -> (r: &'a str)
        ensures
            r@ == self@.application_name,
    {
        self.application_name
    }

    pub fn version(&self) -> (r: (u32, u32, u32))
        ensures
            r == self@.version,
    {
        self.version
    }
}

/// The window the first Morrigu renderer opens: name, version, size.
pub struct WindowSpecification<'a> {
    pub name: &'a str,
    pub version: (u16, u16, u16),
    pub width: u32,
    pub height: u32,
}

impl<'a> WindowSpecification<'a> {
    /// The specification an application gets when it names none: "Morigu app",
    /// version 1.0.0, 1280x720.
    pub fn application_default() -> (r: WindowSpecification<'a>)
        ensures
            r.name@ == "Morigu app"@,
            r.version == (1u16, 0u16, 0u16),
            r.width == 1280,
            r.height == 720,
    {
        WindowSpecification { name: "Morigu app", version: (1, 0, 0), width: 1280, height: 720 }
    }
}

/// What an application configuration with owned names holds, as plain values.
pub struct ApplicationConfigurationView {
    pub width: u32,
    pub height: u32,
    pub window_name: Seq<char>,
    pub application_name: Seq<char>,
    pub version: (u32, u32, u32),
    pub preferred_present_mode: PresentMode,
}

/// The settings an application starts with: window, names, version and the
/// present mode the renderer should try first.
pub struct ApplicationConfiguration {
    width: u32,
    height: u32,
    window_name: String,
    application_name: String,
    version: (u32, u32, u32),
    preferred_present_mode: PresentMode,
}

impl View for ApplicationConfiguration {
    type V = ApplicationConfigurationView;

    closed spec fn view(&self) -> ApplicationConfigurationView {
        ApplicationConfigurationView {
            width: self.width,
            height: self.height,
            window_name: self.window_name@,
            application_name: self.application_name@,
            version: self.version,
            preferred_present_mode: self.preferred_present_mode,
        }
    }
}

impl ApplicationConfiguration {
    /// A 1280x720 window; window and application named "Morrigu application",
    /// version 0.0.0, mailbox presentation preferred.
    pub fn new() -> (r: Self)
        ensures
            r@ == (ApplicationConfigurationView {
                width: 1280,
                height: 720,
                window_name: "Morrigu application"@,
                application_name: "Morrigu application"@,
                version: (0, 0, 0),
                preferred_present_mode: PresentMode::Mailbox,
            }),
    {
        ApplicationConfiguration {
            width: 1280,
            height: 720,
            window_name: "Morrigu application".to_owned(),
            application_name: "Morrigu application".to_owned(),
            version: (0, 0, 0),
            preferred_present_mode: PresentMode::Mailbox,
        }
    }

    pub fn with_dimensions(self, width: u32, height: u32) -> (r: Self)
        ensures
            r@ == (ApplicationConfigurationView { width, height, ..self@ }),
    {
        let mut s = self;
        s.width = width;
        s.height = height;
        s
    }

    pub fn with_window_name(self, name: String) -> (r: Self)
        ensures
            r@ == (ApplicationConfigurationView { window_name: name@, ..self@ }),
    {
        let mut s = self;
        s.window_name = name;
        s
    }

    pub fn with_application_name(self, name: String) -> (r: Self)
        ensures
            r@ == (ApplicationConfigurationView { application_name: name@, ..self@ }),
    {
        let mut s = self;
        s.application_name = name;
        s
    }

    pub fn with_application_version(self, major: u32, minor: u32, patch: u32) -> (r: Self)
        ensures
            r@ == (ApplicationConfigurationView { version: (major, minor, patch), ..self@ }),
    {
        let mut s = self;
        s.version = (major, minor, patch);
        s
    }

    pub fn with_preferred_present_mode(self, present_mode: PresentMode) -> (r: Self)
        ensures
            r@ == (ApplicationConfigurationView { preferred_present_mode: present_mode, ..self@ }),
    {
        let mut s = self;
        s.preferred_present_mode = present_mode;
        s
    }

    pub fn width(&self) -> (r: u32)
        ensures
            r == self@.width,
    {
        self.width
    }

    pub fn height(&self) -> (r: u32)
        ensures
            r == self@.height,
    {
        self.height
    }

    pub fn window_name(&self) -> (r: &str)
        ensures
            r@ == self@.window_name,
    {
        self.window_name.as_str()
    }

    pub fn application_name(&self) -> (r: &str)
        ensures
            r@ == self@.application_name,
    {
        self.application_name.as_str()
    }

    pub fn version(&self) -> (r: (u32, u32, u32))
        ensures
            r == self@.version,
    {
        self.version
    }

    pub fn preferred_present_mode(&self) -> (r: PresentMode)
        ensures
            r == self@.preferred_present_mode,
    {
        self.preferred_present_mode
    }
}

impl Default for ApplicationConfiguration {
    fn default() -> (r: Self)
        ensures
            r@ == (ApplicationConfigurationView {
                width: 1280,
                height: 720,
                window_name: "Morrigu application"@,
                application_name: "Morrigu application"@,
                version: (0, 0, 0),
                preferred_present_mode: PresentMode::Mailbox,
            }),
    {
        Self::new()
    }
}

/// What an application builder holds, as plain values.
pub struct ApplicationBuilderView {
    pub width: u32,
    pub height: u32,
    pub window_name: Seq<char>,
    pub application_name: Seq<char>,
    pub version: (u32, u32, u32),
    pub preferred_present_mode: PresentMode,
}

/// The settings of an application built around borrowed names.
pub struct ApplicationBuilder<'a> {
    width: u32,
    height: u32,
    window_name: &'a str,
    application_name: &'a str,
    version: (u32, u32, u32),
    preferred_present_mode: PresentMode,
}

impl<'a> View for ApplicationBuilder<'a> {
    type V = ApplicationBuilderView;

    closed spec fn view(&self) -> ApplicationBuilderView {
        ApplicationBuilderView {
            width: self.width,
            height: self.height,
            window_name: self.window_name@,
            application_name: self.application_name@,
            version: self.version,
            preferred_present_mode: self.preferred_present_mode,
        }
    }
}

impl<'a> ApplicationBuilder<'a> {
    /// A 1280x720 window; window and application named "Morrigu application",
    /// version 0.0.0, mailbox presentation preferred.
    pub fn new() -> (r: Self)
        ensures
            r@ == (ApplicationBuilderView {
                width: 1280,
                height: 720,
                window_name: "Morrigu application"@,
                application_name: "Morrigu application"@,
                version: (0, 0, 0),
                preferred_present_mode: PresentMode::Mailbox,
            }),
    {
        ApplicationBuilder {
            width: 1280,
            height: 720,
            window_name: "Morrigu application",
            application_name: "Morrigu application",
            version: (0, 0, 0),
            preferred_present_mode: PresentMode::Mailbox,
        }
    }

    pub fn with_dimensions(self, width: u32, height: u32) -> (r: Self)
        ensures
            r@ == (ApplicationBuilderView { width, height, ..self@ }),
    {
        let mut s = self;
        s.width = width;
        s.height = height;
        s
    }

    pub fn with_window_name(self, name: &'a str) -> (r: Self)
        ensures
            r@ == (ApplicationBuilderView { window_name: name@, ..self@ }),
    {
        let mut s = self;
        s.window_name = name;
        s
    }

    pub fn with_application_name(self, name: &'a str) -> (r: Self)
        ensures
            r@ == (ApplicationBuilderView { application_name: name@, ..self@ }),
    {
        let mut s = self;
        s.application_name = name;
        s
    }

    pub fn with_application_version(self, major: u32, minor: u32, patch: u32) -> (r: Self)
        ensures
            r@ == (ApplicationBuilderView { version: (major, minor, patch), ..self@ }),
    {
        let mut s = self;
        s.version = (major, minor, patch);
        s
    }

    pub fn with_preferred_present_mode(self, present_mode: PresentMode) -> (r: Self)
        ensures
            r@ == (ApplicationBuilderView { preferred_present_mode: present_mode, ..self@ }),
    {
        let mut s = self;
        s.preferred_present_mode = present_mode;
        s
    }

    pub fn width(&self) -> (r: u32)
        ensures
            r == self@.width,
    {
        self.width
    }

    pub fn height(&self) -> (r: u32)
        ensures
            r == self@.height,
    {
        self.height
    }

    pub fn window_name(&self) -> (r: &'a str)
        ensures
            r@ == self@.window_name,
    {
        self.window_name
    }

    pub fn application_name(&self) -> (r: &'a str)
        ensures
            r@ == self@.application_name,
    {
        self.application_name
    }

    pub fn version(&self) -> (r: (u32, u32, u32))
        ensures
            r == self@.version,
    {
        self.version
    }

    pub fn preferred_present_mode(&self) -> (r: PresentMode)
        ensures
            r == self@.preferred_present_mode,
    {
        self.preferred_present_mode
    }
}

impl<'a> Default for ApplicationBuilder<'a> {
    fn default() -> (r: Self)
        ensures
            r@ == (ApplicationBuilderView {
                width: 1280,
                height: 720,
                window_name: "Morrigu application"@,
                application_name: "Morrigu application"@,
                version: (0, 0, 0),
                preferred_present_mode: PresentMode::Mailbox,
            }),
    {
        Self::new()
    }
}

/// What a renderer builder holds, besides the window, as plain values.
pub struct RendererBuilderView {
    pub application_name: Seq<char>,
    pub application_version: u32,
    pub width: u32,
    pub height: u32,
    pub preferred_present_mode: PresentMode,
    pub rt_requested: bool,
}

/// The settings a renderer is built with, for the window `W` it draws into.
pub struct RendererBuilder<'a, W> {
    window_handle: &'a W,
    application_name: String,
    application_version: u32,
    width: u32,
    height: u32,
    preferred_present_mode: PresentMode,
    rt_requested: bool,
}

impl<'a, W> View for RendererBuilder<'a, W> {
    type V = RendererBuilderView;

    closed spec fn view(&self) -> RendererBuilderView {
        RendererBuilderView {
            application_name: self.application_name@,
            application_version: self.application_version,
            width: self.width,
            height: self.height,
            preferred_present_mode: self.preferred_present_mode,
            rt_requested: self.rt_requested,
        }
    }
}

impl<'a, W> RendererBuilder<'a, W> {
    /// The window whose surface the renderer presents to.
    pub closed spec fn window(&self) -> &'a W {
        self.window_handle
    }

    /// An unnamed application at version 0, a 1280x720 swapchain, mailbox
    /// presentation preferred, no ray tracing.
    pub fn new(window_handle: &'a W) -> (r: Self)
        ensures
            r.window() == window_handle,
            r@ == (RendererBuilderView {
                application_name: Seq::<char>::empty(),
                application_version: 0,
                width: 1280,
                height: 720,
                preferred_present_mode: PresentMode::Mailbox,
                rt_requested: false,
            }),
    {
        RendererBuilder {
            window_handle,
            application_name: String::new(),
            application_version: 0,
            width: 1280,
            height: 720,
            preferred_present_mode: PresentMode::Mailbox,
            rt_requested: false,
        }
    }

    pub fn with_dimensions(self, width: u32, height: u32) -> (r: Self)
        ensures
            r.window() == self.window(),
            r@ == (RendererBuilderView { width, height, ..self@ }),
    {
        let mut s = self;
        s.width = width;
        s.height = height;
        s
    }

    pub fn with_preferred_present_mode(self, present_mode: PresentMode) -> (r: Self)
        ensures
            r.window() == self.window(),
            r@ == (RendererBuilderView { preferred_present_mode: present_mode, ..self@ }),
    {
        let mut s = self;
        s.preferred_present_mode = present_mode;
        s
    }

    /// The application name goes to Vulkan as a C string, so it cannot hold a NUL.
    pub fn with_name(self, name: &str) -> (r: Self)
        requires
            !name@.contains('\0'),
        ensures
            r.window() == self.window(),
            r@ == (RendererBuilderView { application_name: name@, ..self@ }),
    {
        let mut s = self;
        s.application_name = name.to_owned();
        s
    }

    /// The application version, packed the Vulkan way with variant 0.
    pub fn with_version(self, major: u32, minor: u32, patch: u32) -> (r: Self)
        ensures
            r.window() == self.window(),
            r@ == (RendererBuilderView {
                application_version: spec_make_api_version(0, major, minor, patch),
                ..self@
            }),
    {
        let mut s = self;
        s.application_version = make_api_version(0, major, minor, patch);
        s
    }

    pub fn request_ray_tracing(self, request_ray_tracing: bool) -> (r: Self)
        ensures
            r.window() == self.window(),
            r@ == (RendererBuilderView { rt_requested: request_ray_tracing, ..self@ }),
    {
        let mut s = self;
        s.rt_requested = request_ray_tracing;
        s
    }

    pub fn window_handle(&self) -> (r: &'a W)
        ensures
            r == self.window(),
    {
        self.window_handle
    }

    pub fn application_name(&self) -> (r: &str)
        ensures
            r@ == self@.application_name,
    {
        self.application_name.as_str()
    }

    pub fn application_version(&self) -> (r: u32)
        ensures
            r == self@.application_version,
    {
        self.application_version
    }

    pub fn width(&self) -> (r: u32)
        ensures
            r == self@.width,
    {
        self.width
    }

    pub fn height(&self) -> (r: u32)
        ensures
            r == self@.height,
    {
        self.height
    }

    pub fn preferred_present_mode(&self) -> (r: PresentMode)
        ensures
            r == self@.preferred_present_mode,
    {
        self.preferred_present_mode
    }

    pub fn rt_requested(&self) -> (r: bool)
        ensures
            r == self@.rt_requested,
    {
        self.rt_requested
    }
}

} // verus!
