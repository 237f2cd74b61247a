use morrigu::config::{
    ApplicationBuilder, ApplicationConfig, ApplicationConfiguration, RendererBuilder, WindowSpecification,
};
use morrigu::presentation::PresentMode;

#[test]
fn application_config_defaults_and_setters() {
    let c = ApplicationConfig::new();
    assert_eq!((c.width(), c.height()), (1280, 720));
    assert_eq!(c.window_name(), "Morrigu sample application");
    assert_eq!(c.application_name(), "Morrigu sample application");
    assert_eq!(c.version(), (0, 0, 0));
    let c = c
        .with_dimensions(800, 600)
        .with_window_name("win")
        .with_application_name("app")
        .with_application_version(1, 2, 3);
    assert_eq!((c.width(), c.height()), (800, 600));
    assert_eq!(c.window_name(), "win");
    assert_eq!(c.application_name(), "app");
    assert_eq!(c.version(), (1, 2, 3));
}

#[test]
fn application_configuration_defaults_and_setters() {
    let c = ApplicationConfiguration::default();
    assert_eq!(c.window_name(), "Morrigu application");
    assert_eq!(c.application_name(), "Morrigu application");
    assert_eq!(c.preferred_present_mode(), PresentMode::Mailbox);
    let c = c
        .with_window_name("Macha".to_owned())
        .with_dimensions(1280, 720)
        .with_application_name("Macha".to_owned())
        .with_application_version(0, 1, 0)
        .with_preferred_present_mode(PresentMode::Fifo);
    assert_eq!(c.window_name(), "Macha");
    assert_eq!(c.application_name(), "Macha");
    assert_eq!(c.version(), (0, 1, 0));
    assert_eq!((c.width(), c.height()), (1280, 720));
    assert_eq!(c.preferred_present_mode(), PresentMode::Fifo);
}

#[test]
fn application_builder_defaults_and_setters() {
    let b = ApplicationBuilder::new();
    assert_eq!(b.window_name(), "Morrigu application");
    assert_eq!(b.preferred_present_mode(), PresentMode::Mailbox);
    let b = b.with_window_name("Macha editor").with_application_name("Macha").with_application_version(0, 1, 0);
    assert_eq!(b.window_name(), "Macha editor");
    assert_eq!(b.application_name(), "Macha");
    assert_eq!(b.version(), (0, 1, 0));
}

#[test]
fn window_specification_default() {
    let s = WindowSpecification::application_default();
    assert_eq!(s.name, "Morigu app");
    assert_eq!(s.version, (1, 0, 0));
    assert_eq!((s.width, s.height), (1280, 720));
}

#[test]
fn renderer_builder_packs_version() {
    let window = 7u8;
    let r = RendererBuilder::new(&window);
    assert_eq!(r.application_name(), "");
    assert_eq!(r.application_version(), 0);
    assert_eq!((r.width(), r.height()), (1280, 720));
    assert_eq!(r.preferred_present_mode(), PresentMode::Mailbox);
    assert!(!r.rt_requested());
    let r = r
        .with_name("Macha")
        .with_version(1, 2, 3)
        .with_dimensions(640, 480)
        .with_preferred_present_mode(PresentMode::Immediate)
        .request_ray_tracing(true);
    assert_eq!(r.application_name(), "Macha");
    assert_eq!(r.application_version(), (1 << 22) | (2 << 12) | 3);
    assert_eq!((r.width(), r.height()), (640, 480));
    assert_eq!(r.preferred_present_mode(), PresentMode::Immediate);
    assert!(r.rt_requested());
    assert_eq!(*r.window_handle(), 7);
}
