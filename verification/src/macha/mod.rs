pub mod components;
pub mod editor;
pub mod gltf_loader;
pub mod startup_state;
pub mod switcher;
pub mod ui;
