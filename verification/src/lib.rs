//! Verified core of the Morrigu rendering engine: the decisions, data models and
//! bookkeeping that the Vulkan plumbing around it relies on.

pub mod timestep;
pub mod descriptors;
pub mod allocated_types;
pub mod resources;
pub mod pipeline;
pub mod presentation;
pub mod devices;
pub mod config;
pub mod transform;
pub mod texture_registry;
pub mod layers;
pub mod texture;
pub mod mesh_data;
pub mod components;
pub mod utils;
pub mod sample_vertex;
pub mod macha;
pub mod systems;
pub mod shader;
pub mod painter;
pub mod app_events;
