//! The decisions of a small Vulkan renderer, verified with Verus.

pub mod codes;
pub mod descriptors;
pub mod handles;
pub mod pipeline;
pub mod render_pass;
pub mod swapchain;
pub mod frame;
pub mod sync_objects;
pub mod context;
pub mod resources;
