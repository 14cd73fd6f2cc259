//! The renderer's own context: devices and queues, swapchain choices,
//! pipelines built by shader names, persistent resources, and a simple
//! frame of passes.

pub mod device;
pub mod pipeline;
pub mod resource_manager;
pub mod frame_graph;
pub mod shader;
