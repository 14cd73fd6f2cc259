//! A render-pass frame graph: passes declare the resources they read and
//! write, the graph is compiled into an execution order, and linking derives
//! the image barriers that each pass needs.

pub mod binding;
pub mod graph;
pub mod resource;
pub mod vk;
pub mod attachment;
pub mod barrier;
pub mod command_list;
pub mod pass_node;
pub mod graphics_pass_node;
pub mod compute_pass_node;
pub mod copy_pass_node;
pub mod pass_type;
pub mod pipeline;
pub mod present_pass_node;
pub mod compiler;
pub mod linker;
pub mod frame;
pub mod vulkan_frame_graph;
pub mod named_cache;
pub mod renderpass_manager;
pub mod util;
pub mod barrier_translation;
pub mod descriptors;
pub mod executor;
pub mod shader;
pub mod pipeline_manager;
pub mod context;
pub mod profiling;
pub mod image;
pub mod passes;
