//! Core logic of a Vulkan renderer: the render graph's resource and barrier
//! bookkeeping, shader reflection merging, descriptor binding lookup,
//! bindless index allocation, input state and frame timing.

pub mod model_loader;
pub mod synch;
pub mod image;
pub mod pipeline;
pub mod graph;
pub mod frame;
pub mod prepare;
pub mod sorted_map;
pub mod shader;
pub mod descriptor_set;
pub mod renderer;
pub mod gltf_loader;
pub mod device;
pub mod vulkan_base;
pub mod input;
pub mod fps_timer;
pub mod renderers;
pub mod frame_control;
pub mod raytracing;
pub mod paths;
