pub mod env_generator;
pub mod fs;
pub mod input;
pub mod math;
pub mod vulkan;
