pub mod app;
pub mod context;
pub mod frame;
pub mod geometry;
pub mod pipeline;
pub mod shader;
pub mod spv;
pub mod structs;
pub mod swapchain;
pub mod texture;
pub mod vertex;
