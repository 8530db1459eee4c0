pub mod device;
pub mod error;
pub mod renderer;
pub mod shader;
pub mod texture;
pub mod vehicle;
pub mod resources;
