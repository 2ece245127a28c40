pub mod device;
pub mod resources;
