pub mod errors;
pub mod cache;
pub mod multipart;
pub mod storage;
pub mod image_processor;
