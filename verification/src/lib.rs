//! Image-resizing service core: request validation, S3 key construction,
//! the processed-image cache, multipart framing and the decode/resize/encode
//! pipeline, each stated and proved with Verus.

pub mod controllers;
pub mod models;
pub mod services;
pub mod text;
