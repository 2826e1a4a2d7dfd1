//! Safe orchestration around a native image codec: an owned image container,
//! the decisions taken while decoding, the checks made before a resize, and
//! the buffer that collects an encoded PNG stream.

pub mod decode;
pub mod encode;
pub mod error;
pub mod image;
pub mod resize;
