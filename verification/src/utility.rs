//! General tools: image tiling and the download coordinator.

pub mod download;
pub mod image_tools;
pub mod text;
