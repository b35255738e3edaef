//! Conversion between byte payloads and matrix barcodes, and between barcodes
//! and raster, vector and text renderings.

pub mod cli;
pub mod color;
pub mod decode;
pub mod encode;
pub mod exit;
pub mod layout;
pub mod metadata;
pub mod pipeline;
pub mod render;
pub mod symbol;
pub mod text;
