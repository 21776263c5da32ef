//! A direct volume renderer's verified core: the meshes that the face passes
//! rasterise, the render targets that each pass owns and how they follow the
//! output size, the transfer-function lookup table, the volume file format, and
//! the per-pixel ray march with front-to-back compositing, all over plain
//! integer and fixed-point values.
pub mod geometry;
pub mod targets;
pub mod composite;
pub mod transfer;
pub mod volume;
pub mod controls;
