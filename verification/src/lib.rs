//! Verified core of a tile-based Monte-Carlo path tracer.
//!
//! The renderer proper (floating-point geometry, materials and the recursive
//! integrator) lives outside this crate; what is verified here is the integer
//! backbone that the renderer is driven by: the tile partition of the image,
//! the configuration arithmetic, the seedable random permutations used by the
//! Perlin noise tables, the image-texture pixel store, and the admission
//! logic of the worker pool.

pub mod config;
pub mod image_tex;
pub mod perlin;
pub mod pool;
pub mod rng;
pub mod scenery;
pub mod tiles;
