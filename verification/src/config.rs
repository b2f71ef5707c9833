//! Render configuration and the arithmetic derived from it.

use vstd::prelude::*;

use crate::scenery::Scenery;
use crate::tiles::{get_tile_count, spec_tile_count};

verus! {

/// Number of colour channels of one pixel (RGBA).
pub const COLOR_CHANNELS: usize = 4;

/// Program configuration. All fields are read-only during rendering.
#[derive(Clone)]
pub struct AppConfig {
    /// Image width in pixels.
    pub image_width: u32,

    /// Image height in pixels.
    pub image_height: u32,

    /// Samples per pixel for antialiasing.
    pub samples_per_pixel: u32,

    /// Maximum depth of recursion.
    pub max_depth: u32,

    /// Scene to render.
    pub scenery: Scenery,

    /// Enable the bounding volume hierarchy.
    pub bvh_enabled: bool,

    /// Seed for the random number generator.
    pub seed: Option<u64>,

    /// Output file path.
    pub output_path: String,

    /// Number of threads.
    pub num_threads: usize,

    /// Tile size in pixels.
    pub tile_size: u8,

    /// Show the rendered image in a gui.
    pub gui: bool,
}

impl AppConfig {
    /// A configuration the scheduler can run on: non-degenerate image and
    /// tiles, and an image and tile grid whose sizes fit the machine.
    pub open spec fn wf(&self) -> bool {
        &&& self.image_width >= 1
        &&& self.image_height >= 1
        &&& self.tile_size >= 1
        &&& self.num_threads >= 1
        &&& self.image_width as int * self.image_height as int * COLOR_CHANNELS as int
            <= usize::MAX as int
        &&& spec_tile_count(self.tile_size, self.image_width) * spec_tile_count(
            self.tile_size,
            self.image_height,
        ) <= usize::MAX as int
    }

    /// Assembles a configuration from its parts.
    pub fn new(
        image_width: u32,
        image_height: u32,
        samples_per_pixel: u32,
        max_depth: u32,
        scenery: Scenery,
        bvh_enabled: bool,
        seed: Option<u64>,
        output_path: String,
        num_threads: usize,
        tile_size: u8,
        gui: bool,
    ) -> (config: AppConfig)
        ensures
            config.image_width == image_width,
            config.image_height == image_height,
            config.samples_per_pixel == samples_per_pixel,
            config.max_depth == max_depth,
            config.scenery == scenery,
            config.bvh_enabled == bvh_enabled,
            config.seed == seed,
            config.output_path == output_path,
            config.num_threads == num_threads,
            config.tile_size == tile_size,
            config.gui == gui,
    {
        AppConfig {
            image_width,
            image_height,
            samples_per_pixel,
            max_depth,
            scenery,
            bvh_enabled,
            seed,
            output_path,
            num_threads,
            tile_size,
            gui,
        }
    }

    /// Returns the number of threads to use.
    pub fn threads(&self) -> (threads: usize)
        requires
            self.num_threads >= 1,
        ensures
            threads == self.num_threads,
    {
        self.num_threads
    }

    /// Number of tile columns in the image.
    pub fn n_tiles_x(&self) -> (count: usize)
        requires
            self.tile_size >= 1,
        ensures
            count == spec_tile_count(self.tile_size, self.image_width),
    {
        get_tile_count(self.tile_size, self.image_width)
    }

    /// Number of tile rows in the image.
    pub fn n_tiles_y(&self) -> (count: usize)
        requires
            self.tile_size >= 1,
        ensures
            count == spec_tile_count(self.tile_size, self.image_height),
    {
        get_tile_count(self.tile_size, self.image_height)
    }

    /// Total number of tiles in the image.
    pub fn n_tiles(&self) -> (count: usize)
        requires
            self.tile_size >= 1,
            spec_tile_count(self.tile_size, self.image_width) * spec_tile_count(
                self.tile_size,
                self.image_height,
            ) <= usize::MAX as int,
        ensures
            count == spec_tile_count(self.tile_size, self.image_width) * spec_tile_count(
                self.tile_size,
                self.image_height,
            ),
    {
        self.n_tiles_x() * self.n_tiles_y()
    }

    /// Size in bytes of the pixel buffer of one tile.
    pub fn tiles_pixel_bytes(&self) -> (bytes: usize)
        ensures
            bytes == self.tile_size as int * self.tile_size as int * COLOR_CHANNELS as int,
    {
        proof {
            assert(self.tile_size as int * self.tile_size as int * COLOR_CHANNELS as int <= 255
                * 255 * 4) by (nonlinear_arith);
        }
        self.tile_size as usize * self.tile_size as usize * COLOR_CHANNELS
    }

    /// Size in bytes of the pixel buffer of the whole image.
    pub fn image_pixel_bytes(&self) -> (bytes: usize)
        requires
            self.image_width as int * self.image_height as int * COLOR_CHANNELS as int
                <= usize::MAX as int,
        ensures
            bytes == self.image_width as int * self.image_height as int * COLOR_CHANNELS as int,
    {
        proof {
            assert(self.image_width as int * self.image_height as int <= self.image_width as int
                * self.image_height as int * COLOR_CHANNELS as int) by (nonlinear_arith);
        }
        self.image_width as usize * self.image_height as usize * COLOR_CHANNELS
    }
}

} // verus!
