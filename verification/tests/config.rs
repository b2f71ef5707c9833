use raytracer::config::{AppConfig, COLOR_CHANNELS};
use raytracer::scenery::Scenery;

fn test_config(width: u32, height: u32, tile_size: u8, threads: usize) -> AppConfig {
    AppConfig::new(
        width,
        height,
        100,
        50,
        Scenery::FinalOneWeekend,
        true,
        Some(7),
        String::from("render.png"),
        threads,
        tile_size,
        false,
    )
}

#[test]
fn colour_channels_are_rgba() {
    assert_eq!(COLOR_CHANNELS, 4);
}

#[test]
fn fields_are_kept() {
    let config = test_config(200, 100, 32, 8);
    assert_eq!(config.image_width, 200);
    assert_eq!(config.image_height, 100);
    assert_eq!(config.samples_per_pixel, 100);
    assert_eq!(config.max_depth, 50);
    assert!(matches!(config.scenery, Scenery::FinalOneWeekend));
    assert!(config.bvh_enabled);
    assert_eq!(config.seed, Some(7));
    assert_eq!(config.output_path, "render.png");
    assert_eq!(config.tile_size, 32);
    assert!(!config.gui);
}

#[test]
fn threads_returns_configured_count() {
    let config = test_config(200, 100, 32, 8);
    assert_eq!(config.threads(), 8);
}

#[test]
fn tile_grid_arithmetic() {
    let config = test_config(200, 100, 32, 4);
    assert_eq!(config.n_tiles_x(), 7);
    assert_eq!(config.n_tiles_y(), 4);
    assert_eq!(config.n_tiles(), 28);
}

#[test]
fn buffer_sizes() {
    let config = test_config(200, 100, 32, 4);
    assert_eq!(config.tiles_pixel_bytes(), 32 * 32 * 4);
    assert_eq!(config.image_pixel_bytes(), 200 * 100 * 4);
}
