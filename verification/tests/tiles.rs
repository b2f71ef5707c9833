use raytracer::config::AppConfig;
use raytracer::scenery::Scenery;
use raytracer::tiles::{copy_tile, get_tile_bounds, get_tile_count, TileBounds};

fn test_config(width: u32, height: u32, tile_size: u8) -> AppConfig {
    AppConfig::new(
        width,
        height,
        100,
        50,
        Scenery::CornellBox,
        false,
        None,
        String::from("out.png"),
        4,
        tile_size,
        false,
    )
}

#[test]
fn tile_count_divisible() {
    assert_eq!(get_tile_count(32, 64), 2);
    assert_eq!(get_tile_count(1, 5), 5);
    assert_eq!(get_tile_count(16, 16), 1);
}

#[test]
fn tile_count_rounds_up() {
    assert_eq!(get_tile_count(32, 200), 7);
    assert_eq!(get_tile_count(7, 50), 8);
    assert_eq!(get_tile_count(255, 1), 1);
}

#[test]
fn tile_bounds_interior_tile() {
    let config = test_config(100, 60, 32);
    assert_eq!(config.n_tiles_x(), 4);
    assert_eq!(config.n_tiles_y(), 2);
    assert_eq!(config.n_tiles(), 8);

    let bounds = get_tile_bounds(0, &config);
    assert_eq!(
        bounds,
        TileBounds {
            x_min: 0,
            y_min: 0,
            x_max: 31,
            y_max: 31
        }
    );

    let bounds = get_tile_bounds(1, &config);
    assert_eq!(bounds.x_min, 32);
    assert_eq!(bounds.x_max, 63);
    assert_eq!(bounds.y_min, 0);
    assert_eq!(bounds.y_max, 31);
}

#[test]
fn tile_bounds_edge_tiles_are_clipped() {
    let config = test_config(100, 60, 32);

    // Last tile of the first row: clipped in x.
    let bounds = get_tile_bounds(3, &config);
    assert_eq!(bounds.x_min, 96);
    assert_eq!(bounds.x_max, 99);
    assert_eq!(bounds.y_min, 0);
    assert_eq!(bounds.y_max, 31);

    // Bottom-right tile: clipped in both axes.
    let bounds = get_tile_bounds(7, &config);
    assert_eq!(bounds.x_min, 96);
    assert_eq!(bounds.x_max, 99);
    assert_eq!(bounds.y_min, 32);
    assert_eq!(bounds.y_max, 59);
}

/// Every pixel of the image is covered by exactly one tile, also when the
/// tile size does not divide the image dimensions.
#[test]
fn tile_cover_is_exact() {
    for &(w, h, ts) in &[(100u32, 60u32, 32u8), (33, 17, 8), (5, 5, 5), (7, 3, 255), (16, 16, 4)] {
        let config = test_config(w, h, ts);
        let mut covered = vec![0u32; (w * h) as usize];
        for idx in 0..config.n_tiles() {
            let b = get_tile_bounds(idx, &config);
            assert!(b.x_min <= b.x_max && b.x_max < w);
            assert!(b.y_min <= b.y_max && b.y_max < h);
            for y in b.y_min..=b.y_max {
                for x in b.x_min..=b.x_max {
                    covered[(y * w + x) as usize] += 1;
                }
            }
        }
        assert!(
            covered.iter().all(|&count| count == 1),
            "cover not exact for {}x{} tiles of {}",
            w,
            h,
            ts
        );
    }
}

#[test]
fn copy_tile_places_pixels_flipped() {
    let config = test_config(4, 3, 2);
    let mut image = vec![0xAAu8; config.image_pixel_bytes()];
    let mut tile_pixels = vec![0u8; config.tiles_pixel_bytes()];
    for (k, byte) in tile_pixels.iter_mut().enumerate() {
        *byte = k as u8;
    }

    // Tile 0 covers pixels (0..=1, 0..=1).
    let bounds = get_tile_bounds(0, &config);
    copy_tile(&mut image, &tile_pixels, &bounds, &config);

    // Tile pixel (0, 0) lands in image row h - 1 = 2.
    let dst = (2 * 4 + 0) * 4;
    assert_eq!(&image[dst..dst + 4], &tile_pixels[0..4]);
    // Tile pixel (1, 0) lands next to it.
    let dst = (2 * 4 + 1) * 4;
    assert_eq!(&image[dst..dst + 4], &tile_pixels[4..8]);
    // Tile pixel (0, 1) lands in image row 1.
    let dst = (1 * 4 + 0) * 4;
    assert_eq!(&image[dst..dst + 4], &tile_pixels[8..12]);
    // Tile pixel (1, 1).
    let dst = (1 * 4 + 1) * 4;
    assert_eq!(&image[dst..dst + 4], &tile_pixels[12..16]);

    // Bytes of pixels outside the tile are untouched.
    let top_row = (0 * 4 + 0) * 4;
    assert!(image[top_row..top_row + 4 * 4].iter().all(|&b| b == 0xAA));
    let right_half = (2 * 4 + 2) * 4;
    assert!(image[right_half..right_half + 2 * 4].iter().all(|&b| b == 0xAA));
}

#[test]
fn copy_tile_whole_image_round_trip() {
    // One tile per image: copying the tile fills the image with the tile's
    // rows in reverse order.
    let config = test_config(2, 2, 2);
    let mut image = vec![0u8; config.image_pixel_bytes()];
    let tile_pixels: Vec<u8> = (0..16).collect();
    let bounds = get_tile_bounds(0, &config);
    copy_tile(&mut image, &tile_pixels, &bounds, &config);
    let expected: Vec<u8> = vec![
        8, 9, 10, 11, 12, 13, 14, 15, // tile row 1 first
        0, 1, 2, 3, 4, 5, 6, 7, // then tile row 0
    ];
    assert_eq!(image, expected);
}
