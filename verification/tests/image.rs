use raytracer::image_tex::{Image, IMAGE_CHANNELS};

fn gradient_data(width: u32, height: u32) -> Vec<u8> {
    let mut data = Vec::new();
    for j in 0..height {
        for i in 0..width {
            data.push(i as u8);
            data.push(j as u8);
            data.push((i + j) as u8);
        }
    }
    data
}

#[test]
fn channels_are_rgb() {
    assert_eq!(IMAGE_CHANNELS, 3);
}

#[test]
fn new_accepts_matching_buffer() {
    let image = Image::new(4, 3, gradient_data(4, 3)).expect("valid image refused");
    assert_eq!(image.width(), 4);
    assert_eq!(image.height(), 3);
}

#[test]
fn new_rejects_degenerate_or_mismatched_input() {
    assert!(Image::new(0, 3, Vec::new()).is_none());
    assert!(Image::new(4, 0, Vec::new()).is_none());
    assert!(Image::new(4, 3, vec![0u8; 4 * 3 * 3 - 1]).is_none());
    assert!(Image::new(4, 3, vec![0u8; 4 * 3 * 3 + 1]).is_none());
}

#[test]
fn pixel_reads_the_right_bytes() {
    let image = Image::new(4, 3, gradient_data(4, 3)).unwrap();
    assert_eq!(image.pixel(0, 0), (0, 0, 0));
    assert_eq!(image.pixel(2, 1), (2, 1, 3));
    assert_eq!(image.pixel(3, 2), (3, 2, 5));
}

#[test]
fn pixel_clamped_reads_the_edge() {
    let image = Image::new(4, 3, gradient_data(4, 3)).unwrap();
    assert_eq!(image.pixel_clamped(1, 1), image.pixel(1, 1));
    assert_eq!(image.pixel_clamped(100, 1), image.pixel(3, 1));
    assert_eq!(image.pixel_clamped(1, 100), image.pixel(1, 2));
    assert_eq!(image.pixel_clamped(100, 100), image.pixel(3, 2));
}
