//! Partition of the image into fixed-size square tiles.
//!
//! Tiles are counted from the top-left to the bottom-right of the image; an
//! edge tile is clipped to the image boundary. The partition is a pure
//! function of the image dimensions and the tile size, and covers every pixel
//! exactly once.

use vstd::prelude::*;

use crate::config::AppConfig;

verus! {

/// Inclusive pixel-space rectangle of one tile.
#[derive(Debug, Copy, Clone, PartialEq, Eq, Structural)]
pub struct TileBounds {
    /// Minimum x-coordinate.
    pub x_min: u32,

    /// Minimum y-coordinate.
    pub y_min: u32,

    /// Maximum x-coordinate.
    pub x_max: u32,

    /// Maximum y-coordinate.
    pub y_max: u32,
}

/// Number of tiles that cover one image dimension: `dimension / tile_size`,
/// rounded up.
pub open spec fn spec_tile_count(tile_size: u8, dimension: u32) -> int {
    if dimension as int % tile_size as int == 0 {
        dimension as int / tile_size as int
    } else {
        dimension as int / tile_size as int + 1
    }
}

/// Calculates the number of tiles that cover the given image dimension
/// (width or height) when cut into strips of `tile_size` pixels.
pub fn get_tile_count(tile_size: u8, dimension: u32) -> (count: usize)
    requires
        tile_size >= 1,
    ensures
        count == spec_tile_count(tile_size, dimension),
{
    if dimension % tile_size as u32 == 0 {
        (dimension / tile_size as u32) as usize
    } else {
        proof {
            lemma_indivisible_tile_size(tile_size, dimension);
        }
        (dimension / tile_size as u32) as usize + 1
    }
}

/// A dimension that a tile size of one does not divide evenly does not exist,
/// so an indivisible dimension leaves room for the rounding-up increment.
proof fn lemma_indivisible_tile_size(tile_size: u8, dimension: u32)
    requires
        tile_size >= 1,
        dimension as int % tile_size as int != 0,
    ensures
        dimension as int / tile_size as int + 1 <= u32::MAX,
{
    assert(tile_size >= 2) by {
        if tile_size == 1 {
            assert(dimension as int % 1int == 0) by (nonlinear_arith);
        }
    }
    assert(dimension as int / tile_size as int <= dimension as int / 2) by {
        vstd::arithmetic::div_mod::lemma_div_is_ordered_by_denominator(
            dimension as int,
            2,
            tile_size as int,
        );
    }
}

/// How the tile count relates to the dimension it covers: the last tile
/// starts inside the image, and the tiles together reach its far edge.
proof fn lemma_tile_count_bounds(tile_size: u8, dimension: u32)
    requires
        tile_size >= 1,
        dimension >= 1,
    ensures
        1 <= spec_tile_count(tile_size, dimension) <= dimension,
        (spec_tile_count(tile_size, dimension) - 1) * tile_size as int <= dimension - 1,
        dimension <= spec_tile_count(tile_size, dimension) * tile_size as int,
{
    let ts = tile_size as int;
    let d = dimension as int;
    let q = d / ts;
    let r = d % ts;
    let c = spec_tile_count(tile_size, dimension);
    vstd::arithmetic::div_mod::lemma_fundamental_div_mod(d, ts);
    vstd::arithmetic::div_mod::lemma_mod_bound(d, ts);
    vstd::arithmetic::div_mod::lemma_div_pos_is_pos(d, ts);
    assert(c == if r == 0 {
        q
    } else {
        q + 1
    });
    assert(1 <= c <= d && (c - 1) * ts <= d - 1 && d <= c * ts) by (nonlinear_arith)
        requires
            d == ts * q + r,
            0 <= r < ts,
            0 <= q,
            1 <= d,
            1 <= ts,
            c == if r == 0 {
                q
            } else {
                q + 1
            },
    ;
}

/// The pixel `(x, y)` lies inside the inclusive rectangle `bounds`.
pub open spec fn spec_in_tile(bounds: TileBounds, x: u32, y: u32) -> bool {
    &&& bounds.x_min <= x <= bounds.x_max
    &&& bounds.y_min <= y <= bounds.y_max
}

/// A tile rectangle that lies inside the image of `config` and fits the
/// pixel buffer of one tile.
pub open spec fn spec_tile_wf(config: AppConfig, bounds: TileBounds) -> bool {
    &&& bounds.x_min <= bounds.x_max < config.image_width
    &&& bounds.y_min <= bounds.y_max < config.image_height
    &&& bounds.x_max - bounds.x_min < config.tile_size
    &&& bounds.y_max - bounds.y_min < config.tile_size
}

/// Bounds of the tile with the given index. Tiles are counted from the
/// top-left to the bottom-right of the image; an edge tile is clipped to the
/// image boundary.
pub open spec fn spec_tile_bounds(config: AppConfig, tile_idx: int) -> TileBounds {
    let ts = config.tile_size as int;
    let tile_x = tile_idx % spec_tile_count(config.tile_size, config.image_width);
    let tile_y = tile_idx / spec_tile_count(config.tile_size, config.image_width);
    let x_min = tile_x * ts;
    let y_min = tile_y * ts;
    TileBounds {
        x_min: x_min as u32,
        y_min: y_min as u32,
        x_max: (if x_min + ts - 1 <= config.image_width - 1 {
            x_min + ts - 1
        } else {
            config.image_width - 1
        }) as u32,
        y_max: (if y_min + ts - 1 <= config.image_height - 1 {
            y_min + ts - 1
        } else {
            config.image_height - 1
        }) as u32,
    }
}

/// Calculates tile bounds based on a tile index. Tiles are counted from
/// top-left to bottom-right.
pub fn get_tile_bounds(tile_idx: usize, config: &AppConfig) -> (bounds: TileBounds)
    requires
        config.wf(),
        tile_idx < spec_tile_count(config.tile_size, config.image_width) * spec_tile_count(
            config.tile_size,
            config.image_height,
        ),
    ensures
        bounds == spec_tile_bounds(*config, tile_idx as int),
        spec_tile_wf(*config, bounds),
{
    let ghost ntx = spec_tile_count(config.tile_size, config.image_width);
    let ghost nty = spec_tile_count(config.tile_size, config.image_height);
    proof {
        lemma_tile_count_bounds(config.tile_size, config.image_width);
        lemma_tile_count_bounds(config.tile_size, config.image_height);
    }

    let n_tiles_x = config.n_tiles_x();
    let tile_x_idx = tile_idx % n_tiles_x;
    let tile_y_idx = tile_idx / n_tiles_x;
    proof {
        vstd::arithmetic::div_mod::lemma_mod_bound(tile_idx as int, ntx);
        vstd::arithmetic::div_mod::lemma_multiply_divide_lt(tile_idx as int, ntx, nty);
        vstd::arithmetic::div_mod::lemma_div_pos_is_pos(tile_idx as int, ntx);
    }

    let tile_x = tile_x_idx as u32;
    let tile_y = tile_y_idx as u32;
    let ts = config.tile_size as u32;

    proof {
        assert(tile_x as int * ts as int <= (ntx - 1) * ts as int && tile_y as int * ts as int <= (
        nty - 1) * ts as int) by (nonlinear_arith)
            requires
                0 <= tile_x as int <= ntx - 1,
                0 <= tile_y as int <= nty - 1,
                ts >= 1,
        ;
    }

    let x_min = tile_x * ts;
    let x_max = if config.image_width - 1 - x_min >= ts - 1 {
        x_min + ts - 1
    } else {
        config.image_width - 1
    };

    let y_min = tile_y * ts;
    let y_max = if config.image_height - 1 - y_min >= ts - 1 {
        y_min + ts - 1
    } else {
        config.image_height - 1
    };

    TileBounds { x_min, y_min, x_max, y_max }
}

/// Law of cover completeness, first half: every pixel of the image lies in
/// the tile that the partition assigns to it, so no pixel is missed.
pub proof fn lemma_tile_cover(config: AppConfig, x: u32, y: u32) -> (tile_idx: int)
    requires
        config.wf(),
        x < config.image_width,
        y < config.image_height,
    ensures
        0 <= tile_idx < spec_tile_count(config.tile_size, config.image_width) * spec_tile_count(
            config.tile_size,
            config.image_height,
        ),
        spec_in_tile(spec_tile_bounds(config, tile_idx), x, y),
{
    let ts = config.tile_size as int;
    let ntx = spec_tile_count(config.tile_size, config.image_width);
    let nty = spec_tile_count(config.tile_size, config.image_height);
    let tx = x as int / ts;
    let ty = y as int / ts;

    lemma_tile_count_bounds(config.tile_size, config.image_width);
    lemma_tile_count_bounds(config.tile_size, config.image_height);
    vstd::arithmetic::div_mod::lemma_fundamental_div_mod(x as int, ts);
    vstd::arithmetic::div_mod::lemma_mod_bound(x as int, ts);
    vstd::arithmetic::div_mod::lemma_div_pos_is_pos(x as int, ts);
    vstd::arithmetic::div_mod::lemma_fundamental_div_mod(y as int, ts);
    vstd::arithmetic::div_mod::lemma_mod_bound(y as int, ts);
    vstd::arithmetic::div_mod::lemma_div_pos_is_pos(y as int, ts);

    assert(x < ts * ntx && y < ts * nty) by (nonlinear_arith)
        requires
            x < config.image_width,
            y < config.image_height,
            config.image_width <= ntx * ts,
            config.image_height <= nty * ts,
    ;
    vstd::arithmetic::div_mod::lemma_multiply_divide_lt(x as int, ts, ntx);
    vstd::arithmetic::div_mod::lemma_multiply_divide_lt(y as int, ts, nty);

    let tile_idx = ty * ntx + tx;
    assert(0 <= tile_idx < ntx * nty) by (nonlinear_arith)
        requires
            tile_idx == ty * ntx + tx,
            0 <= tx < ntx,
            0 <= ty < nty,
    ;
    vstd::arithmetic::div_mod::lemma_fundamental_div_mod_converse(tile_idx, ntx, ty, tx);

    assert(tx * ts <= x && x < tx * ts + ts && ty * ts <= y && y < ty * ts + ts) by (
    nonlinear_arith)
        requires
            x as int == ts * tx + x as int % ts,
            y as int == ts * ty + y as int % ts,
            0 <= x as int % ts < ts,
            0 <= y as int % ts < ts,
    ;
    assert(tx * ts <= x as int <= config.image_width - 1) by (nonlinear_arith)
        requires
            tx * ts <= x,
            x < config.image_width,
    ;
    tile_idx
}

/// Law of cover completeness, second half: no pixel lies in two different
/// tiles, so the tile rectangles are pairwise disjoint.
pub proof fn lemma_tile_disjoint(config: AppConfig, tile_a: int, tile_b: int, x: u32, y: u32)
    requires
        config.wf(),
        0 <= tile_a < spec_tile_count(config.tile_size, config.image_width) * spec_tile_count(
            config.tile_size,
            config.image_height,
        ),
        0 <= tile_b < spec_tile_count(config.tile_size, config.image_width) * spec_tile_count(
            config.tile_size,
            config.image_height,
        ),
        spec_in_tile(spec_tile_bounds(config, tile_a), x, y),
        spec_in_tile(spec_tile_bounds(config, tile_b), x, y),
    ensures
        tile_a == tile_b,
{
    let ntx = spec_tile_count(config.tile_size, config.image_width);
    lemma_tile_coords(config, tile_a, x, y);
    lemma_tile_coords(config, tile_b, x, y);
    vstd::arithmetic::div_mod::lemma_fundamental_div_mod(tile_a, ntx);
    vstd::arithmetic::div_mod::lemma_fundamental_div_mod(tile_b, ntx);
}

/// Byte offset of the pixel `(x, y)` in the image buffer. The image is
/// stored with the y-coordinate flipped: its first row is the top of the
/// picture, while tile coordinates count from the bottom.
pub open spec fn spec_image_offset(config: AppConfig, x: u32, y: u32) -> int {
    ((config.image_height - 1 - y) * config.image_width + x) * 4
}

/// Byte `c` of the buffer slot of pixel `(x, y)` in the image buffer.
pub open spec fn spec_image_byte(config: AppConfig, x: u32, y: u32, c: int) -> int {
    spec_image_offset(config, x, y) + c
}

/// Byte offset of the pixel `(x, y)` in the pixel buffer of the tile
/// `bounds` that holds it.
pub open spec fn spec_tile_offset(config: AppConfig, bounds: TileBounds, x: u32, y: u32) -> int {
    ((y - bounds.y_min) * config.tile_size + (x - bounds.x_min)) * 4
}

/// Byte `k` of the image buffer belongs to a pixel that the rectangle
/// `bounds` covers.
pub open spec fn spec_in_tile_bytes(config: AppConfig, bounds: TileBounds, k: int) -> bool {
    let q = k / 4;
    let x = q % config.image_width as int;
    let y = config.image_height - 1 - q / config.image_width as int;
    &&& bounds.x_min <= x <= bounds.x_max
    &&& bounds.y_min <= y <= bounds.y_max
}

/// A byte of the buffer slot of pixel `(x, y)` decodes back to that pixel.
proof fn lemma_image_byte_decode(config: AppConfig, x: u32, y: u32, k: int)
    requires
        config.image_width >= 1,
        config.image_height >= 1,
        x < config.image_width,
        y < config.image_height,
        spec_image_offset(config, x, y) <= k < spec_image_offset(config, x, y) + 4,
    ensures
        0 <= k < config.image_width * config.image_height * 4,
        k / 4 == (config.image_height - 1 - y) * config.image_width + x,
        (k / 4) % config.image_width as int == x as int,
        (k / 4) / config.image_width as int == config.image_height - 1 - y,
{
    let w = config.image_width as int;
    let h = config.image_height as int;
    let q = (h - 1 - y) * w + x;
    assert(0 <= q <= h * w - 1) by (nonlinear_arith)
        requires
            0 <= x < w,
            0 <= y < h,
            q == (h - 1 - y) * w + x,
    ;
    vstd::arithmetic::div_mod::lemma_fundamental_div_mod_converse(k, 4, q, k - q * 4);
    vstd::arithmetic::div_mod::lemma_fundamental_div_mod_converse(q, w, h - 1 - y, x as int);
    assert(q * 4 + 3 < h * w * 4) by (nonlinear_arith)
        requires
            q <= h * w - 1,
    ;
    assert(w * h * 4 == h * w * 4) by (nonlinear_arith);
}

/// Distinct pixels occupy disjoint byte ranges of the image buffer.
proof fn lemma_image_offset_disjoint(config: AppConfig, x1: u32, y1: u32, x2: u32, y2: u32)
    requires
        config.image_width >= 1,
        config.image_height >= 1,
        x1 < config.image_width,
        y1 < config.image_height,
        x2 < config.image_width,
        y2 < config.image_height,
        x1 != x2 || y1 != y2,
    ensures
        spec_image_offset(config, x1, y1) + 4 <= spec_image_offset(config, x2, y2)
            || spec_image_offset(config, x2, y2) + 4 <= spec_image_offset(config, x1, y1),
{
    lemma_image_byte_decode(config, x1, y1, spec_image_offset(config, x1, y1));
    lemma_image_byte_decode(config, x2, y2, spec_image_offset(config, x2, y2));
    let q1 = spec_image_offset(config, x1, y1) / 4;
    let q2 = spec_image_offset(config, x2, y2) / 4;
    assert(q1 != q2);
    vstd::arithmetic::div_mod::lemma_fundamental_div_mod(spec_image_offset(config, x1, y1), 4);
    vstd::arithmetic::div_mod::lemma_fundamental_div_mod(spec_image_offset(config, x2, y2), 4);
    vstd::arithmetic::div_mod::lemma_mod_bound(spec_image_offset(config, x1, y1), 4);
    vstd::arithmetic::div_mod::lemma_mod_bound(spec_image_offset(config, x2, y2), 4);
}

/// The pixels of the tile rectangle that stand before `(x, y)` in row-major
/// order: the rows below `y`, and the pixels left of `x` in its row.
pub open spec fn spec_pixel_done(bounds: TileBounds, x: u32, y: u32, px: u32, py: u32) -> bool {
    &&& spec_in_tile(bounds, px, py)
    &&& py < y || (py == y && px < x)
}

/// Writes the four colour channels of one pixel from the tile buffer into
/// the image buffer; no other byte of the image changes.
fn copy_pixel_bytes(image: &mut Vec<u8>, tile_pixels: &Vec<u8>, img_off: usize, tile_off: usize)
    requires
        img_off + 4 <= old(image).len(),
        tile_off + 4 <= tile_pixels.len(),
    ensures
        final(image).len() == old(image).len(),
        final(image)@[img_off as int] == tile_pixels@[tile_off as int],
        final(image)@[img_off + 1] == tile_pixels@[tile_off + 1],
        final(image)@[img_off + 2] == tile_pixels@[tile_off + 2],
        final(image)@[img_off + 3] == tile_pixels@[tile_off + 3],
        forall|k: int|
            0 <= k < old(image).len() && !(img_off <= k < img_off + 4) ==> final(image)@[k]
                == old(image)@[k],
{
    image[img_off] = tile_pixels[tile_off];
    image[img_off + 1] = tile_pixels[tile_off + 1];
    image[img_off + 2] = tile_pixels[tile_off + 2];
    image[img_off + 3] = tile_pixels[tile_off + 3];
}

/// Copy a tile to the image destination, flipping the row order: the tile's
/// bottom-up rows land in the image's top-down byte layout.
pub fn copy_tile(
    image: &mut Vec<u8>,
    tile_pixels: &Vec<u8>,
    tile_bounds: &TileBounds,
    config: &AppConfig,
)
    requires
        config.wf(),
        spec_tile_wf(*config, *tile_bounds),
        old(image).len() == config.image_width as int * config.image_height as int * 4,
        tile_pixels.len() == config.tile_size as int * config.tile_size as int * 4,
    ensures
        final(image).len() == old(image).len(),
        forall|px: u32, py: u32, c: int|
            spec_in_tile(*tile_bounds, px, py) && 0 <= c < 4 ==> final(image)@[
                #[trigger] spec_image_byte(*config, px, py, c)] == tile_pixels@[spec_tile_offset(
                *config,
                *tile_bounds,
                px,
                py,
            ) + c],
        forall|k: int|
            0 <= k < old(image).len() && !spec_in_tile_bytes(*config, *tile_bounds, k)
                ==> final(image)@[k] == old(image)@[k],
{
    let w = config.image_width;
    let h = config.image_height;
    let ts = config.tile_size as u32;

    let mut y = tile_bounds.y_min;
    while y <= tile_bounds.y_max
        invariant
            config.wf(),
            spec_tile_wf(*config, *tile_bounds),
            w == config.image_width,
            h == config.image_height,
            ts == config.tile_size,
            tile_bounds.y_min <= y <= tile_bounds.y_max + 1,
            image.len() == old(image).len(),
            old(image).len() == config.image_width as int * config.image_height as int * 4,
            tile_pixels.len() == config.tile_size as int * config.tile_size as int * 4,
            forall|px: u32, py: u32, c: int|
                spec_pixel_done(*tile_bounds, tile_bounds.x_min, y, px, py) && 0 <= c < 4
                    ==> image@[#[trigger] spec_image_byte(*config, px, py, c)] == tile_pixels@[
                spec_tile_offset(*config, *tile_bounds, px, py) + c],
            forall|k: int|
                0 <= k < old(image).len() && !spec_in_tile_bytes(*config, *tile_bounds, k)
                    ==> image@[k] == old(image)@[k],
        decreases tile_bounds.y_max + 1 - y,
    {
        let mut x = tile_bounds.x_min;
        while x <= tile_bounds.x_max
            invariant
                config.wf(),
                spec_tile_wf(*config, *tile_bounds),
                w == config.image_width,
                h == config.image_height,
                ts == config.tile_size,
                tile_bounds.y_min <= y <= tile_bounds.y_max,
                tile_bounds.x_min <= x <= tile_bounds.x_max + 1,
                image.len() == old(image).len(),
                old(image).len() == config.image_width as int * config.image_height as int * 4,
                tile_pixels.len() == config.tile_size as int * config.tile_size as int * 4,
                forall|px: u32, py: u32, c: int|
                    spec_pixel_done(*tile_bounds, x, y, px, py) && 0 <= c < 4 ==> image@[
                    #[trigger] spec_image_byte(*config, px, py, c)] == tile_pixels@[
                    spec_tile_offset(*config, *tile_bounds, px, py) + c],
                forall|k: int|
                    0 <= k < old(image).len() && !spec_in_tile_bytes(*config, *tile_bounds, k)
                        ==> image@[k] == old(image)@[k],
            decreases tile_bounds.x_max + 1 - x,
        {
            proof {
                assert((y - tile_bounds.y_min) * ts + (x - tile_bounds.x_min) <= (ts - 1) * ts + (
                ts - 1)) by (nonlinear_arith)
                    requires
                        0 <= y - tile_bounds.y_min < ts,
                        0 <= x - tile_bounds.x_min < ts,
                ;
                assert(((ts - 1) * ts + (ts - 1)) * 4 + 4 == ts * ts * 4) by (nonlinear_arith);
                assert(ts as int * ts as int <= 255 * 255) by (nonlinear_arith)
                    requires
                        ts <= 255,
                ;
                assert(((h - 1 - y) * w + x) * 4 + 4 <= w as int * h as int * 4) by (
                nonlinear_arith)
                    requires
                        0 <= x < w,
                        0 <= y < h,
                ;
            }
            let tile_off = ((y - tile_bounds.y_min) * ts + (x - tile_bounds.x_min)) as usize * 4;
            let img_off = ((h - 1 - y) as usize * w as usize + x as usize) * 4;

            copy_pixel_bytes(image, tile_pixels, img_off, tile_off);

            proof {
                assert forall|px: u32, py: u32, c: int|
                    spec_pixel_done(*tile_bounds, (x + 1) as u32, y, px, py) && 0 <= c
                        < 4 implies image@[#[trigger] spec_image_byte(*config, px, py, c)]
                    == tile_pixels@[spec_tile_offset(*config, *tile_bounds, px, py) + c] by {
                    if px == x && py == y {
                        assert(spec_image_offset(*config, px, py) == img_off);
                        assert(spec_tile_offset(*config, *tile_bounds, px, py) == tile_off);
                    } else {
                        lemma_image_offset_disjoint(*config, px, py, x, y);
                        lemma_image_byte_decode(
                            *config,
                            px,
                            py,
                            spec_image_offset(*config, px, py) + c,
                        );
                    }
                }
                assert forall|k: int|
                    0 <= k < old(image).len() && !spec_in_tile_bytes(
                        *config,
                        *tile_bounds,
                        k,
                    ) implies image@[k] == old(image)@[k] by {
                    if img_off <= k < img_off + 4 {
                        lemma_image_byte_decode(*config, x, y, k);
                    }
                }
            }

            x = x + 1;
        }
        y = y + 1;
    }
}

/// A tile whose rectangle holds the pixel `(x, y)` has the grid coordinates
/// of that pixel.
proof fn lemma_tile_coords(config: AppConfig, tile_idx: int, x: u32, y: u32)
    requires
        config.wf(),
        0 <= tile_idx < spec_tile_count(config.tile_size, config.image_width) * spec_tile_count(
            config.tile_size,
            config.image_height,
        ),
        spec_in_tile(spec_tile_bounds(config, tile_idx), x, y),
    ensures
        tile_idx % spec_tile_count(config.tile_size, config.image_width) == x as int
            / config.tile_size as int,
        tile_idx / spec_tile_count(config.tile_size, config.image_width) == y as int
            / config.tile_size as int,
{
    let ts = config.tile_size as int;
    let ntx = spec_tile_count(config.tile_size, config.image_width);
    let nty = spec_tile_count(config.tile_size, config.image_height);
    let tx = tile_idx % ntx;
    let ty = tile_idx / ntx;

    lemma_tile_count_bounds(config.tile_size, config.image_width);
    lemma_tile_count_bounds(config.tile_size, config.image_height);
    vstd::arithmetic::div_mod::lemma_mod_bound(tile_idx, ntx);
    vstd::arithmetic::div_mod::lemma_multiply_divide_lt(tile_idx, ntx, nty);
    vstd::arithmetic::div_mod::lemma_div_pos_is_pos(tile_idx, ntx);

    assert(0 <= tx * ts <= (ntx - 1) * ts && 0 <= ty * ts <= (nty - 1) * ts) by (nonlinear_arith)
        requires
            0 <= tx <= ntx - 1,
            0 <= ty <= nty - 1,
            ts >= 1,
    ;

    assert(tx * ts <= x < tx * ts + ts);
    assert(ty * ts <= y < ty * ts + ts);
    vstd::arithmetic::div_mod::lemma_fundamental_div_mod_converse(x as int, ts, tx, x - tx * ts);
    vstd::arithmetic::div_mod::lemma_fundamental_div_mod_converse(y as int, ts, ty, y - ty * ts);
}

} // verus!
