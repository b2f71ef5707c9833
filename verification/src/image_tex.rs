//! In-memory pixel store of an image texture.
//!
//! Decoding an image file is outside work and happens before this type is
//! built; the store itself — the shape invariant tying the byte buffer to
//! the image dimensions, and the clamped pixel lookups that texture
//! evaluation makes — is verified here.

use vstd::prelude::*;

verus! {

/// Bytes per pixel of the stored image (RGB).
pub const IMAGE_CHANNELS: usize = 3;

/// Models an image texture: a `width x height` grid of RGB pixels.
#[derive(Clone, Debug)]
pub struct Image {
    /// Width.
    width: u32,

    /// Height.
    height: u32,

    /// Pixel rows from the top of the image down, three bytes per pixel.
    data: Vec<u8>,
}

impl Image {
    /// Width of the stored image.
    pub closed spec fn spec_width(&self) -> u32 {
        self.width
    }

    /// Height of the stored image.
    pub closed spec fn spec_height(&self) -> u32 {
        self.height
    }

    /// The stored pixel bytes.
    pub closed spec fn spec_data(&self) -> Seq<u8> {
        self.data@
    }

    /// The store is non-degenerate and its buffer holds exactly one RGB
    /// triple per pixel.
    pub open spec fn wf(&self) -> bool {
        &&& self.spec_width() >= 1
        &&& self.spec_height() >= 1
        &&& self.spec_data().len() == self.spec_width() as int * self.spec_height() as int
            * IMAGE_CHANNELS as int
    }

    /// The RGB triple of the pixel in column `i` of row `j`.
    pub open spec fn spec_pixel(&self, i: u32, j: u32) -> (u8, u8, u8) {
        let offset = (j * self.spec_width() + i) * IMAGE_CHANNELS;
        (self.spec_data()[offset], self.spec_data()[offset + 1], self.spec_data()[offset + 2])
    }

    /// Creates a new image texture from decoded pixel data. Refused when a
    /// dimension is zero or the buffer does not hold one RGB triple per
    /// pixel.
    pub fn new(width: u32, height: u32, data: Vec<u8>) -> (image: Option<Image>)
        ensures
            image is Some <==> width >= 1 && height >= 1 && data@.len() == width as int
                * height as int * IMAGE_CHANNELS as int,
            image is Some ==> {
                let im = image->0;
                &&& im.wf()
                &&& im.spec_width() == width
                &&& im.spec_height() == height
                &&& im.spec_data() == data@
            },
    {
        if width == 0 || height == 0 {
            return None;
        }
        let n = data.len();
        match (width as usize).checked_mul(height as usize) {
            Some(pixels) => {
                match pixels.checked_mul(IMAGE_CHANNELS) {
                    Some(bytes) => {
                        if n == bytes {
                            Some(Image { width, height, data })
                        } else {
                            None
                        }
                    },
                    None => None,
                }
            },
            None => {
                proof {
                    assert(width as int * height as int * IMAGE_CHANNELS as int >= width as int
                        * height as int) by (nonlinear_arith)
                        requires
                            width as int * height as int > usize::MAX,
                    ;
                }
                None
            },
        }
    }

    /// Width of the image in pixels.
    pub fn width(&self) -> (width: u32)
        ensures
            width == self.spec_width(),
    {
        self.width
    }

    /// Height of the image in pixels.
    pub fn height(&self) -> (height: u32)
        ensures
            height == self.spec_height(),
    {
        self.height
    }

    /// The RGB triple of the pixel in column `i` of row `j`.
    pub fn pixel(&self, i: u32, j: u32) -> (rgb: (u8, u8, u8))
        requires
            self.wf(),
            i < self.spec_width(),
            j < self.spec_height(),
        ensures
            rgb == self.spec_pixel(i, j),
    {
        let _len = self.data.len();
        proof {
            lemma_pixel_offset_in_bounds(self.spec_width(), self.spec_height(), i, j);
        }
        let offset = (j as usize * self.width as usize + i as usize) * IMAGE_CHANNELS;
        (self.data[offset], self.data[offset + 1], self.data[offset + 2])
    }

    /// The RGB triple of the pixel at `(i, j)`, with each coordinate clamped
    /// to the image: a coordinate past the last column or row reads the last
    /// column or row.
    pub fn pixel_clamped(&self, i: u32, j: u32) -> (rgb: (u8, u8, u8))
        requires
            self.wf(),
        ensures
            rgb == self.spec_pixel(
                if i < self.spec_width() {
                    i
                } else {
                    (self.spec_width() - 1) as u32
                },
                if j < self.spec_height() {
                    j
                } else {
                    (self.spec_height() - 1) as u32
                },
            ),
    {
        let ci = if i < self.width {
            i
        } else {
            self.width - 1
        };
        let cj = if j < self.height {
            j
        } else {
            self.height - 1
        };
        self.pixel(ci, cj)
    }
}

/// The byte range of a pixel inside the image lies inside its buffer.
proof fn lemma_pixel_offset_in_bounds(width: u32, height: u32, i: u32, j: u32)
    requires
        width >= 1,
        height >= 1,
        i < width,
        j < height,
    ensures
        0 <= (j * width + i) * IMAGE_CHANNELS as int,
        (j * width + i) * IMAGE_CHANNELS as int + 2 < width as int * height as int
            * IMAGE_CHANNELS as int,
{
    assert((j * width + i) * 3 + 2 < width as int * height as int * 3) by (nonlinear_arith)
        requires
            0 <= i < width,
            0 <= j < height,
    ;
}

} // verus!
