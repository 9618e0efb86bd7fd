//! Pixel storage for image-backed textures.
//!
//! The texture keeps a decoded image as a flat row-major byte buffer, three
//! bytes per pixel. Decoding a file format is delegated to the `image`
//! crate; everything after the decode — the shape invariant of the buffer,
//! pixel addressing and the clamping of texel coordinates — is verified.

use vstd::prelude::*;

verus! {

/// What the `image` crate decodes a byte stream to: a flat RGB buffer and
/// the two dimensions, or nothing when the stream is not a readable image.
/// The decode is a function of the bytes alone.
pub uninterp spec fn decoded_rgb8(bytes: Seq<u8>) -> Option<(Seq<u8>, u32, u32)>;

/// Relies on `image::load_from_memory` and `DynamicImage::to_rgb8`: a
/// successful decode yields an RGB buffer of exactly `width * height`
/// pixels, three bytes each, and depends on the input bytes alone.
#[verifier::external_body]
fn decode_rgb8(bytes: &[u8]) -> (r: Option<(Vec<u8>, u32, u32)>)
    ensures
        (match (r, decoded_rgb8(bytes@)) {
            (Some((data, width, height)), Some((d, w, h))) => {
                &&& data@ == d
                &&& width == w
                &&& height == h
                &&& data@.len() == 3 * width * height
            },
            (None, None) => true,
            _ => false,
        }),
{
    match image::load_from_memory(bytes) {
        Ok(img) => {
            let rgb = img.to_rgb8();
            let (width, height) = (rgb.width(), rgb.height());
            Some((rgb.into_raw(), width, height))
        },
        Err(_) => None,
    }
}

/// An RGB image kept as one row-major byte buffer, three bytes per pixel.
#[derive(Clone)]
pub struct ImageTexture {
    pub data: Vec<u8>,
    pub width: u32,
    pub height: u32,
    pub bytes_per_scanline: u32,
}

impl ImageTexture {
    /// The buffer holds exactly three bytes for each of the
    /// `width * height` pixels, row by row.
    pub open spec fn wf(self) -> bool {
        &&& self.bytes_per_scanline == 3 * self.width
        &&& self.data@.len() == 3 * self.width * self.height
    }

    /// The three bytes of the pixel in column `i` of row `j`.
    pub open spec fn texel(self, i: int, j: int) -> (u8, u8, u8) {
        let base = 3 * (j * self.width + i);
        (self.data@[base], self.data@[base + 1], self.data@[base + 2])
    }

    /// A texture with no pixels, the stand-in for a missing image.
    pub fn new() -> (t: Self)
        ensures
            t.wf(),
            t.data@.len() == 0,
            t.width == 0,
            t.height == 0,
    {
        Self { data: Vec::new(), width: 0, height: 0, bytes_per_scanline: 0 }
    }

    /// Whether this is the pixel-less stand-in.
    pub fn empty(&self) -> (r: bool)
        ensures
            r == (self.data@.len() == 0),
    {
        self.data.len() == 0
    }

    /// Wraps an already decoded buffer, accepting it exactly when its length
    /// matches the dimensions and a scanline's byte count fits `u32`.
    pub fn from_rgb8(data: Vec<u8>, width: u32, height: u32) -> (r: Option<Self>)
        ensures
            (match r {
                Some(t) => {
                    &&& data@.len() == 3 * width * height
                    &&& 3 * width <= u32::MAX
                    &&& t.data@ == data@
                    &&& t.width == width
                    &&& t.height == height
                    &&& t.wf()
                },
                None => data@.len() != 3 * width * height || 3 * width > u32::MAX,
            }),
    {
        proof {
            assert((3u128 * (width as u128)) * (height as u128) < u128::MAX) by (nonlinear_arith)
                requires
                    width <= u32::MAX,
                    height <= u32::MAX,
            ;
        }
        if width as u128 * 3 <= u32::MAX as u128 && data.len() as u128 == 3 * (width as u128)
            * (height as u128) {
            Some(Self { data, width, height, bytes_per_scanline: 3 * width })
        } else {
            None
        }
    }

    /// Decodes an image file's bytes into a texture; `None` when the bytes
    /// are not a readable image (or its rows would overrun a `u32`).
    pub fn construct(bytes: &[u8]) -> (r: Option<Self>)
        ensures
            (match (r, decoded_rgb8(bytes@)) {
                (Some(t), Some((d, w, h))) => {
                    &&& t.data@ == d
                    &&& t.width == w
                    &&& t.height == h
                    &&& t.wf()
                },
                (None, Some((d, w, h))) => 3 * w > u32::MAX,
                (None, None) => true,
                (Some(_), None) => false,
            }),
    {
        match decode_rgb8(bytes) {
            Some((data, width, height)) => Self::from_rgb8(data, width, height),
            None => None,
        }
    }

    /// The pixel in column `i` of row `j`.
    pub fn pixel(&self, i: u32, j: u32) -> (rgb: (u8, u8, u8))
        requires
            self.wf(),
            i < self.width,
            j < self.height,
        ensures
            rgb == self.texel(i as int, j as int),
    {
        let ghost w = self.width as int;
        let ghost h = self.height as int;
        proof {
            assert(3 * ((j as int) * w + (i as int)) + 2 < 3 * w * h) by (nonlinear_arith)
                requires
                    0 <= (i as int) && (i as int) < w,
                    0 <= (j as int) && (j as int) < h,
            ;
        }
        // Establishes that the buffer's length, and so the index below,
        // fits in a usize.
        let len: usize = self.data.len();
        let base64: u64 = 3 * ((j as u64) * (self.width as u64) + (i as u64));
        proof {
            assert(base64 < len);
        }
        let base: usize = base64 as usize;
        (self.data[base], self.data[base + 1], self.data[base + 2])
    }

    /// The pixel at `(i, j)` after clamping both coordinates into the
    /// image, as texel lookups do for coordinates rounded up to the edge.
    pub fn clamped_pixel(&self, i: u32, j: u32) -> (rgb: (u8, u8, u8))
        requires
            self.wf(),
            self.width > 0,
            self.height > 0,
        ensures
            rgb == self.texel(
                if i < self.width { i as int } else { self.width - 1 },
                if j < self.height { j as int } else { self.height - 1 },
            ),
    {
        let ci: u32 = if i < self.width { i } else { self.width - 1 };
        let cj: u32 = if j < self.height { j } else { self.height - 1 };
        self.pixel(ci, cj)
    }
}

} // verus!
