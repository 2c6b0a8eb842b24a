//! A rectangular grid of pixels stored row by row, as uploaded to a texture.
use vstd::prelude::*;

use crate::error::SglError;
use crate::pixel::{pixel_of, Pixel};

verus! {

/// The pixels that a byte sequence holds, four bytes (red, green, blue,
/// alpha) each.
pub open spec fn pixels_of_bytes(bytes: Seq<u8>) -> Seq<Pixel> {
    Seq::new(
        bytes.len() / 4,
        |i: int| pixel_of(bytes[4 * i], bytes[4 * i + 1], bytes[4 * i + 2], bytes[4 * i + 3]),
    )
}

/// Channel `k` (0 red, 1 green, 2 blue, 3 alpha) of a pixel.
pub open spec fn channel(p: Pixel, k: int) -> u8 {
    if k == 0 {
        p.r
    } else if k == 1 {
        p.g
    } else if k == 2 {
        p.b
    } else {
        p.a
    }
}

/// The bytes of a pixel sequence: each pixel's channels in order.
pub open spec fn bytes_of_pixels(pixels: Seq<Pixel>) -> Seq<u8> {
    Seq::new(4 * pixels.len(), |j: int| channel(pixels[j / 4], j % 4))
}

pub struct Bitmap {
    width: u32,
    height: u32,
    pixels: Vec<Pixel>,
}

impl Bitmap {
    pub closed spec fn spec_width(&self) -> nat {
        self.width as nat
    }

    pub closed spec fn spec_height(&self) -> nat {
        self.height as nat
    }

    /// The pixels row by row, from the top left.
    pub closed spec fn spec_pixels(&self) -> Seq<Pixel> {
        self.pixels@
    }

    /// There is one pixel for each position of the grid.
    pub open spec fn wf(&self) -> bool {
        self.spec_pixels().len() == self.spec_width() * self.spec_height()
    }

    /// A bitmap of the given size, every pixel opaque white.
    pub fn new(width: u32, height: u32) -> (b: Bitmap)
        requires
            width * height <= usize::MAX,
        ensures
            b.wf(),
            b.spec_width() == width,
            b.spec_height() == height,
            b.spec_pixels() == Seq::new(
                (width * height) as nat,
                |i: int| pixel_of(0xff, 0xff, 0xff, 0xff),
            ),
    {
        let count = width as usize * height as usize;
        let mut pixels: Vec<Pixel> = Vec::with_capacity(count);
        let mut i: usize = 0;
        while i < count
            invariant
                i <= count,
                pixels@.len() == i,
                forall|j: int| 0 <= j < i ==> #[trigger] pixels@[j] == pixel_of(0xff, 0xff, 0xff, 0xff),
            decreases count - i,
        {
            pixels.push(Pixel::default());
            i += 1;
        }
        let b = Bitmap { width, height, pixels };
        assert(b.spec_pixels() =~= Seq::new(
            (width * height) as nat,
            |i: int| pixel_of(0xff, 0xff, 0xff, 0xff),
        ));
        b
    }

    /// A bitmap of the given size holding `pixels` row by row; an error when
    /// their number is not `width * height`.
    pub fn from_pixels(width: u32, height: u32, pixels: Vec<Pixel>) -> (r: Result<Bitmap, SglError>)
        ensures
            r is Ok <==> pixels@.len() == width * height,
            r is Ok ==> {
                let b = r->Ok_0;
                &&& b.wf()
                &&& b.spec_width() == width
                &&& b.spec_height() == height
                &&& b.spec_pixels() == pixels@
            },
    {
        proof {
            let (w, h) = (width as int, height as int);
            assert(w * h <= u32::MAX as int * u32::MAX as int) by (nonlinear_arith)
                requires
                    0 <= w <= u32::MAX,
                    0 <= h <= u32::MAX,
            ;
        }
        if width as u64 * height as u64 != pixels.len() as u64 {
            return Err(
                SglError::General("pixel count does not match width * height".to_string()),
            );
        }
        Ok(Bitmap { width, height, pixels })
    }

    /// A bitmap of the given size from RGBA bytes, four per pixel, row by row;
    /// an error when the bytes do not split into exactly `width * height`
    /// pixels.
    pub fn from_rgba_bytes(width: u32, height: u32, bytes: &[u8]) -> (r: Result<Bitmap, SglError>)
        ensures
            r is Ok <==> bytes@.len() % 4 == 0 && bytes@.len() / 4 == width * height,
            r is Ok ==> {
                let b = r->Ok_0;
                &&& b.wf()
                &&& b.spec_width() == width
                &&& b.spec_height() == height
                &&& b.spec_pixels() == pixels_of_bytes(bytes@)
            },
    {
        let len = bytes.len();
        if len % 4 != 0 {
            return Err(SglError::General("unable to convert byte to pixel".to_string()));
        }
        let count = len / 4;
        let mut pixels: Vec<Pixel> = Vec::with_capacity(count);
        let mut i: usize = 0;
        while i < count
            invariant
                len == bytes@.len(),
                count == len / 4,
                bytes@.len() % 4 == 0,
                i <= count,
                pixels@.len() == i,
                forall|j: int| 0 <= j < i ==> #[trigger] pixels@[j] == pixels_of_bytes(bytes@)[j],
            decreases count - i,
        {
            assert(4 * i + 3 < bytes@.len());
            let at = 4 * i;
            pixels.push(Pixel::rgba(bytes[at], bytes[at + 1], bytes[at + 2], bytes[at + 3]));
            i += 1;
        }
        assert(pixels@ =~= pixels_of_bytes(bytes@));
        Bitmap::from_pixels(width, height, pixels)
    }

    pub fn width(&self) -> (w: u32)
        ensures
            w == self.spec_width(),
    {
        self.width
    }

    pub fn height(&self) -> (h: u32)
        ensures
            h == self.spec_height(),
    {
        self.height
    }

    pub fn pixels(&self) -> (p: &[Pixel])
        ensures
            p@ == self.spec_pixels(),
    {
        self.pixels.as_slice()
    }

    /// The pixels, for writing in place; the size stays as it is.
    pub fn pixels_mut(&mut self) -> (p: &mut [Pixel])
        ensures
            p@ == old(self).spec_pixels(),
            final(self).spec_pixels() == final(p)@,
            final(self).spec_width() == old(self).spec_width(),
            final(self).spec_height() == old(self).spec_height(),
    {
        self.pixels.as_mut_slice()
    }

    /// Sets the pixel in column `x` of row `y`; does nothing outside the grid.
    pub fn set_pixel(&mut self, x: u32, y: u32, pixel: Pixel)
        requires
            old(self).wf(),
        ensures
            final(self).wf(),
            final(self).spec_width() == old(self).spec_width(),
            final(self).spec_height() == old(self).spec_height(),
            final(self).spec_pixels() == if x < old(self).spec_width() && y < old(self).spec_height() {
                old(self).spec_pixels().update(y * old(self).spec_width() + x, pixel)
            } else {
                old(self).spec_pixels()
            },
    {
        let len = self.pixels.len();
        if x < self.width && y < self.height {
            proof {
                let w = self.width as int;
                let h = self.height as int;
                assert(y * w + x < w * h) by (nonlinear_arith)
                    requires
                        0 <= x < w,
                        0 <= y < h,
                ;
                assert(len == w * h);
                assert(y * w <= y * w + x);
            }
            let index = y as usize * self.width as usize + x as usize;
            self.pixels.set(index, pixel);
        }
    }

    /// The pixels' bytes, four per pixel in channel order, as a texture
    /// upload reads them.
    pub fn to_bytes(&self) -> (bytes: Vec<u8>)
        ensures
            bytes@ == bytes_of_pixels(self.spec_pixels()),
    {
        let n = self.pixels.len();
        let mut bytes: Vec<u8> = Vec::new();
        let mut i: usize = 0;
        while i < n
            invariant
                n == self.pixels@.len(),
                i <= n,
                bytes@ =~= bytes_of_pixels(self.pixels@.take(i as int)),
            decreases n - i,
        {
            let p = self.pixels[i];
            bytes.push(p.r);
            bytes.push(p.g);
            bytes.push(p.b);
            bytes.push(p.a);
            i += 1;
            assert(bytes@ =~= bytes_of_pixels(self.pixels@.take(i as int)));
        }
        assert(self.pixels@.take(n as int) =~= self.pixels@);
        bytes
    }

    /// The row pitch and row count of an upload of this bitmap into a texture
    /// of the given size: `(4 * width, height)`. An error when the sizes differ,
    /// or when a row's bytes do not fit a `u32`.
    pub fn upload_layout(&self, texture_width: u32, texture_height: u32) -> (r: Result<(u32, u32), SglError>)
        ensures
            r is Ok <==> self.spec_width() == texture_width && self.spec_height() == texture_height
                && 4 * self.spec_width() <= u32::MAX,
            r is Ok ==> r->Ok_0.0 == 4 * self.spec_width() && r->Ok_0.1 == self.spec_height(),
    {
        if self.width != texture_width || self.height != texture_height {
            return Err(SglError::General("bitmap has differing dimensions to texture".to_string()));
        }
        if self.width > u32::MAX / 4 {
            return Err(SglError::General("bitmap rows are too long for a texture upload".to_string()));
        }
        Ok((4 * self.width, self.height))
    }
}

} // verus!
