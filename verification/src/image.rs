use vstd::prelude::*;

verus! {

/// Largest pixel count (`width * height`) an image may have, so that
/// the byte buffer stays addressable with 32-bit offsets.
pub const MAX_PIXEL_COUNT: u32 = 0x3FFF_FFFF;

/// An RGBA8 image: `width * height` pixels, row-major from the
/// top-left corner, four bytes per pixel in R, G, B, A order.
pub struct DynamicImage {
    pub width: u32,
    pub height: u32,
    pub data: Vec<u8>,
}

/// Every pixel in bounds of the offset arithmetic: the pixel's four
/// byte offsets stay below four times the pixel count.
proof fn lemma_pixel_offset_in_bounds(x: int, y: int, w: int, h: int)
    requires
        0 <= x < w,
        0 <= y < h,
    ensures
        0 <= y * w + x,
        y * w + x < w * h,
{
    assert(0 <= y * w + x && y * w + x < w * h) by (nonlinear_arith)
        requires
            0 <= x < w,
            0 <= y < h,
    ;
}

/// Distinct pixels have distinct row-major indices.
proof fn lemma_pixel_offset_injective(x1: int, y1: int, x2: int, y2: int, w: int, h: int)
    requires
        0 <= x1 < w,
        0 <= y1 < h,
        0 <= x2 < w,
        0 <= y2 < h,
        !(x1 == x2 && y1 == y2),
    ensures
        y1 * w + x1 != y2 * w + x2,
{
    assert(y1 * w + x1 != y2 * w + x2) by (nonlinear_arith)
        requires
            0 <= x1 < w,
            0 <= y1 < h,
            0 <= x2 < w,
            0 <= y2 < h,
            !(x1 == x2 && y1 == y2),
    ;
}

impl DynamicImage {
    /// The byte buffer holds exactly four bytes per pixel, and the
    /// pixel count is small enough for 32-bit offset arithmetic.
    pub closed spec fn wf(self) -> bool {
        &&& self.data@.len() == 4 * ((self.width as int) * (self.height as int))
        &&& (self.width as int) * (self.height as int) <= MAX_PIXEL_COUNT as int
    }

    /// The four bytes of the pixel at column `x`, row `y`.
    pub closed spec fn spec_pixel(self, x: int, y: int) -> (u8, u8, u8, u8) {
        let o = 4 * (y * (self.width as int) + x);
        (self.data@[o], self.data@[o + 1], self.data@[o + 2], self.data@[o + 3])
    }

    /// A fresh image of the given dimensions, all bytes zero (fully
    /// transparent black).
    pub fn new(width: u32, height: u32) -> (r: DynamicImage)
        requires
            (width as int) * (height as int) <= MAX_PIXEL_COUNT as int,
        ensures
            r.width == width,
            r.height == height,
            r.wf(),
            forall|x: int, y: int|
                0 <= x < width && 0 <= y < height ==> r.spec_pixel(x, y) == ((0u8, 0u8, 0u8, 0u8)),
    {
        let n: u32 = (width * height) * 4;
        let r = DynamicImage { width, height, data: vec![0u8; n as usize] };
        proof {
            assert forall|x: int, y: int| 0 <= x < width && 0 <= y < height implies r.spec_pixel(
                x,
                y,
            ) == ((0u8, 0u8, 0u8, 0u8)) by {
                lemma_pixel_offset_in_bounds(x, y, width as int, height as int);
            }
        }
        r
    }

    /// The row-major byte offset of the pixel at column `x`, row `y`.
    fn get_offset(&self, x: u32, y: u32) -> (o: usize)
        requires
            self.wf(),
            x < self.width,
            y < self.height,
        ensures
            o == 4 * ((y as int) * (self.width as int) + (x as int)),
            o + 3 < self.spec_data_len(),
    {
        proof {
            lemma_pixel_offset_in_bounds(
                x as int,
                y as int,
                self.width as int,
                self.height as int,
            );
        }
        ((((y * self.width) + x) * 4) as usize)
    }

    /// The length of the underlying byte buffer.
    pub closed spec fn spec_data_len(self) -> int {
        self.data@.len() as int
    }

    /// Reads the pixel at column `x`, row `y`.
    pub fn get_rgba(&self, x: u32, y: u32) -> (c: (u8, u8, u8, u8))
        requires
            self.wf(),
            x < self.width,
            y < self.height,
        ensures
            c == self.spec_pixel(x as int, y as int),
    {
        let offset = self.get_offset(x, y);
        (self.data[offset], self.data[offset + 1], self.data[offset + 2], self.data[offset + 3])
    }

    /// Writes the pixel at column `x`, row `y`, leaving every other
    /// pixel and the dimensions unchanged.
    pub fn set_rgba(&mut self, x: u32, y: u32, color: (u8, u8, u8, u8))
        requires
            old(self).wf(),
            x < old(self).width,
            y < old(self).height,
        ensures
            final(self).wf(),
            final(self).width == old(self).width,
            final(self).height == old(self).height,
            final(self).spec_pixel(x as int, y as int) == color,
            forall|x2: int, y2: int|
                0 <= x2 < old(self).width && 0 <= y2 < old(self).height && !(x2 == x as int && y2
                    == y as int) ==> final(self).spec_pixel(x2, y2) == old(self).spec_pixel(
                    x2,
                    y2,
                ),
    {
        let offset = self.get_offset(x, y);
        self.data[offset] = color.0;
        self.data[offset + 1] = color.1;
        self.data[offset + 2] = color.2;
        self.data[offset + 3] = color.3;
        proof {
            assert forall|x2: int, y2: int|
                0 <= x2 < old(self).width && 0 <= y2 < old(self).height && !(x2 == x as int && y2
                    == y as int) implies self.spec_pixel(x2, y2) == old(self).spec_pixel(
                x2,
                y2,
            ) by {
                lemma_pixel_offset_in_bounds(x2, y2, self.width as int, self.height as int);
                lemma_pixel_offset_injective(
                    x2,
                    y2,
                    x as int,
                    y as int,
                    self.width as int,
                    self.height as int,
                );
            }
        }
    }

    /// Paints every pixel opaque black.
    pub fn set_black(&mut self)
        requires
            old(self).wf(),
        ensures
            final(self).wf(),
            final(self).width == old(self).width,
            final(self).height == old(self).height,
            forall|x: int, y: int|
                0 <= x < old(self).width && 0 <= y < old(self).height ==> final(self).spec_pixel(
                    x,
                    y,
                ) == ((0u8, 0u8, 0u8, 255u8)),
    {
        let mut y: u32 = 0;
        while y < self.height
            invariant
                self.wf(),
                self.width == old(self).width,
                self.height == old(self).height,
                0 <= y <= self.height,
                forall|x2: int, y2: int|
                    0 <= x2 < self.width && 0 <= y2 < y ==> self.spec_pixel(x2, y2) == ((
                    0u8,
                    0u8,
                    0u8,
                    255u8,
                )),
            decreases self.height - y,
        {
            let mut x: u32 = 0;
            while x < self.width
                invariant
                    self.wf(),
                    self.width == old(self).width,
                    self.height == old(self).height,
                    0 <= y < self.height,
                    0 <= x <= self.width,
                    forall|x2: int, y2: int|
                        0 <= x2 < self.width && 0 <= y2 < y ==> self.spec_pixel(x2, y2) == ((
                        0u8,
                        0u8,
                        0u8,
                        255u8,
                    )),
                    forall|x2: int|
                        0 <= x2 < x ==> self.spec_pixel(x2, y as int) == ((0u8, 0u8, 0u8, 255u8)),
                decreases self.width - x,
            {
                self.set_rgba(x, y, (0, 0, 0, 255));
                x = x + 1;
            }
            y = y + 1;
        }
    }
}

} // verus!
