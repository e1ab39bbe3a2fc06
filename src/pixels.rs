use vstd::prelude::*;

verus! {

/// Byte offset of pixel `(x, y)` in a row-major RGBA8 buffer of the given width.
pub open spec fn pixel_offset(width: int, x: int, y: int) -> int {
    (y * width + x) * 4
}

/// The four samples (red, green, blue, alpha) of pixel `(x, y)`.
pub open spec fn pixel_of(data: Seq<u8>, width: int, x: int, y: int) -> Seq<u8> {
    data.subrange(pixel_offset(width, x, y), pixel_offset(width, x, y) + 4)
}

/// A width x height array of RGBA8 samples, row-major, four bytes per pixel.
pub struct PixelBuffer {
    pub width: u32,
    pub height: u32,
    pub data: Vec<u8>,
}

impl PixelBuffer {
    /// The data holds exactly one RGBA8 sample for each pixel.
    pub open spec fn wf(&self) -> bool {
        self.data@.len() == self.width as int * self.height as int * 4
    }

    pub open spec fn in_bounds(&self, x: int, y: int) -> bool {
        0 <= x < self.width && 0 <= y < self.height
    }

    pub open spec fn pixel(&self, x: int, y: int) -> Seq<u8> {
        pixel_of(self.data@, self.width as int, x, y)
    }

    /// Wraps raw RGBA8 data; `None` when its length is not `width * height * 4`.
    pub fn from_raw(width: u32, height: u32, data: Vec<u8>) -> (r: Option<PixelBuffer>)
        ensures
            r is Some <==> data@.len() == width as int * height as int * 4,
            r matches Some(p) ==> p.wf() && p.width == width && p.height == height && p.data@
                == data@,
    {
        assert((width as int) * (height as int) <= u32::MAX as int * u32::MAX as int)
            by (nonlinear_arith);
        let area: u64 = (width as u64) * (height as u64);
        let len = data.len();
        if len % 4 == 0 && (len / 4) as u64 == area {
            Some(PixelBuffer { width, height, data })
        } else {
            None
        }
    }

    pub fn width(&self) -> (r: u32)
        ensures
            r == self.width,
    {
        self.width
    }

    pub fn height(&self) -> (r: u32)
        ensures
            r == self.height,
    {
        self.height
    }

    /// The samples of pixel `(x, y)` as (red, green, blue, alpha).
    pub fn get_pixel(&self, x: u32, y: u32) -> (r: (u8, u8, u8, u8))
        requires
            self.wf(),
            self.in_bounds(x as int, y as int),
        ensures
            seq![r.0, r.1, r.2, r.3] == self.pixel(x as int, y as int),
    {
        let n = self.data.len();
        let w = self.width as usize;
        let h = self.height as usize;
        let xi = x as usize;
        let yi = y as usize;
        proof {
            lemma_pixel_in_buffer(w as int, h as int, xi as int, yi as int);
            assert(yi * w <= yi * w + xi);
            assert(self.data@.len() == w * h * 4);
            assert(self.data@.len() == n);
        }
        let i: usize = (yi * w + xi) * 4;
        let r = (self.data[i], self.data[i + 1], self.data[i + 2], self.data[i + 3]);
        assert(seq![r.0, r.1, r.2, r.3] =~= self.pixel(x as int, y as int));
        r
    }
}

/// A pixel inside a `w` x `h` image lies wholly inside its buffer.
pub proof fn lemma_pixel_in_buffer(w: int, h: int, x: int, y: int)
    requires
        0 <= x < w,
        0 <= y < h,
    ensures
        0 <= pixel_offset(w, x, y),
        pixel_offset(w, x, y) + 4 <= w * h * 4,
        y * w + x < w * h,
{
    assert(y * w + x < w * h) by (nonlinear_arith)
        requires
            0 <= x < w,
            0 <= y < h,
    ;
    assert(0 <= y * w) by (nonlinear_arith)
        requires
            0 <= y,
            0 <= w,
    ;
}

} // verus!
