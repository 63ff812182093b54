//! A decoded frame in the working layout: one plane of packed luma and
//! chroma, two bytes per pixel, chroma shared by each pair of columns.

use vstd::prelude::*;

verus! {

/// What a frame holds, as mathematical values.
pub struct FrameView {
    pub width: int,
    pub height: int,
    pub stride: int,
    pub data: Seq<u8>,
    pub pts: int,
}

/// The bytes that a row of `width` pixels takes: four for each pair of
/// columns, an odd last column counting as a pair.
pub open spec fn min_stride(width: int) -> int {
    4 * ((width + 1) / 2)
}

impl FrameView {
    /// The frame has pixels, each row holds all its column pairs, and the
    /// buffer holds every row.
    pub open spec fn wf(self) -> bool {
        &&& 1 <= self.width <= i32::MAX
        &&& 1 <= self.height <= i32::MAX
        &&& min_stride(self.width) <= self.stride <= i32::MAX
        &&& self.stride * self.height <= self.data.len()
    }

    /// Where the luma sample of pixel (`x`, `y`) lies in the buffer.
    pub open spec fn offset(self, x: int, y: int) -> int {
        y * self.stride + 2 * x
    }

    /// The luma sample of pixel (`x`, `y`).
    pub open spec fn luma(self, x: int, y: int) -> u8 {
        self.data[self.offset(x, y)]
    }

    /// The blue-difference sample that pixel (`x`, `y`) shares with its
    /// neighbour: behind the luma sample in an even column, before it in
    /// an odd one.
    pub open spec fn chroma_u(self, x: int, y: int) -> u8 {
        if x % 2 == 0 {
            self.data[self.offset(x, y) + 1]
        } else {
            self.data[self.offset(x, y) - 1]
        }
    }

    /// The red-difference sample that pixel (`x`, `y`) shares with its
    /// neighbour: three bytes behind the luma sample in an even column, one
    /// byte behind it in an odd one.
    pub open spec fn chroma_v(self, x: int, y: int) -> u8 {
        if x % 2 == 0 {
            self.data[self.offset(x, y) + 3]
        } else {
            self.data[self.offset(x, y) + 1]
        }
    }

    /// Row `y` with its padding.
    pub open spec fn row(self, y: int) -> Seq<u8> {
        self.data.subrange(y * self.stride, (y + 1) * self.stride)
    }
}

/// In a well-formed frame the samples of every pixel lie inside its row, and
/// every row inside the buffer.
pub proof fn lemma_pixel_in_bounds(f: FrameView, x: int, y: int)
    requires
        f.wf(),
        0 <= x < f.width,
        0 <= y < f.height,
    ensures
        0 <= y * f.stride,
        (y + 1) * f.stride == y * f.stride + f.stride,
        y * f.stride + f.stride <= f.data.len(),
        2 * x + 1 < f.stride,
        x % 2 == 0 ==> 2 * x + 3 < f.stride,
{
    assert(0 <= y * f.stride && (y + 1) * f.stride <= f.stride * f.height) by (nonlinear_arith)
        requires
            0 <= y < f.height,
            0 <= f.stride,
    ;
    assert((y + 1) * f.stride == y * f.stride + f.stride) by (nonlinear_arith);
}

/// A frame in the working layout.
#[derive(Debug)]
pub struct Frame {
    width: usize,
    height: usize,
    stride: usize,
    data: Vec<u8>,
    pts: i64,
}

impl View for Frame {
    type V = FrameView;

    closed spec fn view(&self) -> FrameView {
        FrameView {
            width: self.width as int,
            height: self.height as int,
            stride: self.stride as int,
            data: self.data@,
            pts: self.pts as int,
        }
    }
}

impl Frame {
    /// Whether the frame's buffer fits its dimensions.
    pub open spec fn wf(&self) -> bool {
        self@.wf()
    }

    /// Takes a buffer as a frame of the given dimensions, if it can hold
    /// one: `stride` is the number of bytes from one row to the next, `pts`
    /// the presentation timestamp.
    pub fn new(width: i32, height: i32, stride: i32, data: Vec<u8>, pts: i64) -> (frame: Option<
        Frame,
    >)
        ensures
            match frame {
                Some(f) => f.wf() && f@ == (FrameView {
                    width: width as int,
                    height: height as int,
                    stride: stride as int,
                    data: data@,
                    pts: pts as int,
                }),
                None => !(FrameView {
                    width: width as int,
                    height: height as int,
                    stride: stride as int,
                    data: data@,
                    pts: pts as int,
                }).wf(),
            },
    {
        if width < 1 || height < 1 || stride < 1 {
            return None;
        }
        let pairs: u64 = (width as u64 + 1) / 2;
        if 4 * pairs > stride as u64 {
            return None;
        }
        proof {
            assert(stride as int * height as int <= 0x7fff_ffff * 0x7fff_ffff) by (nonlinear_arith)
                requires
                    0 <= stride <= 0x7fff_ffff,
                    0 <= height <= 0x7fff_ffff,
            ;
        }
        let needed: u64 = (stride as u64) * (height as u64);
        if needed > data.len() as u64 {
            return None;
        }
        Some(
            Frame {
                width: width as usize,
                height: height as usize,
                stride: stride as usize,
                data,
                pts,
            },
        )
    }

    /// The number of pixel columns.
    pub fn width(&self) -> (width: usize)
        ensures
            width == self@.width,
    {
        self.width
    }

    /// The number of pixel rows.
    pub fn height(&self) -> (height: usize)
        ensures
            height == self@.height,
    {
        self.height
    }

    /// The number of bytes from one row to the next.
    pub fn stride(&self) -> (stride: usize)
        ensures
            stride == self@.stride,
    {
        self.stride
    }

    /// The presentation timestamp.
    pub fn pts(&self) -> (pts: i64)
        ensures
            pts == self@.pts,
    {
        self.pts
    }

    /// The whole buffer.
    pub fn data(&self) -> (data: &[u8])
        ensures
            data@ == self@.data,
    {
        self.data.as_slice()
    }

    /// The luma sample of pixel (`x`, `y`).
    pub fn luma(&self, x: usize, y: usize) -> (sample: u8)
        requires
            self.wf(),
            x < self@.width,
            y < self@.height,
        ensures
            sample == self@.luma(x as int, y as int),
    {
        let len: usize = self.data.len();
        proof {
            lemma_pixel_in_bounds(self@, x as int, y as int);
        }
        self.data[y * self.stride + 2 * x]
    }

    /// The chroma pair of pixel (`x`, `y`): blue difference, then red
    /// difference.
    pub fn chroma(&self, x: usize, y: usize) -> (pair: (u8, u8))
        requires
            self.wf(),
            x < self@.width,
            y < self@.height,
        ensures
            pair.0 == self@.chroma_u(x as int, y as int),
            pair.1 == self@.chroma_v(x as int, y as int),
    {
        let len: usize = self.data.len();
        proof {
            lemma_pixel_in_bounds(self@, x as int, y as int);
        }
        let base: usize = y * self.stride + 2 * x;
        if x % 2 == 0 {
            (self.data[base + 1], self.data[base + 3])
        } else {
            (self.data[base - 1], self.data[base + 1])
        }
    }
}

} // verus!
