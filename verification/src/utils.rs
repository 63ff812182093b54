//! Result codes as results, and the rows of a frame.

use crate::error::{failure_text, join_failure};
use crate::frame::{lemma_pixel_in_bounds, Frame};
use vstd::prelude::*;
use vstd::slice::slice_subrange;

verus! {

/// A native result code read as a result: a code that is not negative is
/// the value, a negative one is a failure.
pub trait ToU32Result: Sized {
    /// Whether the code is no failure.
    spec fn succeeded(self) -> bool;

    /// The code's value where it is no failure.
    spec fn value(self) -> u32;

    /// The value of a code that is no failure; for a failure the message
    /// made of `diagnostic`, the decoder's text for the code, and `err_str`,
    /// which says what was being done.
    fn to_u32_result(self, diagnostic: &str, err_str: &str) -> (r: Result<u32, String>)
        ensures
            match r {
                Ok(value) => self.succeeded() && value == self.value(),
                Err(message) => !self.succeeded() && message@ == failure_text(
                    diagnostic@,
                    err_str@,
                ),
            },
    ;
}

impl ToU32Result for i32 {
    open spec fn succeeded(self) -> bool {
        self >= 0
    }

    open spec fn value(self) -> u32 {
        self as u32
    }

    fn to_u32_result(self, diagnostic: &str, err_str: &str) -> (r: Result<u32, String>) {
        if self >= 0 {
            Ok(self as u32)
        } else {
            Err(join_failure(diagnostic, err_str))
        }
    }
}

/// The rows of a frame.
#[derive(Clone, Copy, Debug)]
pub struct PixelData<'a>(pub &'a Frame);

impl<'a> PixelData<'a> {
    /// Row `y` of the frame: as many bytes as lie between one row and the
    /// next.
    pub fn index(&self, y: usize) -> (row: &'a [u8])
        requires
            self.0.wf(),
            y < self.0@.height,
        ensures
            row@ == self.0@.row(y as int),
    {
        let data: &'a [u8] = self.0.data();
        let stride: usize = self.0.stride();
        let len: usize = data.len();
        proof {
            lemma_pixel_in_bounds(self.0@, 0, y as int);
        }
        slice_subrange(data, y * stride, y * stride + stride)
    }
}

/// What has rows of pixels.
pub trait Pixelable {
    /// The rows of this value.
    fn pixels(&self) -> PixelData<'_>;
}

impl Pixelable for Frame {
    fn pixels(&self) -> (rows: PixelData<'_>)
        ensures
            rows.0 == self,
    {
        PixelData(self)
    }
}

} // verus!
