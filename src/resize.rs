use vstd::prelude::*;
use crate::error::ImageError;
use crate::image::Image;

verus! {

/// The geometry of an image can be handed to the codec as C `int`s,
/// row stride `width * depth` included.
pub open spec fn fits_codec(image: Image<u8>) -> bool {
    &&& image.width <= i32::MAX
    &&& image.height <= i32::MAX
    &&& image.depth <= i32::MAX
    &&& image.width * image.depth <= i32::MAX
}

/// What the codec's 8-bit resize is called with.
#[derive(Debug, Clone, Copy, PartialEq, Eq, Structural)]
pub struct ResizeRequest {
    pub input_width: i32,
    pub input_height: i32,
    pub input_stride: i32,
    pub output_width: i32,
    pub output_height: i32,
    pub output_stride: i32,
    pub channels: i32,
}

/// A resize of `input` into `output` goes to the codec only when both images
/// have one depth, both are complete and both fit the codec's integers.
pub open spec fn resize_request_of(input: Image<u8>, output: Image<u8>) -> Result<ResizeRequest, ImageError> {
    if input.depth == output.depth && input.wf() && output.wf() && fits_codec(input) && fits_codec(output) {
        Ok(ResizeRequest {
            input_width: input.width as i32,
            input_height: input.height as i32,
            input_stride: (input.width * input.depth) as i32,
            output_width: output.width as i32,
            output_height: output.height as i32,
            output_stride: (output.width * output.depth) as i32,
            channels: input.depth as i32,
        })
    } else {
        Err(ImageError::ResizeFailed)
    }
}

/// Row stride in bytes as a C `int`, where it fits.
fn codec_stride(width: usize, depth: usize) -> (r: Option<i32>)
    ensures
        width * depth <= i32::MAX ==> r == Some((width * depth) as i32),
        width * depth > i32::MAX ==> r is None,
{
    match width.checked_mul(depth) {
        Some(stride) => if stride <= i32::MAX as usize {
            Some(stride as i32)
        } else {
            None
        },
        None => None,
    }
}

/// Whether an image fits the codec's integers.
pub(crate) fn fits(image: &Image<u8>) -> (r: bool)
    ensures
        r == fits_codec(*image),
{
    image.width <= i32::MAX as usize && image.height <= i32::MAX as usize && image.depth
        <= i32::MAX as usize && codec_stride(image.width, image.depth).is_some()
}

impl Image<u8> {
    /// Checks a resize of `self` into `out` and gives the codec's arguments.
    /// Images of different depths are refused before any codec call.
    pub fn resize_request(&self, out: &Image<u8>) -> (r: Result<ResizeRequest, ImageError>)
        ensures
            r == resize_request_of(*self, *out),
            self.depth != out.depth ==> r == Err::<ResizeRequest, ImageError>(ImageError::ResizeFailed),
    {
        if self.depth != out.depth || !self.is_complete() || !out.is_complete() || !fits(self) || !fits(out) {
            return Err(ImageError::ResizeFailed);
        }
        Ok(ResizeRequest {
            input_width: self.width as i32,
            input_height: self.height as i32,
            input_stride: (self.width * self.depth) as i32,
            output_width: out.width as i32,
            output_height: out.height as i32,
            output_stride: (out.width * out.depth) as i32,
            channels: self.depth as i32,
        })
    }
}

/// The result of a resize, from the status the codec returned (0 is failure).
pub fn resize_outcome(status: i32) -> (r: Result<(), ImageError>)
    ensures
        status != 0 ==> r is Ok,
        status == 0 ==> r == Err::<(), ImageError>(ImageError::ResizeFailed),
{
    if status == 0 {
        Err(ImageError::ResizeFailed)
    } else {
        Ok(())
    }
}

} // verus!
