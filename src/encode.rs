use vstd::prelude::*;
use crate::error::ImageError;
use crate::image::Image;
use crate::resize::{fits, fits_codec};

verus! {

/// What the codec's PNG writer is called with.
#[derive(Debug, Clone, Copy, PartialEq, Eq, Structural)]
pub struct PngRequest {
    pub width: i32,
    pub height: i32,
    pub channels: i32,
    pub stride: i32,
}

/// An image goes to the PNG writer only when it has pixels, is complete and
/// fits the codec's integers; an empty image is refused.
pub open spec fn png_request_of(image: Image<u8>) -> Result<PngRequest, ImageError> {
    if image.width > 0 && image.height > 0 && image.wf() && fits_codec(image) {
        Ok(PngRequest {
            width: image.width as i32,
            height: image.height as i32,
            channels: image.depth as i32,
            stride: (image.depth * image.width) as i32,
        })
    } else {
        Err(ImageError::EncodeFailed)
    }
}

impl Image<u8> {
    /// Checks that the image can be encoded and gives the PNG writer's arguments.
    pub fn png_request(&self) -> (r: Result<PngRequest, ImageError>)
        ensures
            r == png_request_of(*self),
            self.width == 0 || self.height == 0 ==> r == Err::<PngRequest, ImageError>(ImageError::EncodeFailed),
    {
        if self.width == 0 || self.height == 0 || !self.is_complete() || !fits(self) {
            return Err(ImageError::EncodeFailed);
        }
        Ok(PngRequest {
            width: self.width as i32,
            height: self.height as i32,
            channels: self.depth as i32,
            stride: (self.depth * self.width) as i32,
        })
    }
}

/// Collects, in call order, the chunks the PNG writer hands out during one encode.
pub struct PngSink {
    bytes: Vec<u8>,
}

impl View for PngSink {
    type V = Seq<u8>;

    closed spec fn view(&self) -> Seq<u8> {
        self.bytes@
    }
}

impl PngSink {
    pub fn new() -> (r: PngSink)
        ensures
            r@ == Seq::<u8>::empty(),
    {
        PngSink { bytes: Vec::new() }
    }

    /// Appends one chunk of encoded bytes.
    pub fn push_chunk(&mut self, chunk: &[u8])
        ensures
            final(self)@ == old(self)@ + chunk@,
    {
        let ghost before = self.bytes@;
        let mut i: usize = 0;
        while i < chunk.len()
            invariant
                i <= chunk@.len(),
                self.bytes@ == before + chunk@.subrange(0, i as int),
            decreases chunk@.len() - i,
        {
            self.bytes.push(chunk[i]);
            i = i + 1;
            assert(self.bytes@ =~= before + chunk@.subrange(0, i as int));
        }
        assert(chunk@.subrange(0, i as int) =~= chunk@);
    }

    /// Ends the encode with the status the PNG writer returned (0 is failure):
    /// the collected bytes on success; on failure they are dropped.
    pub fn finish(self, status: i32) -> (r: Result<Vec<u8>, ImageError>)
        ensures
            status != 0 ==> r is Ok && r->Ok_0@ == self@,
            status == 0 ==> r == Err::<Vec<u8>, ImageError>(ImageError::EncodeFailed),
    {
        if status == 0 {
            Err(ImageError::EncodeFailed)
        } else {
            Ok(self.bytes)
        }
    }
}

} // verus!
