use vstd::prelude::*;

verus! {

/// Pixel samples stored row-major, `depth` channels per pixel.
#[derive(Debug)]
pub struct Image<T> {
    pub width: usize,
    pub height: usize,
    pub depth: usize,
    pub data: Vec<T>,
}

/// Number of samples an image of the given geometry holds.
pub open spec fn samples(width: int, height: int, depth: int) -> int {
    width * height * depth
}

impl<T> Image<T> {
    /// The image is complete: it holds exactly one sample per channel of each pixel.
    pub open spec fn wf(&self) -> bool {
        self.data@.len() == samples(self.width as int, self.height as int, self.depth as int)
    }

    /// Stores the fields as given; no check is made on the length of `data`.
    pub fn new(width: usize, height: usize, depth: usize, data: Vec<T>) -> (r: Image<T>)
        ensures
            r.width == width,
            r.height == height,
            r.depth == depth,
            r.data@ == data@,
    {
        Image { width, height, depth, data }
    }
}

/// The number of samples of an image of the given geometry, where it fits in `usize`.
pub fn sample_count(width: usize, height: usize, depth: usize) -> (r: Option<usize>)
    ensures
        match r {
            Some(n) => n as int == samples(width as int, height as int, depth as int),
            None => samples(width as int, height as int, depth as int) > usize::MAX,
        },
{
    proof {
        assert(samples(width as int, height as int, depth as int) == (width as int * height as int) * depth as int);
        if width as int * height as int > usize::MAX && depth > 0 {
            assert((width as int * height as int) * depth as int >= width as int * height as int) by (nonlinear_arith)
                requires depth > 0, width as int * height as int >= 0;
        }
    }
    match width.checked_mul(height) {
        Some(pixels) => pixels.checked_mul(depth),
        None => {
            if depth == 0 {
                assert(samples(width as int, height as int, depth as int) == 0);
                Some(0)
            } else {
                None
            }
        },
    }
}

impl<T> Image<T> {
    /// Whether `data` holds exactly `width * height * depth` samples.
    pub fn is_complete(&self) -> (r: bool)
        ensures
            r == self.wf(),
    {
        let len = self.data.len();
        match sample_count(self.width, self.height, self.depth) {
            Some(n) => len == n,
            None => false,
        }
    }
}

} // verus!
