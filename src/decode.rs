use vstd::prelude::*;
use crate::error::{ImageError, PathFault, SampleKind, Source};
use crate::image::{Image, samples, sample_count};

verus! {

/// The codec entry point taken for an input: the floating-point one for a
/// high-dynamic-range input, unless the caller asked for 8-bit conversion.
pub open spec fn kind_for(convert_hdr: bool, is_hdr: bool) -> SampleKind {
    if is_hdr && !convert_hdr {
        SampleKind::Float
    } else {
        SampleKind::Byte
    }
}

/// Picks the decode entry point from what the codec reported of the input.
pub fn sample_kind(convert_hdr: bool, is_hdr: bool) -> (r: SampleKind)
    ensures
        r == kind_for(convert_hdr, is_hdr),
{
    if is_hdr && !convert_hdr {
        SampleKind::Float
    } else {
        SampleKind::Byte
    }
}

/// Turns the text of a path (`None` when the path is not text) into the
/// NUL-terminated bytes the codec reads. A path holding a NUL byte is refused.
pub fn codec_path(path: Option<&[u8]>) -> (r: Result<Vec<u8>, ImageError>)
    ensures
        path is None ==> r == Err::<Vec<u8>, ImageError>(ImageError::InvalidPath(PathFault::NotText)),
        path is Some && path->Some_0@.contains(0u8) ==>
            r == Err::<Vec<u8>, ImageError>(ImageError::InvalidPath(PathFault::HasNul)),
        path is Some && !path->Some_0@.contains(0u8) ==>
            r is Ok && r->Ok_0@ == path->Some_0@.push(0u8),
{
    match path {
        None => Err(ImageError::InvalidPath(PathFault::NotText)),
        Some(text) => {
            let mut bytes: Vec<u8> = Vec::new();
            let mut i: usize = 0;
            while i < text.len()
                invariant
                    path == Some(text),
                    i <= text@.len(),
                    bytes@ == text@.subrange(0, i as int),
                    forall|j: int| 0 <= j < i ==> text@[j] != 0u8,
                decreases text@.len() - i,
            {
                if text[i] == 0u8 {
                    assert(text@.contains(0u8)) by {
                        assert(text@[i as int] == 0u8);
                    }
                    return Err(ImageError::InvalidPath(PathFault::HasNul));
                }
                bytes.push(text[i]);
                i = i + 1;
                assert(bytes@ =~= text@.subrange(0, i as int));
            }
            assert(text@.subrange(0, i as int) =~= text@);
            bytes.push(0u8);
            Ok(bytes)
        },
    }
}

/// The channel count handed to the codec: 0 keeps the image's own, 1 to 4 forces that many.
pub fn requested_channels(force_depth: usize) -> (r: i32)
    requires
        force_depth <= 4,
    ensures
        r as int == force_depth as int,
{
    force_depth as i32
}

/// Geometry of a decoded buffer, and how many samples it holds.
#[derive(Debug, Clone, Copy, PartialEq, Eq, Structural)]
pub struct Layout {
    pub width: usize,
    pub height: usize,
    pub depth: usize,
    pub len: usize,
}

/// The depth a decode reports: the forced channel count when one was asked
/// for, else the one the codec reported.
pub open spec fn reported_depth(force_depth: int, codec_depth: int) -> int {
    if force_depth != 0 {
        force_depth
    } else {
        codec_depth
    }
}

/// The layout of a decoded buffer, given the geometry the codec wrote back;
/// `None` when that geometry is negative or its sample count overflows.
pub open spec fn layout_of(force_depth: int, width: int, height: int, codec_depth: int) -> Option<Layout> {
    let depth = reported_depth(force_depth, codec_depth);
    if 0 <= width && 0 <= height && 0 <= depth && samples(width, height, depth) <= usize::MAX {
        Some(Layout {
            width: width as usize,
            height: height as usize,
            depth: depth as usize,
            len: samples(width, height, depth) as usize,
        })
    } else {
        None
    }
}

/// Computes the layout of the buffer a successful decode returned.
pub fn decoded_layout(force_depth: usize, width: i32, height: i32, codec_depth: i32) -> (r: Option<Layout>)
    requires
        force_depth <= 4,
    ensures
        r == layout_of(force_depth as int, width as int, height as int, codec_depth as int),
{
    let depth: i32 = if force_depth != 0 {
        force_depth as i32
    } else {
        codec_depth
    };
    if width < 0 || height < 0 || depth < 0 {
        return None;
    }
    match sample_count(width as usize, height as usize, depth as usize) {
        Some(len) => Some(Layout { width: width as usize, height: height as usize, depth: depth as usize, len }),
        None => None,
    }
}

/// Whether a decode succeeds: the codec returned a buffer, its geometry is
/// sound, and the copy holds as many samples as that geometry asks.
pub open spec fn decode_succeeds(layout: Option<Layout>, copied: Option<int>) -> bool {
    &&& layout is Some
    &&& copied is Some
    &&& copied->Some_0 == samples(
        layout->Some_0.width as int,
        layout->Some_0.height as int,
        layout->Some_0.depth as int,
    )
}

/// Builds the result of a decode. `data` is `None` when the codec returned
/// no buffer, else the copy of that buffer.
pub fn decode_outcome<T>(
    source: Source,
    kind: SampleKind,
    layout: Option<Layout>,
    data: Option<Vec<T>>,
) -> (r: Result<Image<T>, ImageError>)
    ensures
        decode_succeeds(layout, match data { Some(d) => Some(d@.len() as int), None => None }) ==> {
            &&& r is Ok
            &&& r->Ok_0.width == layout->Some_0.width
            &&& r->Ok_0.height == layout->Some_0.height
            &&& r->Ok_0.depth == layout->Some_0.depth
            &&& r->Ok_0.data@ == data->Some_0@
        },
        !decode_succeeds(layout, match data { Some(d) => Some(d@.len() as int), None => None }) ==>
            r == Err::<Image<T>, ImageError>(ImageError::DecodeFailed(source, kind)),
        r is Ok ==> r->Ok_0.wf(),
{
    match (layout, data) {
        (Some(l), Some(d)) => {
            let image = Image::new(l.width, l.height, l.depth, d);
            if image.is_complete() {
                Ok(image)
            } else {
                Err(ImageError::DecodeFailed(source, kind))
            }
        },
        _ => Err(ImageError::DecodeFailed(source, kind)),
    }
}

/// Forcing four channels: a decode that succeeds reports depth 4, whatever
/// depth the codec gave, and holds `width * height * 4` samples.
pub proof fn forced_depth_is_reported(
    width: i32,
    height: i32,
    codec_depth: i32,
    layout: Option<Layout>,
    copied: Option<int>,
)
    requires
        layout == layout_of(4, width as int, height as int, codec_depth as int),
        decode_succeeds(layout, copied),
    ensures
        layout->Some_0.depth == 4,
        layout->Some_0.width == width as int,
        layout->Some_0.height == height as int,
        copied == Some(samples(width as int, height as int, 4)),
{
}

} // verus!
