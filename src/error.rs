use vstd::prelude::*;

verus! {

/// Where the encoded bytes of a decode come from.
#[derive(Debug, Clone, Copy, PartialEq, Eq, Structural)]
pub enum Source {
    File,
    Memory,
}

/// Which of the codec's decode entry points was taken.
#[derive(Debug, Clone, Copy, PartialEq, Eq, Structural)]
pub enum SampleKind {
    /// 8-bit samples.
    Byte,
    /// Floating-point samples of a high-dynamic-range image.
    Float,
}

/// Why a path cannot be handed to the codec.
#[derive(Debug, Clone, Copy, PartialEq, Eq, Structural)]
pub enum PathFault {
    NotText,
    HasNul,
}

#[derive(Debug, Clone, Copy, PartialEq, Eq, Structural)]
pub enum ImageError {
    /// The path is not text or holds a NUL byte; the codec was not called.
    InvalidPath(PathFault),
    /// The codec's decode entry point returned no buffer.
    DecodeFailed(Source, SampleKind),
    /// The images do not fit together, or the codec's resize reported failure.
    ResizeFailed,
    /// The image cannot be encoded, or the codec's PNG writer reported failure.
    EncodeFailed,
}

/// The text that describes an error.
pub open spec fn message_of(e: ImageError) -> Seq<char> {
    match e {
        ImageError::InvalidPath(PathFault::NotText) => "path is not valid utf8"@,
        ImageError::InvalidPath(PathFault::HasNul) => "path contains null character"@,
        ImageError::DecodeFailed(Source::File, SampleKind::Byte) => "stbi_load failed"@,
        ImageError::DecodeFailed(Source::File, SampleKind::Float) => "stbi_loadf failed"@,
        ImageError::DecodeFailed(Source::Memory, SampleKind::Byte) => "stbi_load_from_memory failed"@,
        ImageError::DecodeFailed(Source::Memory, SampleKind::Float) => "stbi_loadf_from_memory failed"@,
        ImageError::ResizeFailed => "resize failed"@,
        ImageError::EncodeFailed => "png encoding failed"@,
    }
}

impl ImageError {
    /// Describes the error; a failed decode names the codec entry point that failed.
    pub fn message(&self) -> (r: String)
        ensures
            r@ == message_of(*self),
    {
        match self {
            ImageError::InvalidPath(PathFault::NotText) => String::from_str("path is not valid utf8"),
            ImageError::InvalidPath(PathFault::HasNul) => String::from_str("path contains null character"),
            ImageError::DecodeFailed(Source::File, SampleKind::Byte) => String::from_str("stbi_load failed"),
            ImageError::DecodeFailed(Source::File, SampleKind::Float) => String::from_str("stbi_loadf failed"),
            ImageError::DecodeFailed(Source::Memory, SampleKind::Byte) => String::from_str("stbi_load_from_memory failed"),
            ImageError::DecodeFailed(Source::Memory, SampleKind::Float) => String::from_str("stbi_loadf_from_memory failed"),
            ImageError::ResizeFailed => String::from_str("resize failed"),
            ImageError::EncodeFailed => String::from_str("png encoding failed"),
        }
    }
}

} // verus!
