use stb_image::decode::{codec_path, decode_outcome, decoded_layout, requested_channels, sample_kind, Layout};
use stb_image::encode::{PngRequest, PngSink};
use stb_image::error::{ImageError, PathFault, SampleKind, Source};
use stb_image::image::{sample_count, Image};
use stb_image::resize::{resize_outcome, ResizeRequest};

#[test]
fn new_stores_fields() {
    let img = Image::new(2, 3, 4, vec![7u8; 24]);
    assert_eq!(img.width, 2);
    assert_eq!(img.height, 3);
    assert_eq!(img.depth, 4);
    assert_eq!(img.data.len(), 24);
    assert!(img.is_complete());
}

#[test]
fn new_keeps_mismatched_data() {
    let img = Image::new(2, 2, 3, vec![1u8, 2, 3]);
    assert_eq!(img.data, vec![1u8, 2, 3]);
    assert!(!img.is_complete());
}

#[test]
fn sample_count_values() {
    assert_eq!(sample_count(2, 3, 4), Some(24));
    assert_eq!(sample_count(0, 5, 3), Some(0));
    assert_eq!(sample_count(usize::MAX, 2, 1), None);
    assert_eq!(sample_count(usize::MAX, usize::MAX, 0), Some(0));
}

#[test]
fn path_not_text_is_invalid() {
    assert_eq!(codec_path(None), Err(ImageError::InvalidPath(PathFault::NotText)));
}

#[test]
fn path_with_nul_is_invalid() {
    let r = codec_path(Some(b"a\0b.png".as_slice()));
    assert_eq!(r, Err(ImageError::InvalidPath(PathFault::HasNul)));
    assert_eq!(r.unwrap_err().message(), "path contains null character");
}

#[test]
fn path_gets_terminator() {
    assert_eq!(codec_path(Some(b"x.png".as_slice())), Ok(b"x.png\0".to_vec()));
    assert_eq!(codec_path(Some(b"".as_slice())), Ok(vec![0u8]));
}

#[test]
fn hdr_input_takes_float_path() {
    assert_eq!(sample_kind(false, true), SampleKind::Float);
    assert_eq!(sample_kind(true, true), SampleKind::Byte);
    assert_eq!(sample_kind(false, false), SampleKind::Byte);
    assert_eq!(sample_kind(true, false), SampleKind::Byte);
}

#[test]
fn channels_pass_through() {
    assert_eq!(requested_channels(0), 0);
    assert_eq!(requested_channels(4), 4);
}

#[test]
fn forced_depth_four_is_reported() {
    let layout = decoded_layout(4, 3, 2, 3).unwrap();
    assert_eq!(layout, Layout { width: 3, height: 2, depth: 4, len: 24 });
    let img = decode_outcome(Source::Memory, SampleKind::Byte, Some(layout), Some(vec![0u8; 24])).unwrap();
    assert_eq!(img.depth, 4);
    assert_eq!(img.data.len(), img.width * img.height * 4);
}

#[test]
fn native_depth_kept_without_forcing() {
    assert_eq!(decoded_layout(0, 5, 4, 3), Some(Layout { width: 5, height: 4, depth: 3, len: 60 }));
}

#[test]
fn negative_geometry_has_no_layout() {
    assert_eq!(decoded_layout(0, -1, 4, 3), None);
    assert_eq!(decoded_layout(0, 1, 4, -3), None);
}

#[test]
fn null_buffer_fails_per_entry_point() {
    let layout = decoded_layout(0, 1, 1, 1);
    let e = decode_outcome::<u8>(Source::File, SampleKind::Byte, layout, None).unwrap_err();
    assert_eq!(e, ImageError::DecodeFailed(Source::File, SampleKind::Byte));
    assert_eq!(e.message(), "stbi_load failed");
    assert_eq!(ImageError::DecodeFailed(Source::File, SampleKind::Float).message(), "stbi_loadf failed");
    assert_eq!(ImageError::DecodeFailed(Source::Memory, SampleKind::Byte).message(), "stbi_load_from_memory failed");
    assert_eq!(ImageError::DecodeFailed(Source::Memory, SampleKind::Float).message(), "stbi_loadf_from_memory failed");
    assert_eq!(ImageError::InvalidPath(PathFault::NotText).message(), "path is not valid utf8");
}

#[test]
fn short_copy_fails() {
    let layout = decoded_layout(0, 2, 2, 1);
    let r = decode_outcome(Source::Memory, SampleKind::Float, layout, Some(vec![0.5f32; 3]));
    assert_eq!(r.unwrap_err(), ImageError::DecodeFailed(Source::Memory, SampleKind::Float));
    let r = decode_outcome(Source::Memory, SampleKind::Byte, None, Some(vec![1u8]));
    assert_eq!(r.unwrap_err(), ImageError::DecodeFailed(Source::Memory, SampleKind::Byte));
}

#[test]
fn successful_decode_is_complete() {
    let layout = decoded_layout(0, 2, 1, 3);
    let img = decode_outcome(Source::File, SampleKind::Float, layout, Some(vec![0.25f32; 6])).unwrap();
    assert_eq!((img.width, img.height, img.depth), (2, 1, 3));
    assert_eq!(img.data.len(), img.width * img.height * img.depth);
    assert!(img.is_complete());
}

#[test]
fn resize_depth_mismatch_fails() {
    let src = Image::new(2, 2, 3, vec![0u8; 12]);
    let dst = Image::new(1, 1, 4, vec![0u8; 4]);
    assert_eq!(src.resize_request(&dst), Err(ImageError::ResizeFailed));
}

#[test]
fn resize_two_by_two_rgb_to_one_pixel() {
    let src = Image::new(2, 2, 3, vec![255u8, 0, 0, 0, 255, 0, 0, 0, 255, 255, 255, 255]);
    let dst = Image::new(1, 1, 3, vec![0u8; 3]);
    let req = src.resize_request(&dst).unwrap();
    assert_eq!(
        req,
        ResizeRequest {
            input_width: 2,
            input_height: 2,
            input_stride: 6,
            output_width: 1,
            output_height: 1,
            output_stride: 3,
            channels: 3,
        }
    );
    assert_eq!(dst.data.len(), 3);
}

#[test]
fn resize_incomplete_destination_fails() {
    let src = Image::new(2, 2, 3, vec![0u8; 12]);
    let dst = Image::new(1, 1, 3, vec![0u8; 2]);
    assert_eq!(src.resize_request(&dst), Err(ImageError::ResizeFailed));
}

#[test]
fn resize_status_maps_to_result() {
    assert_eq!(resize_outcome(1), Ok(()));
    assert_eq!(resize_outcome(0), Err(ImageError::ResizeFailed));
}

#[test]
fn encode_empty_image_fails() {
    assert_eq!(Image::new(0, 5, 3, Vec::<u8>::new()).png_request(), Err(ImageError::EncodeFailed));
    assert_eq!(Image::new(5, 0, 3, Vec::<u8>::new()).png_request(), Err(ImageError::EncodeFailed));
}

#[test]
fn encode_request_stride() {
    let img = Image::new(3, 2, 4, vec![9u8; 24]);
    assert_eq!(img.png_request(), Ok(PngRequest { width: 3, height: 2, channels: 4, stride: 12 }));
    let short = Image::new(3, 2, 4, vec![9u8; 23]);
    assert_eq!(short.png_request(), Err(ImageError::EncodeFailed));
}

#[test]
fn sink_collects_chunks_in_order() {
    let mut sink = PngSink::new();
    sink.push_chunk(&[137u8, 80, 78]);
    sink.push_chunk(&[]);
    sink.push_chunk(&[71u8]);
    assert_eq!(sink.finish(1), Ok(vec![137u8, 80, 78, 71]));
}

#[test]
fn sink_drops_bytes_on_failure() {
    let mut sink = PngSink::new();
    sink.push_chunk(&[1u8, 2]);
    let e = sink.finish(0).unwrap_err();
    assert_eq!(e, ImageError::EncodeFailed);
    assert_eq!(e.message(), "png encoding failed");
}
