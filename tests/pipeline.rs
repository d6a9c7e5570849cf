use image::{DynamicImage, ImageBuffer, ImageFormat, Luma, LumaA, Rgb, Rgba};
use image_tensor::{
    decode_source, load_image_to_tensor, PipelineError, PixelLayout, SourceImage, TensorBuffer,
    FULL_SCALE,
};
use std::io::Cursor;

fn tensor_of(layout: PixelLayout, width: u32, height: u32, samples: Vec<u8>) -> TensorBuffer {
    SourceImage::new(layout, width, height, samples)
        .expect("sample count matches")
        .into_tensor()
}

fn values(t: &TensorBuffer) -> Vec<f32> {
    t.levels.iter().map(|&l| l as f32 / FULL_SCALE as f32).collect()
}

fn png_bytes(img: DynamicImage) -> Vec<u8> {
    let mut out = Cursor::new(Vec::new());
    img.write_to(&mut out, ImageFormat::Png).expect("png encodes");
    out.into_inner()
}

#[test]
fn round_trip_scaling_single_pixel() {
    let t = tensor_of(PixelLayout::Rgb, 1, 1, vec![255, 0, 128]);
    assert_eq!(t.shape(), [3, 1, 1]);
    assert_eq!(t.level(0, 0, 0), 255);
    assert_eq!(t.level(1, 0, 0), 0);
    assert_eq!(t.level(2, 0, 0), 128);
    let v = values(&t);
    assert!((v[0] - 1.0).abs() < 1e-6);
    assert!((v[1] - 0.0).abs() < 1e-6);
    assert!((v[2] - 0.50196).abs() < 1e-5);
    assert!((v[2] - 128.0 / 255.0).abs() < 1e-6);
}

#[test]
fn layout_is_channel_major() {
    let t = tensor_of(PixelLayout::Rgb, 2, 1, vec![10, 20, 30, 40, 50, 60]);
    assert_eq!(t.shape(), [3, 1, 2]);
    assert_eq!(t.levels, vec![10, 40, 20, 50, 30, 60]);
    let expected: Vec<f32> = [10.0f32, 40.0, 20.0, 50.0, 30.0, 60.0]
        .iter()
        .map(|x| x / 255.0)
        .collect();
    let v = values(&t);
    for (a, b) in v.iter().zip(expected.iter()) {
        assert!((a - b).abs() < 1e-6);
    }
}

#[test]
fn layout_of_two_rows() {
    // 2 columns, 2 rows: pixel (w, h) has samples (r, g, b) = (10h+w, 100+10h+w, 200+10h+w).
    let mut samples = Vec::new();
    for h in 0..2u8 {
        for w in 0..2u8 {
            samples.extend_from_slice(&[10 * h + w, 100 + 10 * h + w, 200 + 10 * h + w]);
        }
    }
    let t = tensor_of(PixelLayout::Rgb, 2, 2, samples);
    assert_eq!(t.shape(), [3, 2, 2]);
    assert_eq!(t.levels, vec![0, 1, 10, 11, 100, 101, 110, 111, 200, 201, 210, 211]);
    assert_eq!(t.level(2, 1, 0), 210);
}

#[test]
fn shape_is_three_by_height_by_width() {
    let t = tensor_of(PixelLayout::Rgba, 5, 3, vec![7; 5 * 3 * 4]);
    assert_eq!(t.shape(), [3, 3, 5]);
    assert_eq!(t.levels.len(), 3 * 3 * 5);
    assert_eq!(t.batched_shape(), [1, 3, 3, 5]);
}

#[test]
fn alpha_is_discarded() {
    let rgb = vec![1, 2, 3, 250, 251, 252];
    let plain = tensor_of(PixelLayout::Rgb, 2, 1, rgb);
    for alpha in [0u8, 1, 77, 128, 255] {
        let rgba = vec![1, 2, 3, alpha, 250, 251, 252, 255 - alpha];
        let t = tensor_of(PixelLayout::Rgba, 2, 1, rgba);
        assert_eq!(t.levels, plain.levels);
    }
    assert_eq!(plain.levels, vec![1, 250, 2, 251, 3, 252]);
}

#[test]
fn gray_is_replicated_for_every_level() {
    let samples: Vec<u8> = (0..=255u8).collect();
    let t = tensor_of(PixelLayout::Luma, 16, 16, samples);
    for h in 0..16usize {
        for w in 0..16usize {
            let v = (h * 16 + w) as u8;
            for c in 0..3usize {
                assert_eq!(t.level(c, h, w), v);
            }
        }
    }
}

#[test]
fn gray_with_alpha_is_replicated() {
    let t = tensor_of(PixelLayout::LumaAlpha, 2, 1, vec![9, 0, 200, 255]);
    assert_eq!(t.levels, vec![9, 200, 9, 200, 9, 200]);
}

#[test]
fn wrong_sample_count_is_refused() {
    assert!(SourceImage::new(PixelLayout::Rgb, 2, 1, vec![1, 2, 3, 4, 5]).is_none());
    assert!(SourceImage::new(PixelLayout::Luma, 2, 2, vec![1, 2, 3, 4, 5]).is_none());
    assert!(SourceImage::new(PixelLayout::Rgba, u32::MAX, u32::MAX, vec![]).is_none());
    assert!(SourceImage::new(PixelLayout::Luma, 0, 0, vec![]).is_some());
}

#[test]
fn non_image_bytes_fail_to_decode() {
    let r = load_image_to_tensor(b"this is not an image at all");
    assert_eq!(r.err(), Some(PipelineError::Decode));
    assert_eq!(load_image_to_tensor(&[]).err(), Some(PipelineError::Decode));
}

#[test]
fn truncated_png_fails_to_decode() {
    let img = ImageBuffer::<Rgb<u8>, _>::from_raw(4, 4, vec![90u8; 48]).unwrap();
    let bytes = png_bytes(DynamicImage::ImageRgb8(img));
    let r = load_image_to_tensor(&bytes[..bytes.len() / 2]);
    assert_eq!(r.err(), Some(PipelineError::Decode));
}

#[test]
fn png_rgb_round_trips_through_decoding() {
    let img = ImageBuffer::<Rgb<u8>, _>::from_raw(2, 1, vec![10, 20, 30, 40, 50, 60]).unwrap();
    let t = load_image_to_tensor(&png_bytes(DynamicImage::ImageRgb8(img))).unwrap();
    assert_eq!(t.shape(), [3, 1, 2]);
    assert_eq!(t.levels, vec![10, 40, 20, 50, 30, 60]);
}

#[test]
fn png_rgba_decodes_without_alpha() {
    let img =
        ImageBuffer::<Rgba<u8>, _>::from_raw(2, 1, vec![10, 20, 30, 5, 40, 50, 60, 99]).unwrap();
    let bytes = png_bytes(DynamicImage::ImageRgba8(img));
    let src = decode_source(&bytes).unwrap();
    assert_eq!(src.layout, PixelLayout::Rgba);
    let t = load_image_to_tensor(&bytes).unwrap();
    assert_eq!(t.levels, vec![10, 40, 20, 50, 30, 60]);
}

#[test]
fn png_gray_decodes_replicated() {
    let img = ImageBuffer::<Luma<u8>, _>::from_raw(3, 1, vec![0, 128, 255]).unwrap();
    let bytes = png_bytes(DynamicImage::ImageLuma8(img));
    let src = decode_source(&bytes).unwrap();
    assert_eq!(src.layout, PixelLayout::Luma);
    assert_eq!((src.width, src.height), (3, 1));
    let t = load_image_to_tensor(&bytes).unwrap();
    assert_eq!(t.levels, vec![0, 128, 255, 0, 128, 255, 0, 128, 255]);
}

#[test]
fn png_gray_alpha_decodes_replicated() {
    let img = ImageBuffer::<LumaA<u8>, _>::from_raw(1, 1, vec![42, 7]).unwrap();
    let t = load_image_to_tensor(&png_bytes(DynamicImage::ImageLumaA8(img))).unwrap();
    assert_eq!(t.levels, vec![42, 42, 42]);
}

#[test]
fn png_sixteen_bit_is_reduced_to_eight_bits() {
    let img = ImageBuffer::<Rgb<u16>, _>::from_raw(1, 1, vec![65535u16, 0, 257 * 128]).unwrap();
    let bytes = png_bytes(DynamicImage::ImageRgb16(img));
    let src = decode_source(&bytes).unwrap();
    assert_eq!(src.layout, PixelLayout::Rgba);
    let t = load_image_to_tensor(&bytes).unwrap();
    assert_eq!(t.levels, vec![255, 0, 128]);
}

#[test]
fn input_shape_is_checked() {
    let t = tensor_of(PixelLayout::Rgb, 2, 1, vec![0; 6]);
    assert_eq!(t.check_input_shape([1, 3, 1, 2]), Ok(()));
    assert_eq!(t.check_input_shape([1, 3, 2, 1]), Err(PipelineError::ShapeMismatch));
    assert_eq!(t.check_input_shape([2, 3, 1, 2]), Err(PipelineError::ShapeMismatch));
    assert_eq!(t.check_input_shape([1, 1, 1, 2]), Err(PipelineError::ShapeMismatch));
}

#[test]
fn every_value_lies_in_unit_range() {
    let samples: Vec<u8> = (0..=255u8).flat_map(|v| [v, 255 - v, v / 2]).collect();
    let t = tensor_of(PixelLayout::Rgb, 256, 1, samples);
    for v in values(&t) {
        assert!((0.0..=1.0).contains(&v));
    }
}
