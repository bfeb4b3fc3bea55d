use smolinator::assemble::{buffer_uri_roundtrip, decode_data_uri, transcode_asset};
use smolinator::format::{ImagePayload, ImageRef, PixelFormat};
use smolinator::transcode::{fit_dimensions, transcode_image, TranscodeError};

const URI_PREFIX: &str = "data:application/octet-stream;base64,";

fn gradient_pixels(w: u32, h: u32, channels: u32) -> Vec<u8> {
    let mut pixels = Vec::new();
    for y in 0..h {
        for x in 0..w {
            for c in 0..channels {
                pixels.push(((x * 3 + y * 7 + c * 11) % 256) as u8);
            }
        }
    }
    pixels
}

fn rgba_payload(w: u32, h: u32) -> ImagePayload {
    ImagePayload {
        pixels: gradient_pixels(w, h, 4),
        format: PixelFormat::Rgba8,
        width: w,
        height: h,
    }
}

#[test]
fn fit_keeps_small_images() {
    assert_eq!(fit_dimensions(100, 50, 200), (100, 50));
    assert_eq!(fit_dimensions(1, 1, 1), (1, 1));
    assert_eq!(fit_dimensions(128, 128, 128), (128, 128));
}

#[test]
fn fit_shrinks_square_to_box() {
    assert_eq!(fit_dimensions(512, 512, 128), (128, 128));
}

#[test]
fn fit_preserves_aspect_ratio() {
    assert_eq!(fit_dimensions(1000, 500, 100), (100, 50));
    assert_eq!(fit_dimensions(500, 1000, 100), (50, 100));
}

#[test]
fn fit_never_returns_zero() {
    assert_eq!(fit_dimensions(10000, 10, 100), (100, 1));
    assert_eq!(fit_dimensions(10, 10000, 100), (1, 100));
}

#[test]
fn buffer_roundtrip_identity() {
    let bytes: Vec<u8> = vec![0, 1, 2, 250, 255, 42, 7];
    assert_eq!(buffer_uri_roundtrip(&bytes), bytes);
    let empty: Vec<u8> = Vec::new();
    assert_eq!(buffer_uri_roundtrip(&empty), empty);
}

#[test]
fn decode_data_uri_known_value() {
    let uri = format!("{}{}", URI_PREFIX, "YWJj");
    assert_eq!(decode_data_uri(&uri), Some(b"abc".to_vec()));
    assert_eq!(decode_data_uri("not a data uri"), None);
}

#[test]
fn decode_data_uri_rejects_corrupt_base64() {
    let uri = format!("{}{}", URI_PREFIX, "!!!!");
    assert_eq!(decode_data_uri(&uri), None);
}

#[test]
fn buffer_uri_uses_standard_base64() {
    let out = transcode_asset(&vec![b"abc".to_vec()], Vec::new(), &Vec::new(), 16, 50).unwrap();
    assert_eq!(out.buffers[0].uri, format!("{}{}", URI_PREFIX, "YWJj"));
}

#[test]
fn transcode_shrinks_large_square_image() {
    // One 512x512 4-channel image at max-dimension 128, quality 80.
    let out = transcode_asset(&Vec::new(), vec![ImageRef { name: None, extras: None }], &vec![
        rgba_payload(512, 512),
    ], 128, 80)
    .unwrap();
    assert_eq!(out.images.len(), 1);
    let img = &out.images[0];
    assert_eq!(img.mime_type, "image/jpeg");
    assert!(img.buffer_view.is_none());
    assert!(img.uri.starts_with(URI_PREFIX));
    let jpeg = base64::decode(&img.uri[URI_PREFIX.len()..]).unwrap();
    assert_eq!(image::guess_format(&jpeg).unwrap(), image::ImageFormat::Jpeg);
    let decoded = image::load_from_memory(&jpeg).unwrap();
    assert!(decoded.width() <= 128);
    assert!(decoded.height() <= 128);
    assert_eq!((decoded.width(), decoded.height()), (128, 128));
}

#[test]
fn zero_images_two_buffers() {
    let buffers: Vec<Vec<u8>> = vec![vec![5u8; 10], vec![9u8; 500]];
    let out = transcode_asset(&buffers, Vec::new(), &Vec::new(), 128, 80).unwrap();
    assert_eq!(out.images.len(), 0);
    assert_eq!(out.buffers.len(), 2);
    assert_eq!(out.buffers[0].byte_length, 10);
    assert_eq!(out.buffers[1].byte_length, 500);
    for (desc, bytes) in out.buffers.iter().zip(buffers.iter()) {
        assert!(desc.uri.starts_with(URI_PREFIX));
        let decoded = base64::decode(&desc.uri[URI_PREFIX.len()..]).unwrap();
        assert_eq!(&decoded, bytes);
    }
}

#[test]
fn unsupported_format_aborts_run() {
    let bad = ImagePayload {
        pixels: vec![0u8; 64],
        format: PixelFormat::Rgba32F,
        width: 2,
        height: 2,
    };
    let r = transcode_asset(
        &vec![vec![1u8; 10]],
        vec![ImageRef { name: None, extras: None }],
        &vec![bad],
        128,
        80,
    );
    assert_eq!(r.err(), Some(TranscodeError::UnsupportedPixelFormat));

    let indexed = ImagePayload {
        pixels: vec![0u8; 24],
        format: PixelFormat::Rgb16,
        width: 2,
        height: 2,
    };
    let r = transcode_image(&indexed, 128, 80);
    assert_eq!(r.err(), Some(TranscodeError::UnsupportedPixelFormat));
}

#[test]
fn inconsistent_pixel_buffer_is_fatal() {
    let corrupt = ImagePayload {
        pixels: vec![0u8; 3],
        format: PixelFormat::Rgba8,
        width: 2,
        height: 2,
    };
    assert_eq!(transcode_image(&corrupt, 128, 80).err(), Some(TranscodeError::PixelBuffer));
    let zero_dim = ImagePayload {
        pixels: Vec::new(),
        format: PixelFormat::L8,
        width: 0,
        height: 4,
    };
    assert_eq!(transcode_image(&zero_dim, 128, 80).err(), Some(TranscodeError::PixelBuffer));
}

#[test]
fn quality_out_of_range_is_encode_error() {
    assert_eq!(transcode_image(&rgba_payload(4, 4), 128, 101).err(), Some(TranscodeError::Encode));
}

#[test]
fn quality_monotonic_in_encoded_size() {
    let payload = rgba_payload(64, 64);
    let low = transcode_image(&payload, 64, 30).unwrap();
    let high = transcode_image(&payload, 64, 85).unwrap();
    assert!(high.len() >= low.len());
}

#[test]
fn name_and_extras_carried_forward() {
    let named = ImageRef {
        name: Some("wood_albedo".to_string()),
        extras: Some("{\"artist\":\"pat\"}".to_string()),
    };
    let out = transcode_asset(&Vec::new(), vec![named], &vec![rgba_payload(8, 8)], 128, 80)
        .unwrap();
    assert_eq!(out.images[0].name.as_deref(), Some("wood_albedo"));
    assert_eq!(out.images[0].extras.as_deref(), Some("{\"artist\":\"pat\"}"));
    assert!(out.images[0].buffer_view.is_none());
}

#[test]
fn all_supported_layouts_transcode() {
    for (format, channels) in [
        (PixelFormat::L8, 1u32),
        (PixelFormat::La8, 2),
        (PixelFormat::Rgb8, 3),
        (PixelFormat::Rgba8, 4),
    ] {
        let payload = ImagePayload {
            pixels: gradient_pixels(9, 5, channels),
            format,
            width: 9,
            height: 5,
        };
        let jpeg = transcode_image(&payload, 16, 75).unwrap();
        let decoded = image::load_from_memory(&jpeg).unwrap();
        assert!(decoded.width() <= 16 && decoded.height() <= 16);
    }
}

#[test]
fn small_image_is_not_upscaled() {
    let jpeg = transcode_image(&rgba_payload(6, 4), 1000, 80).unwrap();
    let decoded = image::load_from_memory(&jpeg).unwrap();
    assert_eq!((decoded.width(), decoded.height()), (6, 4));
}
