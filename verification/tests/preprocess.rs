use moondream_pipeline::errors::PipelineError;
use moondream_pipeline::preprocess::load_image;
use moondream_pipeline::preprocess::normalize;
use moondream_pipeline::preprocess::to_channel_first;

/// Encodes a solid-color RGB image of the given size as PNG bytes.
fn solid_png(width: u32, height: u32, rgb: [u8; 3]) -> Vec<u8> {
    let img = image::RgbImage::from_pixel(width, height, image::Rgb(rgb));
    let mut bytes: Vec<u8> = Vec::new();
    img.write_to(
        &mut std::io::Cursor::new(&mut bytes),
        image::ImageFormat::Png,
    )
    .unwrap();
    bytes
}

#[test]
fn channel_first_rearranges_exactly() {
    // 2x2 pixels, interleaved as r,g,b per pixel.
    let interleaved: Vec<u8> = vec![
        10, 20, 30, //
        11, 21, 31, //
        12, 22, 32, //
        13, 23, 33,
    ];
    let chw = to_channel_first(&interleaved, 2);
    assert_eq!(
        chw,
        vec![10, 11, 12, 13, 20, 21, 22, 23, 30, 31, 32, 33]
    );
}

#[test]
fn normalize_maps_to_exact_numerators() {
    let out = normalize(&vec![0, 127, 128, 255]);
    assert_eq!(out, vec![-255, -1, 1, 255]);
}

#[test]
fn gray_image_normalizes_within_one_step_of_zero() {
    // (127.5/255 - 0.5)/0.5 is about 0: pixel 127 gives numerator -1 and
    // pixel 128 gives numerator 1, each within 1/255 of zero.
    for (value, numerator) in [(127u8, -1i16), (128u8, 1i16)] {
        let bytes = solid_png(10, 10, [value, value, value]);
        let t = load_image(&bytes).unwrap();
        assert_eq!(t.data.len(), 3 * 378 * 378);
        assert!(t.data.iter().all(|&n| n == numerator));
    }
}

#[test]
fn load_image_is_deterministic() {
    let bytes = solid_png(16, 12, [3, 200, 77]);
    let a = load_image(&bytes).unwrap();
    let b = load_image(&bytes).unwrap();
    assert_eq!(a.data, b.data);
}

#[test]
fn load_image_lays_out_channels_first() {
    let bytes = solid_png(9, 9, [255, 0, 0]);
    let t = load_image(&bytes).unwrap();
    let plane = 378 * 378;
    assert_eq!(t.data.len(), 3 * plane);
    assert!(t.data[..plane].iter().all(|&n| n == 255), "red channel first");
    assert!(t.data[plane..].iter().all(|&n| n == -255), "green and blue after");
}

#[test]
fn undecodable_bytes_are_rejected() {
    let r = load_image(&vec![1, 2, 3, 4, 5]);
    assert!(matches!(r, Err(PipelineError::Decode)));
}
