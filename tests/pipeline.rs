use image::{DynamicImage, GrayImage, ImageBuffer, Luma, Rgb, RgbImage};
use receiptor::grid::GrayBuffer;
use receiptor::pipeline::{finish_save, optimize_decoded, preprocess, to_gray, OcrError};
use receiptor::threshold::binarize;

#[test]
fn to_gray_has_one_sample_per_pixel() {
    let img = DynamicImage::ImageRgb8(RgbImage::from_pixel(5, 3, Rgb([255, 255, 255])));
    let g = to_gray(&img);
    assert_eq!((g.width(), g.height()), (5, 3));
    assert_eq!(g.as_raw(), &vec![255u8; 15]);
    let black = DynamicImage::ImageRgb8(RgbImage::from_pixel(2, 2, Rgb([0, 0, 0])));
    assert_eq!(to_gray(&black).into_raw(), vec![0u8; 4]);
}

#[test]
fn to_gray_keeps_grayscale_samples() {
    let img = DynamicImage::ImageLuma8(GrayImage::from_raw(3, 1, vec![10, 190, 250]).unwrap());
    assert_eq!(to_gray(&img).into_raw(), vec![10, 190, 250]);
}

#[test]
fn mid_gray_rgb_becomes_black() {
    let img = DynamicImage::ImageRgb8(RgbImage::from_pixel(7, 4, Rgb([120, 120, 120])));
    let out = preprocess(&img);
    assert_eq!((out.width(), out.height()), (7, 4));
    assert_eq!(out.into_raw(), vec![0u8; 28]);
}

#[test]
fn missing_input_is_a_load_error() {
    let path = "/nonexistent/dir/receipt.png";
    let r = optimize_decoded(path, image::open(path));
    match r {
        Err(e) => {
            assert!(matches!(e, OcrError::Load { .. }));
            assert_eq!(e.path(), path);
            assert_eq!(e.exit_code(), 1);
        }
        Ok(_) => panic!("a missing file must not load"),
    }
}

#[test]
fn decoded_image_is_preprocessed() {
    let img = DynamicImage::ImageLuma8(GrayImage::from_raw(2, 1, vec![100, 200]).unwrap());
    let out = optimize_decoded("x.png", Ok(img)).expect("decoded");
    assert_eq!(out.into_raw(), vec![0, 255]);
}

#[test]
fn save_outcomes() {
    assert_eq!(finish_save("/tmp/out.png", Ok(())), Ok("/tmp/out.png".to_string()));
    let failed = image::open("/nonexistent/other.png").map(|_| ());
    let e = finish_save("/tmp/out.png", failed).unwrap_err();
    assert!(matches!(e, OcrError::Save { .. }));
    assert_eq!(e.path(), "/tmp/out.png");
    assert_eq!(e.exit_code(), 2);
}

#[test]
fn written_output_decodes_to_black_and_white() {
    let raw: Vec<u8> = (0..=255u8).collect();
    let out = binarize(GrayBuffer::from_raw(16, 16, raw).unwrap());
    let (w, h) = (out.width(), out.height());
    let img: ImageBuffer<Luma<u8>, Vec<u8>> = ImageBuffer::from_raw(w, h, out.into_raw()).unwrap();
    let dir = tempfile::tempdir().unwrap();
    let path = dir.path().join("processed_receipt.png");
    img.save(&path).unwrap();
    let back = image::open(&path).unwrap();
    assert_eq!(back.color(), image::ColorType::L8);
    let gray = back.to_luma8();
    assert_eq!(gray.dimensions(), (16, 16));
    assert!(gray.as_raw().iter().all(|&v| v == 0 || v == 255));
    assert_eq!(gray.as_raw(), img.as_raw());
}
