use image::{Rgba, RgbaImage};
use snapvrt::compare::{finish_compare, identical_result, prepare_compare, CompareError, CompareResult, Prepared};
use snapvrt::raster::Raster;

struct Outcome {
    result: CompareResult,
    score: f64,
}

fn to_image(r: &Raster) -> RgbaImage {
    RgbaImage::from_raw(r.width, r.height, r.data.clone()).expect("well-formed raster")
}

/// Both phases, with the perceptual engine in between.
fn compare(reference: &[u8], current: &[u8]) -> Result<Outcome, CompareError> {
    let result = match prepare_compare(reference, current)? {
        Prepared::Identical => identical_result(),
        Prepared::Decoded(pair) => {
            let threshold = 35215.0f32 * 0.1 * 0.1;
            let engine = dify::diff::get_results(
                to_image(&pair.left),
                to_image(&pair.right),
                threshold,
                true,
                Some(0.1),
                &Some(dify::cli::OutputImageBase::LeftImage),
                &None,
            );
            finish_compare(&pair, engine.map(|(n, _)| n))
        }
    };
    let score = if result.total_pixels > 0 {
        result.diff_pixels as f64 / result.total_pixels as f64
    } else {
        0.0
    };
    Ok(Outcome { result, score })
}

fn solid_png(w: u32, h: u32, color: Rgba<u8>) -> Vec<u8> {
    let img = RgbaImage::from_pixel(w, h, color);
    let mut buf = Vec::new();
    img.write_to(&mut std::io::Cursor::new(&mut buf), image::ImageFormat::Png).unwrap();
    buf
}

fn with_pixel_diffs(png: &[u8], n: u32) -> Vec<u8> {
    let mut img = image::load_from_memory(png).unwrap().to_rgba8();
    let (w, h) = img.dimensions();
    for i in 0..n {
        let x = ((i as u64 * 7919) % w as u64) as u32;
        let y = ((i as u64 * 6271) % h as u64) as u32;
        img.put_pixel(x, y, Rgba([255, 0, 0, 255]));
    }
    let mut buf = Vec::new();
    img.write_to(&mut std::io::Cursor::new(&mut buf), image::ImageFormat::Png).unwrap();
    buf
}

#[test]
fn identical_bytes_skip_dify() {
    let png = solid_png(100, 100, Rgba([200, 200, 200, 255]));
    let r = compare(&png, &png).unwrap().result;
    assert!(r.is_match);
    assert_eq!(r.diff_pixels, 0);
    assert_eq!(r.total_pixels, 0);
    assert!(!r.has_diff_image);
    assert!(r.dimension_mismatch.is_none());
}

#[test]
fn pixel_diffs_detected() {
    let reference = solid_png(100, 100, Rgba([200, 200, 200, 255]));
    let current = with_pixel_diffs(&reference, 50);
    let o = compare(&reference, &current).unwrap();
    let r = &o.result;
    assert!(!r.is_match);
    assert!(r.diff_pixels > 0);
    assert!(o.score > 0.0);
    assert!(r.has_diff_image);
    assert!(r.dimension_mismatch.is_none());
}

#[test]
fn perceptually_identical_is_match() {
    let a = solid_png(50, 50, Rgba([128, 128, 128, 255]));
    let mut img = image::load_from_memory(&a).unwrap().to_rgba8();
    img.put_pixel(0, 0, Rgba([129, 128, 128, 255]));
    let mut b = Vec::new();
    img.write_to(&mut std::io::Cursor::new(&mut b), image::ImageFormat::Png).unwrap();
    let r = compare(&a, &b).unwrap().result;
    assert_eq!(r.diff_pixels, 0);
}

#[test]
fn score_is_ratio_of_diff_to_total() {
    let reference = solid_png(100, 100, Rgba([200, 200, 200, 255]));
    let current = with_pixel_diffs(&reference, 20);
    let o = compare(&reference, &current).unwrap();
    let expected = o.result.diff_pixels as f64 / o.result.total_pixels as f64;
    assert!((o.score - expected).abs() < 1e-9);
}

#[test]
fn zero_diff_score_is_zero() {
    let a = solid_png(50, 50, Rgba([128, 128, 128, 255]));
    let b = solid_png(50, 50, Rgba([128, 128, 128, 255]));
    let o = compare(&a, &b).unwrap();
    assert_eq!(o.score, 0.0);
}

#[test]
fn dimension_mismatch_detected() {
    let a = solid_png(100, 100, Rgba([200, 200, 200, 255]));
    let b = solid_png(100, 120, Rgba([200, 200, 200, 255]));
    let r = compare(&a, &b).unwrap().result;
    assert_eq!(r.dimension_mismatch, Some((100, 100, 100, 120)));
}

#[test]
fn dimension_mismatch_pads_with_magenta() {
    let a = solid_png(10, 10, Rgba([200, 200, 200, 255]));
    let b = solid_png(10, 12, Rgba([200, 200, 200, 255]));
    let r = compare(&a, &b).unwrap().result;
    assert!(r.diff_pixels > 0, "padding should cause diff pixels");
    assert_eq!(r.total_pixels, 120);
}

#[test]
fn width_mismatch_reported() {
    let a = solid_png(100, 50, Rgba([200, 200, 200, 255]));
    let b = solid_png(110, 50, Rgba([200, 200, 200, 255]));
    let r = compare(&a, &b).unwrap().result;
    assert_eq!(r.dimension_mismatch, Some((100, 50, 110, 50)));
    assert!(r.diff_pixels > 0);
}

#[test]
fn fail_with_dimension_mismatch_counts_padded_canvas() {
    let a = solid_png(100, 100, Rgba([128, 128, 128, 255]));
    let b = solid_png(100, 120, Rgba([128, 128, 128, 255]));
    let r = compare(&a, &b).unwrap().result;
    assert_eq!(r.dimension_mismatch, Some((100, 100, 100, 120)));
    assert_eq!(r.total_pixels, 12000);
    assert!(r.diff_pixels > 0);
    assert!(!r.is_match);
    assert!(r.has_diff_image);
}

#[test]
fn padding_is_exact_magenta() {
    let a = solid_png(2, 2, Rgba([10, 20, 30, 255]));
    let b = solid_png(3, 4, Rgba([10, 20, 30, 255]));
    match prepare_compare(&a, &b).unwrap() {
        Prepared::Decoded(pair) => {
            let left = to_image(&pair.left);
            assert_eq!(left.dimensions(), (3, 4));
            assert_eq!(*left.get_pixel(0, 0), Rgba([10, 20, 30, 255]));
            assert_eq!(*left.get_pixel(2, 0), Rgba([255, 0, 255, 255]));
            assert_eq!(*left.get_pixel(0, 3), Rgba([255, 0, 255, 255]));
            let right = to_image(&pair.right);
            assert_eq!(*right.get_pixel(2, 3), Rgba([10, 20, 30, 255]));
        }
        Prepared::Identical => panic!("blobs differ"),
    }
}

#[test]
fn comparison_is_symmetric_in_match() {
    let reference = solid_png(30, 30, Rgba([200, 200, 200, 255]));
    let current = with_pixel_diffs(&reference, 5);
    let ab = compare(&reference, &current).unwrap().result;
    let ba = compare(&current, &reference).unwrap().result;
    assert_eq!(ab.is_match, ba.is_match);
    let same = compare(&reference, &reference).unwrap();
    assert_eq!(same.score, 0.0);
}

#[test]
fn undecodable_reference_is_an_error() {
    let good = solid_png(4, 4, Rgba([1, 2, 3, 255]));
    let bad = vec![1u8, 2, 3];
    assert!(matches!(compare(&bad, &good), Err(CompareError::DecodeReference)));
    assert!(matches!(compare(&good, &bad), Err(CompareError::DecodeCurrent)));
    assert_eq!(CompareError::DecodeReference.message(), "Failed to decode reference PNG");
}
