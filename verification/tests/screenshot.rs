use base64::Engine;
use mcp_bridge::screenshot::{
    convert_format, convert_to_jpeg, get_effective_max_width, package_screenshot, resize_if_needed,
    resize_target, resize_with_dims, Screenshot, ScreenshotError,
};

/// An RGB test image of the given size, encoded as PNG.
fn png_bytes(width: u32, height: u32) -> Vec<u8> {
    let img = image::RgbImage::from_fn(width, height, |x, y| {
        image::Rgb([(x % 256) as u8, (y % 256) as u8, ((x + y) % 256) as u8])
    });
    let mut buffer = std::io::Cursor::new(Vec::new());
    image::DynamicImage::ImageRgb8(img)
        .write_to(&mut buffer, image::ImageFormat::Png)
        .expect("encoding the test image cannot fail");
    buffer.into_inner()
}

fn dims_of(bytes: &[u8]) -> (u32, u32) {
    let img = image::load_from_memory(bytes).expect("output must decode");
    (img.width(), img.height())
}

/// Round half away from zero of `h * c / w`, as the resize policy computes it.
fn rounded_height(h: u64, c: u64, w: u64) -> u32 {
    ((2 * h * c + w) / (2 * w)) as u32
}

#[test]
fn resize_is_identity_when_width_is_under_the_ceiling() {
    let data = png_bytes(200, 100);
    let out = resize_if_needed(data.clone(), 300).expect("no resize needed");
    assert_eq!(out, data);
}

#[test]
fn resize_is_identity_when_width_equals_the_ceiling() {
    let data = png_bytes(200, 100);
    let out = resize_if_needed(data.clone(), 200).expect("no resize needed");
    assert_eq!(out, data);
}

#[test]
fn resize_hits_the_ceiling_exactly_and_keeps_the_aspect_ratio() {
    let data = png_bytes(401, 301);
    let out = resize_if_needed(data, 100).expect("resize must succeed");
    let (w, h) = dims_of(&out);
    assert_eq!(w, 100);
    assert_eq!(h, rounded_height(301, 100, 401));
    assert_eq!(h, 75);
}

#[test]
fn resize_never_upscales() {
    let data = png_bytes(120, 80);
    let out = resize_if_needed(data.clone(), 500).expect("no resize needed");
    let (w, _) = dims_of(&out);
    assert!(w <= 120);
    assert_eq!(out, data);
}

#[test]
fn resize_target_matches_the_policy_formula() {
    assert_eq!(resize_target(4000, 3000, 1000), Some((1000, 750)));
    assert_eq!(resize_target(800, 600, 800), None);
    assert_eq!(resize_target(800, 600, 1000), None);
    assert_eq!(resize_target(3, 1000, 2), Some((2, 667)));
    // A ceiling below 1 is clamped to 1 rather than producing a degenerate
    // zero-width target.
    assert_eq!(resize_target(10, 10, 0), Some((1, 1)));
}

#[test]
fn resize_with_dims_is_identity_when_the_width_fits() {
    // No codec is consulted on this path, so the bytes need not even be an
    // image.
    let data = vec![1u8, 2, 3, 4, 5];
    let out = resize_with_dims(data.clone(), 100, 80, 200).expect("no resize needed");
    assert_eq!(out, data);
}

#[test]
fn resize_with_dims_resamples_to_the_policy_target() {
    let data = png_bytes(401, 301);
    let out = resize_with_dims(data, 401, 301, 100).expect("resize must succeed");
    assert_eq!(dims_of(&out), (100, 75));
}

#[test]
fn resize_of_undecodable_bytes_is_a_resize_failure() {
    let r = resize_if_needed(vec![1, 2, 3, 4], 100);
    match r {
        Err(e) => {
            assert!(matches!(e, ScreenshotError::ResizeFailed(_)));
            assert!(e.message().starts_with("Resize failed: "));
        }
        Ok(_) => panic!("garbage bytes must not resize"),
    }
}

#[test]
fn convert_format_to_png_is_the_identity_for_any_quality() {
    let data = png_bytes(50, 40);
    for quality in [0u8, 37, 100] {
        let out = convert_format(data.clone(), "png", quality).expect("png is a no-op");
        assert_eq!(out, data);
    }
}

#[test]
fn convert_format_to_jpeg_reencodes() {
    let data = png_bytes(50, 40);
    let out = convert_format(data.clone(), "jpeg", 80).expect("jpeg conversion must succeed");
    assert_ne!(out, data);
    assert_eq!(
        image::guess_format(&out).expect("output must have a known format"),
        image::ImageFormat::Jpeg
    );
    assert_eq!(dims_of(&out), (50, 40));
}

#[test]
fn convert_of_undecodable_bytes_is_an_encode_failure() {
    let r = convert_to_jpeg(vec![9, 9, 9], 80);
    match r {
        Err(e) => {
            assert!(matches!(e, ScreenshotError::EncodeFailed(_)));
            assert!(e.message().starts_with("Encoding failed: "));
        }
        Ok(_) => panic!("garbage bytes must not convert"),
    }
}

#[test]
fn error_messages_name_each_failure() {
    assert_eq!(
        ScreenshotError::PlatformUnsupported.message(),
        "Platform not supported"
    );
    assert_eq!(
        ScreenshotError::CaptureFailed("no surface".to_string()).message(),
        "Webview capture failed: no surface"
    );
    assert_eq!(ScreenshotError::Timeout.message(), "Timeout exceeded");
}

#[test]
fn effective_width_prefers_the_explicit_parameter() {
    assert_eq!(get_effective_max_width(Some(500), Some("2000")), Some(500));
    assert_eq!(get_effective_max_width(None, Some("2000")), Some(2000));
    assert_eq!(get_effective_max_width(None, None), None);
    assert_eq!(get_effective_max_width(None, Some("not a number")), None);
    assert_eq!(get_effective_max_width(None, Some("+123")), Some(123));
    assert_eq!(get_effective_max_width(None, Some("")), None);
    assert_eq!(get_effective_max_width(None, Some("99999999999")), None);
}

#[test]
fn pipeline_without_ceiling_packages_the_original_png() {
    let data = png_bytes(800, 600);
    let shot = Screenshot { data: data.clone() };
    let uri = package_screenshot(shot, "png", 90, None, None).expect("png pass-through succeeds");
    let expected = format!(
        "data:image/png;base64,{}",
        base64::engine::general_purpose::STANDARD.encode(&data)
    );
    assert_eq!(uri, expected);
}

#[test]
fn pipeline_resizes_and_transcodes_to_jpeg() {
    let data = png_bytes(400, 300);
    let shot = Screenshot { data };
    let uri =
        package_screenshot(shot, "jpeg", 80, Some(100), None).expect("jpeg pipeline succeeds");
    let payload = uri
        .strip_prefix("data:image/jpeg;base64,")
        .expect("the data URI must carry the jpeg MIME label");
    let bytes = base64::engine::general_purpose::STANDARD
        .decode(payload)
        .expect("the payload must be valid base64");
    assert_eq!(
        image::guess_format(&bytes).expect("output must have a known format"),
        image::ImageFormat::Jpeg
    );
    assert_eq!(dims_of(&bytes), (100, 75));
}

#[test]
fn data_uri_payload_round_trips_to_the_post_resize_width() {
    let data = png_bytes(400, 300);
    let shot = Screenshot { data };
    let uri = package_screenshot(shot, "png", 90, Some(128), None).expect("png pipeline succeeds");
    let payload = uri
        .strip_prefix("data:image/png;base64,")
        .expect("the data URI must carry the png MIME label");
    let bytes = base64::engine::general_purpose::STANDARD
        .decode(payload)
        .expect("the payload must be valid base64");
    assert_eq!(dims_of(&bytes), (128, 96));
}

#[test]
fn pipeline_downscales_a_large_capture_to_jpeg() {
    let data = png_bytes(1600, 1200);
    let shot = Screenshot { data };
    let uri =
        package_screenshot(shot, "jpeg", 80, Some(400), None).expect("jpeg pipeline succeeds");
    let payload = uri
        .strip_prefix("data:image/jpeg;base64,")
        .expect("the data URI must carry the jpeg MIME label");
    let bytes = base64::engine::general_purpose::STANDARD
        .decode(payload)
        .expect("the payload must be valid base64");
    assert_eq!(dims_of(&bytes), (400, 300));
}

#[test]
fn explicit_max_width_overrides_the_process_default() {
    let data = png_bytes(800, 100);
    let shot = Screenshot { data };
    let uri = package_screenshot(shot, "png", 90, Some(500), Some("2000"))
        .expect("png pipeline succeeds");
    let payload = uri
        .strip_prefix("data:image/png;base64,")
        .expect("the data URI must carry the png MIME label");
    let bytes = base64::engine::general_purpose::STANDARD
        .decode(payload)
        .expect("the payload must be valid base64");
    let (w, h) = dims_of(&bytes);
    assert_eq!(w, 500);
    assert_eq!(h, rounded_height(100, 500, 800));
}

#[test]
fn process_default_applies_when_no_parameter_is_given() {
    let data = png_bytes(300, 300);
    let shot = Screenshot { data };
    let uri =
        package_screenshot(shot, "png", 90, None, Some("150")).expect("png pipeline succeeds");
    let payload = uri
        .strip_prefix("data:image/png;base64,")
        .expect("the data URI must carry the png MIME label");
    let bytes = base64::engine::general_purpose::STANDARD
        .decode(payload)
        .expect("the payload must be valid base64");
    assert_eq!(dims_of(&bytes), (150, 150));
}
