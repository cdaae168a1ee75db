use sr_plot_rs::cache::TemplateCache;
use sr_plot_rs::error::SrPlotError;

/// A small PNG with distinct, known pixel bytes.
fn png_bytes() -> Vec<u8> {
    let mut img = image::RgbaImage::new(2, 2);
    img.put_pixel(0, 0, image::Rgba([255, 0, 0, 255]));
    img.put_pixel(1, 0, image::Rgba([0, 255, 0, 255]));
    img.put_pixel(0, 1, image::Rgba([0, 0, 255, 255]));
    img.put_pixel(1, 1, image::Rgba([10, 20, 30, 40]));
    let mut bytes = Vec::new();
    image::DynamicImage::ImageRgba8(img)
        .write_to(&mut std::io::Cursor::new(&mut bytes), image::ImageFormat::Png)
        .expect("png encode");
    bytes
}

#[test]
fn decode_produces_the_real_pixels() {
    // Exercises the decoder through the cache: the stored template
    // must be the decoded raster, not the raw bytes handed in.
    let mut cache = TemplateCache::new();
    let bytes = png_bytes();
    let t = cache.get_or_decode("probe", &bytes).expect("decode");
    assert_eq!((t.width, t.height), (2, 2));
    assert_eq!(
        t.pixels,
        vec![255, 0, 0, 255, 0, 255, 0, 255, 0, 0, 255, 255, 10, 20, 30, 40]
    );
    assert_ne!(t.pixels, bytes);
}

#[test]
fn second_lookup_returns_the_identical_template_without_decoding() {
    let mut cache = TemplateCache::new();
    let bytes = png_bytes();
    let first = cache.get_or_decode("start", &bytes).expect("decode");
    assert_eq!(cache.decode_calls(), 1);
    let second = cache.get_or_decode("start", &bytes).expect("cached");
    assert_eq!(cache.decode_calls(), 1);
    assert_eq!(first.width, second.width);
    assert_eq!(first.height, second.height);
    assert_eq!(first.pixels, second.pixels);
}

#[test]
fn distinct_names_decode_separately() {
    let mut cache = TemplateCache::new();
    let bytes = png_bytes();
    cache.get_or_decode("a", &bytes).expect("decode a");
    cache.get_or_decode("b", &bytes).expect("decode b");
    assert_eq!(cache.decode_calls(), 2);
    cache.get_or_decode("a", &bytes).expect("cached a");
    cache.get_or_decode("b", &bytes).expect("cached b");
    assert_eq!(cache.decode_calls(), 2);
}

#[test]
fn malformed_bytes_fail_and_are_not_cached() {
    let mut cache = TemplateCache::new();
    let r = cache.get_or_decode("broken", &[1, 2, 3, 4]);
    assert!(matches!(r, Err(SrPlotError::ImageProcessing(_))));
    assert_eq!(cache.decode_calls(), 1);
    // The failure is not cached: corrected bytes succeed later.
    let t = cache.get_or_decode("broken", &png_bytes()).expect("decode");
    assert_eq!((t.width, t.height), (2, 2));
    assert_eq!(cache.decode_calls(), 2);
}
