use imgpreview::engine::ImagePreview;
use imgpreview::package::{decimal_text, diff_text, DIFF_HEADER, RATIO_HEADER};

#[test]
fn diff_renders_with_two_decimals() {
    assert_eq!(diff_text(0), "0.00");
    assert_eq!(diff_text(1_234_567), "1.23");
    assert_eq!(diff_text(1_235_000), "1.24");
    assert_eq!(diff_text(12_345_000), "12.35");
    assert_eq!(diff_text(4_999), "0.00");
    assert_eq!(diff_text(5_000), "0.01");
    assert_eq!(diff_text(99_995_000), "100.00");
}

#[test]
fn decimal_text_has_no_leading_zeros() {
    assert_eq!(decimal_text(0), "0");
    assert_eq!(decimal_text(7), "7");
    assert_eq!(decimal_text(100), "100");
    assert_eq!(decimal_text(u64::MAX), "18446744073709551615");
}

#[test]
fn content_type_from_format_tag() {
    let p = ImagePreview::new(vec![1, 2, 3], "png".to_string(), 0, 10);
    assert_eq!(p.content_type(), "image/png");
    let q = ImagePreview::new(vec![1, 2, 3], "no-such-format".to_string(), 0, 10);
    assert_eq!(q.content_type(), "image/jpeg");
    let r = ImagePreview::new(vec![1, 2, 3], "".to_string(), 0, 10);
    assert_eq!(r.content_type(), "image/jpeg");
}

#[test]
fn lossless_red_square_headers() {
    let p = ImagePreview::new(vec![0u8; 90], "png".to_string(), 0, 400);
    let h = p.headers();
    assert_eq!(h.content_type.as_deref(), Some("image/png"));
    assert_eq!(h.cache_control, "public, max-age=2592000");
    assert_eq!(h.diff.as_deref(), Some("0.00"));
    assert_eq!(h.ratio.as_deref(), Some("78"));
    assert_eq!(DIFF_HEADER, "X-Dssim-Diff");
    assert_eq!(RATIO_HEADER, "X-Ratio");
}
