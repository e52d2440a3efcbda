use imgpreview::engine::{choose_preview, compression_ratio, select_index, ImagePreview};
use imgpreview::error::ImageError;

fn cand(len: usize, diff: u64, tag: &str) -> ImagePreview {
    ImagePreview::new(vec![0u8; len], tag.to_string(), diff, 1000)
}

#[test]
fn ratio_exact_values() {
    assert_eq!(compression_ratio(1000, 250), 75);
    assert_eq!(compression_ratio(3, 2), 33);
    assert_eq!(compression_ratio(8, 1), 88);
    assert_eq!(compression_ratio(200, 1), 100);
    assert_eq!(compression_ratio(1000, 0), 100);
}

#[test]
fn ratio_is_zero_without_savings() {
    assert_eq!(compression_ratio(1000, 1000), 0);
    assert_eq!(compression_ratio(1000, 5000), 0);
    assert_eq!(compression_ratio(0, 5), 0);
    assert_eq!(compression_ratio(0, 0), 0);
}

#[test]
fn ratio_stays_in_range_for_extremes() {
    assert_eq!(compression_ratio(usize::MAX, 0), 100);
    assert_eq!(compression_ratio(usize::MAX, 1), 100);
    assert!(compression_ratio(usize::MAX, usize::MAX / 2) <= 100);
}

#[test]
fn candidate_scores_against_source() {
    let c = cand(400, 12, "png");
    assert_eq!(c.ratio, 60);
    assert_eq!(c.diff, 12);
    assert_eq!(c.image_type, "png");
}

#[test]
fn smallest_within_threshold_is_chosen() {
    let cs = vec![cand(500, 100, "a"), cand(300, 900, "b"), cand(400, 200, "c")];
    assert_eq!(select_index(&cs, Some(300)), Some(2));
    assert_eq!(select_index(&cs, None), Some(1));
    assert_eq!(select_index(&cs, Some(900)), Some(1));
}

#[test]
fn closest_is_chosen_when_none_meets_threshold() {
    let cs = vec![cand(500, 100, "a"), cand(300, 90, "b"), cand(400, 200, "c")];
    assert_eq!(select_index(&cs, Some(10)), Some(1));
}

#[test]
fn ties_go_to_lower_diff_then_first_tried() {
    let cs = vec![cand(300, 50, "a"), cand(300, 40, "b"), cand(300, 40, "c")];
    assert_eq!(select_index(&cs, None), Some(1));
    let ds = vec![cand(300, 5, "a"), cand(200, 5, "b"), cand(200, 5, "c")];
    assert_eq!(select_index(&ds, Some(1)), Some(1));
}

#[test]
fn no_candidates_select_nothing() {
    let cs: Vec<ImagePreview> = Vec::new();
    assert_eq!(select_index(&cs, None), None);
}

#[test]
fn failed_attempts_are_skipped() {
    let outcomes = vec![
        Err(ImageError::quantization("q".to_string())),
        Ok(cand(600, 0, "png")),
        Err(ImageError::codec("c".to_string())),
        Ok(cand(300, 5, "webp")),
    ];
    let p = choose_preview(outcomes, Some(10)).ok().unwrap();
    assert_eq!(p.image_type, "webp");
    assert_eq!(p.data.len(), 300);
    assert_eq!(p.ratio, 70);
}

#[test]
fn all_attempts_failing_is_codec_error() {
    let outcomes = vec![
        Err(ImageError::quantization("q".to_string())),
        Err(ImageError::decode("d".to_string())),
    ];
    let e = choose_preview(outcomes, None).err().unwrap();
    assert_eq!(e.category, "codec");
    let none: Vec<Result<ImagePreview, ImageError>> = Vec::new();
    assert_eq!(choose_preview(none, Some(3)).err().unwrap().category, "codec");
}
