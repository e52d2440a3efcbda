use imgpreview::pixels::{ImageInfo, Rgba8};

#[test]
fn extract_keeps_pixel_and_channel_order() {
    let samples: Vec<u8> = vec![1, 2, 3, 4, 5, 6, 7, 8, 9, 10, 11, 12, 13, 14, 15, 16];
    let info = ImageInfo::extract(2, 2, &samples);
    assert_eq!(info.width, 2);
    assert_eq!(info.height, 2);
    assert_eq!(info.buffer.len(), 4);
    assert_eq!(info.buffer[0], Rgba8 { r: 1, g: 2, b: 3, a: 4 });
    assert_eq!(info.buffer[3], Rgba8 { r: 13, g: 14, b: 15, a: 16 });
}

#[test]
fn extract_ignores_samples_past_the_grid() {
    let samples: Vec<u8> = vec![9, 8, 7, 6, 5, 4, 3, 2];
    let info = ImageInfo::extract(1, 1, &samples);
    assert_eq!(info.buffer, vec![Rgba8 { r: 9, g: 8, b: 7, a: 6 }]);
}

#[test]
fn extract_of_decoded_image() {
    let img = image::RgbaImage::from_pixel(10, 10, image::Rgba([255, 0, 0, 255]));
    let (w, h) = img.dimensions();
    let info = ImageInfo::extract(w as usize, h as usize, img.as_raw());
    assert_eq!(info.buffer.len(), 100);
    assert!(info.buffer.iter().all(|p| *p == Rgba8 { r: 255, g: 0, b: 0, a: 255 }));
}

#[test]
fn extracting_twice_changes_nothing() {
    let samples: Vec<u8> = (0..24).collect();
    let once = ImageInfo::extract(3, 2, &samples);
    let flat = once.to_samples();
    assert_eq!(flat, samples);
    let twice = ImageInfo::extract(3, 2, &flat);
    assert_eq!(twice.buffer, once.buffer);
    assert_eq!(twice.buffer.len(), twice.width * twice.height);
}
