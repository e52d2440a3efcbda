use base64::Engine;
use imgpreview::error::{HTTPError, ImageError, DEFAULT_STATUS};

#[test]
fn default_envelope_is_bad_request() {
    let e = HTTPError::default();
    assert_eq!(e.message, "");
    assert_eq!(e.category, "unknown");
    assert_eq!(e.status, 400);
}

#[test]
fn malformed_base64_is_payload_error() {
    let err = base64::engine::general_purpose::STANDARD.decode("not base64!!").unwrap_err();
    let e = HTTPError::from_base64(err);
    assert_eq!(e.category, "payload");
    assert_eq!(e.status, 400);
    assert!(!e.message.is_empty());
}

#[test]
fn transport_message_is_mirrored() {
    let e = HTTPError::transport("connection refused".to_string());
    assert_eq!(e.category, "transport");
    assert_eq!(e.message, "connection refused");
    assert_eq!(e.status, DEFAULT_STATUS);
}

#[test]
fn bad_header_text_is_transport_error() {
    let value = reqwest::header::HeaderValue::from_bytes(&[0xff]).unwrap();
    let err = value.to_str().unwrap_err();
    let e = HTTPError::from_header(err);
    assert_eq!(e.category, "transport");
    assert_eq!(e.message, "failed to convert header to a str");
    assert_eq!(e.status, 400);
}

#[test]
fn payload_envelope_keeps_message() {
    let e = HTTPError::payload("bad padding".to_string());
    assert_eq!(e.category, "payload");
    assert_eq!(e.message, "bad padding");
    assert_eq!(e.status, 400);
}

#[test]
fn undecodable_image_is_decode_error() {
    let err = image::load_from_memory(b"definitely not an image").unwrap_err();
    let e = ImageError::from_decode(err);
    assert_eq!(e.category, "decode");
    assert!(!e.message.is_empty());
}

#[test]
fn bad_png_is_codec_error() {
    let err = lodepng::decode32(b"not a png").unwrap_err();
    let e = ImageError::from_codec(err);
    assert_eq!(e.category, "codec");
    assert!(!e.message.is_empty());
}

#[test]
fn quality_out_of_range_is_quantization_error() {
    let mut attr = imagequant::new();
    let err = attr.set_quality(90, 50).unwrap_err();
    let e = ImageError::from_quantization(err);
    assert_eq!(e.category, "quantization");
    assert!(!e.message.is_empty());
}

#[test]
fn plain_message_is_unknown_error() {
    let e = ImageError::unknown("something odd".to_string());
    assert_eq!(e.category, "unknown");
    assert_eq!(e.message, "something odd");
}

#[test]
fn image_error_becomes_envelope() {
    let e: HTTPError = ImageError::codec("encoder failed".to_string()).into();
    assert_eq!(e.category, "codec");
    assert_eq!(e.message, "encoder failed");
    assert_eq!(e.status, 400);
    let f = HTTPError::from_image_error(ImageError::new("x".to_string(), "custom"));
    assert_eq!(f.category, "custom");
    assert_eq!(f.message, "x");
    assert_eq!(f.status, 400);
}

#[test]
fn response_status_falls_back_to_default() {
    let mut e = HTTPError::default();
    e.status = 404;
    assert_eq!(e.response_status(), 404);
    e.status = 100;
    assert_eq!(e.response_status(), 100);
    e.status = 999;
    assert_eq!(e.response_status(), 999);
    e.status = 99;
    assert_eq!(e.response_status(), 400);
    e.status = 1000;
    assert_eq!(e.response_status(), 400);
    e.status = 0;
    assert_eq!(e.response_status(), 400);
}

#[test]
fn outside_errors_convert_with_into() {
    let err = base64::engine::general_purpose::STANDARD.decode("%%%").unwrap_err();
    let e: HTTPError = err.into();
    assert_eq!(e.category, "payload");
    assert_eq!(e.status, 400);
    let bad = reqwest::header::HeaderValue::from_bytes(&[0xfe]).unwrap();
    let e: HTTPError = bad.to_str().unwrap_err().into();
    assert_eq!(e.category, "transport");
    let e: ImageError = lodepng::decode32(b"xx").unwrap_err().into();
    assert_eq!(e.category, "codec");
    let e: ImageError = "plain failure".to_string().into();
    assert_eq!(e.category, "unknown");
    assert_eq!(e.message, "plain failure");
}

#[test]
fn empty_message_keeps_unknown_category() {
    let e: ImageError = String::new().into();
    assert_eq!(e.message, "");
    assert_eq!(e.category, "unknown");
    let h: HTTPError = e.into();
    assert_eq!(h.category, "unknown");
    assert_eq!(h.status, 400);
    let q: ImageError = imagequant::new().set_max_colors(1).unwrap_err().into();
    assert_eq!(q.category, "quantization");
    let d: ImageError = image::load_from_memory(b"??").unwrap_err().into();
    assert_eq!(d.category, "decode");
}
