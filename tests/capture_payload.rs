use base64::Engine;
use desktop_env::base64_text::encode_base64;
use desktop_env::capture::{
    desktop_env_screenshot, encode_frame, first_screen, png_to_payload, take_screenshot_internal,
    CaptureError, RawFrame,
};
use desktop_env::png_image::{encode_png, png_dimensions};

fn decode(text: &str) -> Vec<u8> {
    base64::engine::general_purpose::STANDARD.decode(text).expect("valid base64")
}

fn frame(width: u32, height: u32) -> RawFrame {
    let mut pixels = Vec::new();
    for i in 0..(width * height) {
        pixels.extend_from_slice(&[(i % 256) as u8, 10, 200, 255]);
    }
    RawFrame { width, height, pixels }
}

#[test]
fn payload_decodes_to_png_of_frame_size() {
    let f = frame(3, 2);
    let payload = encode_frame(&f).expect("frame encodes");
    let png = decode(&payload);
    assert_eq!(&png[..8], &[137, 80, 78, 71, 13, 10, 26, 10]);
    assert_eq!(png_dimensions(&png), Some((3, 2)));
    let img = image::load_from_memory_with_format(&png, image::ImageFormat::Png).expect("valid png");
    let rgba = img.to_rgba8();
    assert_eq!((rgba.width(), rgba.height()), (3, 2));
    assert_eq!(rgba.into_raw(), f.pixels);
}

#[test]
fn payload_of_wide_frame_declares_its_size() {
    let f = frame(300, 1);
    let payload = take_screenshot_internal(Ok(f)).expect("frame encodes");
    assert_eq!(png_dimensions(&decode(&payload)), Some((300, 1)));
}

#[test]
fn short_buffer_is_a_size_mismatch() {
    let mut f = frame(2, 2);
    f.pixels.pop();
    assert_eq!(encode_frame(&f), Err(CaptureError::BufferSizeMismatch));
}

#[test]
fn long_buffer_is_a_size_mismatch() {
    let mut f = frame(2, 2);
    f.pixels.push(0);
    assert_eq!(encode_frame(&f), Err(CaptureError::BufferSizeMismatch));
}

#[test]
fn zero_width_frame_fails_in_the_encoder() {
    let f = RawFrame { width: 0, height: 5, pixels: Vec::new() };
    assert!(matches!(encode_frame(&f), Err(CaptureError::EncodingFailed(_))));
}

#[test]
fn capture_failure_is_reported() {
    let r = take_screenshot_internal(Err("permission denied".to_string()));
    assert_eq!(r, Err(CaptureError::CaptureFailed("permission denied".to_string())));
    let answer = desktop_env_screenshot(r);
    assert!(!answer.success);
    assert_eq!(answer.screenshot_data, None);
    assert_eq!(answer.error, Some("Failed to capture screen: permission denied".to_string()));
}

#[test]
fn no_display_answers_no_screen() {
    let screens: Vec<RawFrame> = Vec::new();
    let outcome = first_screen(Ok(screens)).map(|_| String::new());
    let answer = desktop_env_screenshot(outcome);
    assert!(!answer.success);
    assert_eq!(answer.screenshot_data, None);
    let error = answer.error.expect("an error text");
    assert!(error.to_lowercase().contains("no screen"));
    assert_eq!(error, "No screen found");
}

#[test]
fn enumeration_failure_is_reported() {
    let r: Result<u8, CaptureError> = first_screen(Err("no X server".to_string()));
    let e = r.unwrap_err();
    assert_eq!(e, CaptureError::EnumerationFailed("no X server".to_string()));
    assert_eq!(e.message(), "Failed to get screens: no X server");
}

#[test]
fn first_listed_screen_is_taken() {
    assert_eq!(first_screen(Ok(vec![7u8, 8, 9])), Ok(7));
}

#[test]
fn success_answer_carries_payload() {
    let answer = desktop_env_screenshot(Ok("iVBO".to_string()));
    assert!(answer.success);
    assert_eq!(answer.screenshot_data, Some("iVBO".to_string()));
    assert_eq!(answer.error, None);
}

#[test]
fn error_messages() {
    assert_eq!(CaptureError::NoDisplayFound.message(), "No screen found");
    assert_eq!(CaptureError::BufferSizeMismatch.message(), "Failed to create image buffer");
    assert_eq!(CaptureError::CaptureFailed("x".to_string()).message(), "Failed to capture screen: x");
    assert_eq!(CaptureError::EncodingFailed("y".to_string()).message(), "Failed to encode PNG: y");
}

#[test]
fn encoder_failure_becomes_encoding_error() {
    assert_eq!(
        png_to_payload(Err("bad".to_string())),
        Err(CaptureError::EncodingFailed("bad".to_string()))
    );
    assert_eq!(png_to_payload(Ok(vec![77, 97, 110])), Ok("TWFu".to_string()));
}

#[test]
fn encode_png_writes_a_png_stream() {
    let f = frame(1, 1);
    let png = encode_png(1, 1, &f.pixels).expect("encodes");
    assert_ne!(png, f.pixels);
    assert_eq!(&png[12..16], b"IHDR");
    assert_eq!(png_dimensions(&png), Some((1, 1)));
}

#[test]
fn png_dimensions_reads_big_endian_header() {
    let mut header = vec![137u8, 80, 78, 71, 13, 10, 26, 10, 0, 0, 0, 13, 73, 72, 68, 82];
    header.extend_from_slice(&[0, 0, 7, 128, 0, 0, 4, 56]);
    assert_eq!(png_dimensions(&header), Some((1920, 1080)));
}

#[test]
fn png_dimensions_rejects_other_bytes() {
    assert_eq!(png_dimensions(&vec![0u8; 30]), None);
    assert_eq!(png_dimensions(&vec![137u8, 80, 78, 71]), None);
}

#[test]
fn base64_known_values() {
    assert_eq!(encode_base64(&Vec::new()), "");
    assert_eq!(encode_base64(&b"M".to_vec()), "TQ==");
    assert_eq!(encode_base64(&b"Ma".to_vec()), "TWE=");
    assert_eq!(encode_base64(&b"Man".to_vec()), "TWFu");
    assert_eq!(encode_base64(&vec![0xfb, 0xff, 0xbf]), "+/+/");
}

#[test]
fn base64_round_trip_of_png_stream() {
    let png = encode_png(4, 4, &frame(4, 4).pixels).expect("encodes");
    let text = encode_base64(&png);
    assert!(!text.contains('\n'));
    assert_eq!(decode(&text), png);
}
