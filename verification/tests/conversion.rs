use png_to_webp_backend::errors::AppError;
use png_to_webp_backend::image_processor::{convert_png_to_webp, is_valid_png, is_valid_webp};
use png_to_webp_backend::ingest::{extract_field, MediaKind, UploadedAsset};
use png_to_webp_backend::pipeline::convert_image_upload;

const PNG_SIG: [u8; 8] = [0x89, 0x50, 0x4E, 0x47, 0x0D, 0x0A, 0x1A, 0x0A];

fn part(name: &str, filename: Option<&str>, bytes: Vec<u8>) -> UploadedAsset {
    UploadedAsset {
        field_name: name.to_string(),
        filename: filename.map(|s| s.to_string()),
        bytes,
    }
}

fn red_png_10x10() -> Vec<u8> {
    let img = image::RgbImage::from_pixel(10, 10, image::Rgb([255, 0, 0]));
    let mut buf: Vec<u8> = Vec::new();
    let mut cursor = std::io::Cursor::new(&mut buf);
    img.write_to(&mut cursor, image::ImageFormat::Png).unwrap();
    buf
}

#[test]
fn png_signature_accepted() {
    let mut data = PNG_SIG.to_vec();
    assert!(is_valid_png(&data));
    data.extend_from_slice(&[1, 2, 3]);
    assert!(is_valid_png(&data));
}

#[test]
fn png_signature_rejected() {
    assert!(!is_valid_png(&[]));
    assert!(!is_valid_png(&PNG_SIG[..7]));
    let mut wrong = PNG_SIG.to_vec();
    wrong[3] = 0x48;
    assert!(!is_valid_png(&wrong));
    assert!(!is_valid_png(b"GIF89a splash"));
}

#[test]
fn webp_signature_check() {
    let mut data = b"RIFF\x04\x00\x00\x00WEBP".to_vec();
    assert!(is_valid_webp(&data));
    data[0] = b'X';
    assert!(!is_valid_webp(&data));
    assert!(!is_valid_webp(b"RIFF"));
    assert!(!is_valid_webp(&[]));
}

#[test]
fn extract_field_picks_last_match() {
    let parts = vec![
        part("other", None, vec![9]),
        part("image", Some("a.png"), vec![1]),
        part("image", Some("b.png"), vec![2]),
        part("trailing", None, vec![3]),
    ];
    let asset = extract_field(parts, MediaKind::Image).unwrap();
    assert_eq!(asset.filename.as_deref(), Some("b.png"));
    assert_eq!(asset.bytes, vec![2]);
}

#[test]
fn extract_field_missing_is_bad_request() {
    let parts = vec![part("wrong_field", None, vec![1, 2, 3])];
    let err = extract_field(parts, MediaKind::Image).unwrap_err();
    match err {
        AppError::BadRequest(m) => assert_eq!(m, "No image field found"),
        other => panic!("unexpected error: {:?}", other),
    }
}

#[test]
fn extract_field_missing_video() {
    let err = extract_field(Vec::new(), MediaKind::Video).unwrap_err();
    match err {
        AppError::BadRequest(m) => assert_eq!(m, "No video field found"),
        other => panic!("unexpected error: {:?}", other),
    }
}

#[test]
fn wrong_field_yields_400_bad_request() {
    let parts = vec![part("wrong_field", None, vec![1, 2, 3])];
    let err = convert_image_upload(parts).unwrap_err();
    assert_eq!(err.status_code(), 400);
    assert_eq!(err.code(), "BAD_REQUEST");
    match err {
        AppError::BadRequest(m) => assert_eq!(m, "No image field found"),
        other => panic!("unexpected error: {:?}", other),
    }
}

#[test]
fn non_png_bytes_rejected_before_decode() {
    let parts = vec![part("image", Some("fake.png"), b"not a png at all".to_vec())];
    let err = convert_image_upload(parts).unwrap_err();
    assert_eq!(err.status_code(), 400);
    match err {
        AppError::BadRequest(m) => assert_eq!(m, "File is not a valid PNG image"),
        other => panic!("unexpected error: {:?}", other),
    }
}

#[test]
fn truncated_png_is_processing_error() {
    let mut data = PNG_SIG.to_vec();
    data.extend_from_slice(&[0, 0, 0, 0]);
    let err = convert_png_to_webp(&data).unwrap_err();
    match err {
        AppError::ProcessingError(_) => {}
        other => panic!("unexpected error: {:?}", other),
    }
}

#[test]
fn valid_png_converts_to_valid_webp() {
    let png = red_png_10x10();
    let webp = convert_png_to_webp(&png).unwrap();
    assert!(!webp.is_empty());
    assert!(is_valid_webp(&webp));
}

#[test]
fn red_png_scenario() {
    let png = red_png_10x10();
    let original_len = png.len();
    let parts = vec![part("image", Some("photo.png"), png)];
    let resp = convert_image_upload(parts).unwrap();
    assert!(resp.success);
    assert_eq!(resp.message, "Image converted successfully");
    assert_eq!(resp.filename, "photo.webp");
    assert_eq!(resp.original_size, original_len);
    assert!(resp.converted_size > 0);
    let decoded =
        base64::Engine::decode(&base64::engine::general_purpose::STANDARD, &resp.webp_data)
            .unwrap();
    assert_eq!(decoded.len(), resp.converted_size);
    assert!(is_valid_webp(&decoded));
}
