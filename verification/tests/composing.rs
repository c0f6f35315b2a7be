use png_to_webp_backend::compose::{output_filename, success_response};
use png_to_webp_backend::errors::AppError;
use png_to_webp_backend::health::health_payload;
use png_to_webp_backend::ingest::MediaKind;

#[test]
fn image_names_strip_png_case_insensitively() {
    assert_eq!(output_filename(MediaKind::Image, Some("photo.png".to_string())), "photo.webp");
    assert_eq!(output_filename(MediaKind::Image, Some("photo.PNG".to_string())), "photo.webp");
    assert_eq!(output_filename(MediaKind::Image, Some("Photo.PnG".to_string())), "Photo.webp");
}

#[test]
fn image_names_fall_back_to_placeholder() {
    assert_eq!(output_filename(MediaKind::Image, None), "converted.webp");
    assert_eq!(output_filename(MediaKind::Image, Some("photo.jpg".to_string())), "converted.webp");
    assert_eq!(output_filename(MediaKind::Image, Some("png".to_string())), "converted.webp");
}

#[test]
fn video_names_strip_last_extension() {
    assert_eq!(output_filename(MediaKind::Video, Some("movie.mp4".to_string())), "movie.webm");
    assert_eq!(
        output_filename(MediaKind::Video, Some("archive.tar.mp4".to_string())),
        "archive.tar.webm"
    );
    assert_eq!(output_filename(MediaKind::Video, Some("noext".to_string())), "converted.webm");
    assert_eq!(output_filename(MediaKind::Video, None), "converted.webm");
}

#[test]
fn success_response_encodes_base64() {
    let resp = success_response(MediaKind::Image, None, 3, &vec![b'M', b'a', b'n']);
    assert_eq!(resp.webp_data, "TWFu");
    let resp = success_response(MediaKind::Image, None, 2, &vec![b'M', b'a']);
    assert_eq!(resp.webp_data, "TWE=");
    let resp = success_response(MediaKind::Image, None, 1, &vec![b'M']);
    assert_eq!(resp.webp_data, "TQ==");
    let resp = success_response(MediaKind::Image, None, 0, &Vec::new());
    assert_eq!(resp.webp_data, "");
}

#[test]
fn success_response_fields() {
    let resp = success_response(MediaKind::Video, Some("clip.mp4".to_string()), 10, &vec![1, 2]);
    assert!(resp.success);
    assert_eq!(resp.message, "Video converted successfully");
    assert_eq!(resp.filename, "clip.webm");
    assert_eq!(resp.original_size, 10);
    assert_eq!(resp.converted_size, 2);
}

#[test]
fn error_mapping_is_total() {
    let cases = vec![
        (AppError::BadRequest("a".to_string()), 400, "BAD_REQUEST"),
        (AppError::ProcessingError("b".to_string()), 422, "PROCESSING_ERROR"),
        (AppError::InternalError("c".to_string()), 500, "INTERNAL_ERROR"),
        (AppError::NotFound("d".to_string()), 404, "NOT_FOUND"),
    ];
    for (err, status, code) in cases {
        assert_eq!(err.status_code(), status);
        assert_eq!(err.code(), code);
    }
}

#[test]
fn api_error_record() {
    let err = AppError::ProcessingError("decode failed".to_string());
    let body = err.to_api_error("2024-01-01T00:00:00Z".to_string());
    assert!(!body.success);
    assert_eq!(body.error, "decode failed");
    assert_eq!(body.code, "PROCESSING_ERROR");
    assert_eq!(body.timestamp, "2024-01-01T00:00:00Z");
}

#[test]
fn health_payload_fields() {
    let h = health_payload();
    assert_eq!(h.status, "healthy");
    assert_eq!(h.service, "png-to-webp-converter");
    assert_eq!(h.version, "0.1.0");
}
