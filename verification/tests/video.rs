use png_to_webp_backend::errors::AppError;
use png_to_webp_backend::models::{CompressionQuality, VideoCompressionSettings};
use png_to_webp_backend::video_processor::{
    ffmpeg_args, int_to_dec_string, transcode_exit_outcome, transcode_settings,
};

#[test]
fn quality_preset_values() {
    let cases = vec![
        (CompressionQuality::Maximum, 35, 6, "realtime", "35", "6"),
        (CompressionQuality::High, 28, 4, "good", "28", "4"),
        (CompressionQuality::Balanced, 25, 3, "good", "25", "3"),
        (CompressionQuality::Low, 20, 2, "best", "20", "2"),
        (CompressionQuality::Minimal, 18, 1, "best", "18", "1"),
    ];
    for (q, crf, cpu, deadline, crf_text, cpu_text) in cases {
        assert_eq!(q.crf_value(), crf);
        assert_eq!(q.cpu_used(), cpu);
        assert_eq!(q.deadline(), deadline);
        assert_eq!(q.crf_text(), crf_text);
        assert_eq!(q.cpu_used_text(), cpu_text);
    }
}

#[test]
fn default_settings() {
    let s = VideoCompressionSettings::default();
    assert_eq!(s.quality, CompressionQuality::High);
    assert_eq!(s.audio_bitrate.as_deref(), Some("64k"));
}

#[test]
fn transcoder_invocation_is_pinned() {
    let settings = transcode_settings();
    let args = ffmpeg_args(&settings, "/tmp/in.mp4", "/tmp/out.webm");
    let expected: Vec<&str> = vec![
        "-i", "/tmp/in.mp4", "-c:v", "libvpx-vp9", "-crf", "35", "-b:v", "0", "-deadline",
        "realtime", "-cpu-used", "6", "-c:a", "libopus", "-b:a", "96k", "-f", "webm", "-y",
        "/tmp/out.webm",
    ];
    assert_eq!(args, expected);
}

#[test]
fn args_follow_the_preset() {
    let settings = VideoCompressionSettings {
        quality: CompressionQuality::Low,
        audio_bitrate: None,
    };
    let args = ffmpeg_args(&settings, "a", "b");
    assert_eq!(args[5], "20");
    assert_eq!(args[9], "best");
    assert_eq!(args[11], "2");
    assert_eq!(args[15], "96k");
}

#[test]
fn decimal_rendering() {
    assert_eq!(int_to_dec_string(0), "0");
    assert_eq!(int_to_dec_string(7), "7");
    assert_eq!(int_to_dec_string(350), "350");
    assert_eq!(int_to_dec_string(-123), "-123");
    assert_eq!(int_to_dec_string(i32::MAX), "2147483647");
    assert_eq!(int_to_dec_string(i32::MIN), "-2147483648");
}

#[test]
fn nonzero_exit_is_processing_error() {
    let err = transcode_exit_outcome(false, Some(1)).unwrap_err();
    assert_eq!(err.status_code(), 422);
    assert_eq!(err.code(), "PROCESSING_ERROR");
    match err {
        AppError::ProcessingError(m) => assert_eq!(m, "ffmpeg exited with status: 1"),
        other => panic!("unexpected error: {:?}", other),
    }
}

#[test]
fn signal_exit_is_processing_error() {
    let err = transcode_exit_outcome(false, None).unwrap_err();
    match err {
        AppError::ProcessingError(m) => assert_eq!(m, "ffmpeg terminated by a signal"),
        other => panic!("unexpected error: {:?}", other),
    }
}

#[test]
fn clean_exit_is_ok() {
    assert!(transcode_exit_outcome(true, Some(0)).is_ok());
}
