use evlf_editor::{
    parse_u64, str_contains, str_eq, AspectRatio, AudioFormat, CodecId, FrameRate, Resolution,
    TimePosition, Timestamp, VideoEditorError, VideoFormat,
};

#[test]
fn test_time_position_conversions() {
    let rate = FrameRate::fps_30();
    let pos = TimePosition::from_frame(90, &rate);
    assert_eq!(pos.ms, 3000);
    assert_eq!(pos.to_frame(&rate), 90);
    assert_eq!(TimePosition::from_secs(2).ms, 2000);
    assert_eq!(TimePosition::from_ms(2500).as_secs(), 2);
}

#[test]
fn test_frame_rate_durations() {
    assert_eq!(FrameRate::fps_30().frame_duration_us(), 33333);
    assert_eq!(FrameRate::new(0, 1).frame_duration_us(), 0);
    assert!(FrameRate::fps_29_97().is_drop_frame());
    assert!(!FrameRate::fps_30().is_drop_frame());
}

#[test]
fn test_resolution() {
    let r = Resolution::fhd();
    assert_eq!(r.pixel_count(), 1920 * 1080);
    assert!(!r.is_ultra_hd());
    assert!(Resolution::uhd().is_ultra_hd());
    assert_eq!(r.scaled_to_width(960).height, 540);
    assert_eq!(r.scaled_to_height(540).width, 960);
}

#[test]
fn test_aspect_ratio_reduction() {
    let ratio = AspectRatio::from_resolution(&Resolution::fhd());
    assert_eq!(ratio.width, 16);
    assert_eq!(ratio.height, 9);
    let degenerate = AspectRatio::from_resolution(&Resolution::new(0, 0));
    assert_eq!((degenerate.width, degenerate.height), (16, 9));
}

#[test]
fn test_format_capabilities() {
    assert!(VideoFormat::H265.supports_8k());
    assert!(!VideoFormat::H264.supports_8k());
    assert!(VideoFormat::ProRes.is_lossless());
    assert!(AudioFormat::FLAC.is_lossless());
    assert!(!AudioFormat::AAC.is_lossless());
    assert!(AudioFormat::AC3.supports_surround());
}

#[test]
fn test_timestamps() {
    let a = Timestamp::new(100);
    let b = Timestamp::new(160);
    assert!(a.is_before(&b));
    assert!(b.is_after(&a));
    assert_eq!(b.elapsed_since(a).as_secs(), 60);
    assert_eq!(a.elapsed_since(b).as_secs(), 0);
    assert_eq!(Timestamp::epoch().as_secs(), 0);
}

#[test]
fn test_codec_ids() {
    assert!(CodecId::H264.is_video());
    assert!(CodecId::Aac.is_audio());
    assert!(CodecId::Flac.is_lossless());
    assert_eq!(CodecId::H264.name(), "H.264/AVC");
}

#[test]
fn test_text_helpers() {
    assert!(str_eq("abc", "abc"));
    assert!(!str_eq("abc", "abd"));
    assert!(str_contains("hello world", "lo wo"));
    assert!(!str_contains("hello", "world"));
    assert!(str_contains("anything", ""));
}

#[test]
fn test_error_constructors() {
    assert!(matches!(
        VideoEditorError::unsupported_format("x".to_string()),
        VideoEditorError::UnsupportedFormat(_)
    ));
    assert!(matches!(
        VideoEditorError::conversion("x".to_string()),
        VideoEditorError::Conversion(_)
    ));
    assert!(matches!(
        VideoEditorError::decoder("x".to_string()),
        VideoEditorError::Decoder(_)
    ));
}

#[test]
fn test_from_timecode() {
    let rate = FrameRate::fps_30();
    assert_eq!(
        TimePosition::from_timecode("01:02:03", &rate).map(|p| p.ms),
        Some(3_723_000)
    );
    assert_eq!(
        TimePosition::from_timecode("00:00:01.500", &rate).map(|p| p.ms),
        Some(1500)
    );
    // Four fields: the last is a frame count at the rate (15 frames at
    // 30 fps is half a second).
    assert_eq!(
        TimePosition::from_timecode("00:00:01:15", &rate).map(|p| p.ms),
        Some(1500)
    );
    assert!(TimePosition::from_timecode("00:01", &rate).is_none());
    assert!(TimePosition::from_timecode("aa:bb:cc", &rate).is_none());
    assert!(TimePosition::from_timecode("00:00:01.", &rate).is_none());
}

#[test]
fn test_parse_u64_helper() {
    assert_eq!(parse_u64("0"), Some(0));
    assert_eq!(parse_u64("18446744073709551615"), Some(u64::MAX));
    assert_eq!(parse_u64("18446744073709551616"), None);
    assert_eq!(parse_u64(""), None);
    assert_eq!(parse_u64("12a"), None);
}
