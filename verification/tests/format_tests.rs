use evlf_editor::{detect_format, InputFormat, InputFormatCategory};

#[test]
fn test_format_detection() {
    assert_eq!(InputFormat::from_extension("mp4"), Some(InputFormat::Mp4));
    assert_eq!(InputFormat::from_extension("PNG"), Some(InputFormat::Png));
    assert_eq!(InputFormat::from_extension("glTF"), Some(InputFormat::Gltf));
    assert_eq!(InputFormat::from_extension("svg"), Some(InputFormat::Svg));
    assert_eq!(InputFormat::from_extension("unknown"), None);
}

#[test]
fn test_format_category() {
    assert_eq!(InputFormat::Mp4.category(), InputFormatCategory::Video);
    assert_eq!(InputFormat::Png.category(), InputFormatCategory::Image);
    assert_eq!(InputFormat::Gltf.category(), InputFormatCategory::Model3D);
    assert_eq!(InputFormat::Svg.category(), InputFormatCategory::Vector);
    assert_eq!(InputFormat::Wav.category(), InputFormatCategory::Audio);
}

#[test]
fn test_path_format_detection() {
    assert_eq!(detect_format("video.mp4"), Some(InputFormat::Mp4));
    assert_eq!(detect_format("/path/to/image.png"), Some(InputFormat::Png));
    assert_eq!(detect_format("model.glb"), Some(InputFormat::Glb));
}

#[test]
fn test_format_aliases_and_extension() {
    assert_eq!(InputFormat::from_extension("m4v"), Some(InputFormat::Mp4));
    assert_eq!(InputFormat::from_extension("jpeg"), Some(InputFormat::Jpeg));
    assert_eq!(InputFormat::from_extension("m2ts"), Some(InputFormat::Ts));
    assert_eq!(InputFormat::Jpeg.extension(), "jpg");
    assert_eq!(InputFormat::Max3ds.extension(), "3ds");
    assert!(InputFormat::Psd.requires_external_decoder());
    assert!(!InputFormat::Png.requires_external_decoder());
}

#[test]
fn test_path_without_extension() {
    assert_eq!(detect_format("noext"), None);
    assert_eq!(detect_format("trailing."), None);
}
