use evlf_editor::{
    AssetLibrary, EffectType, EffectsPipeline, GpuPipeline, VideoEditorConfig, VideoEditorPlugin,
};

#[test]
fn test_plugin_creation() {
    let plugin = VideoEditorPlugin::default();
    assert!(plugin.config().max_tracks > 0);
}

#[test]
fn lib_test_plugin_creation() {
    let config = VideoEditorConfig::default();
    assert!(config.max_tracks > 0);
}

#[test]
fn test_new_project() {
    let mut plugin = VideoEditorPlugin::default();
    plugin.new_project();
    assert_eq!(plugin.timeline().tracks().len(), 2);
}

#[test]
fn test_asset_import() {
    let mut plugin = VideoEditorPlugin::default();
    let result = plugin.assets_mut().import_video("test.mp4");
    assert!(result.is_ok());
}

#[test]
fn test_asset_import_empty_path_fails() {
    let mut library = AssetLibrary::new();
    assert!(library.import_video("").is_err());
    assert!(library.import_audio("").is_err());
    assert!(library.import_audio("track.wav").is_ok());
    assert_eq!(library.audio_clips().len(), 1);
}

#[test]
fn test_gpu_initialize() {
    let mut gpu = GpuPipeline::new(false);
    assert!(!gpu.initialize());
    assert!(!gpu.is_available());
    let mut gpu_on = GpuPipeline::new(true);
    assert!(gpu_on.initialize());
    assert!(gpu_on.is_available());
}

#[test]
fn test_effects_pipeline() {
    let mut effects = EffectsPipeline::new();
    let id = effects.add_effect(EffectType::Blur);
    assert_eq!(effects.effects().len(), 1);
    assert!(effects.remove_effect(id));
    assert!(!effects.remove_effect(id));
}
