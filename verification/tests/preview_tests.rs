use evlf_editor::{
    FrameCache, PlaybackState, PreviewManager, PreviewQuality, Resolution, TimePosition,
};

#[test]
fn test_preview_manager_creation() {
    let manager = PreviewManager::default();
    assert_eq!(manager.state(), PlaybackState::Stopped);
    assert_eq!(manager.position().ms, 0);
}

#[test]
fn test_playback_control() {
    let mut manager = PreviewManager::default();

    manager.play();
    assert!(manager.is_playing());

    manager.pause();
    assert_eq!(manager.state(), PlaybackState::Paused);

    manager.stop();
    assert_eq!(manager.state(), PlaybackState::Stopped);
}

#[test]
fn test_seeking() {
    let mut manager = PreviewManager::default();

    manager.seek(TimePosition::from_ms(5000));
    assert_eq!(manager.position().ms, 5000);

    // Seek beyond duration should clamp
    manager.seek(TimePosition::from_ms(100000));
    assert_eq!(manager.position().ms, 60000);
}

#[test]
fn test_frame_cache() {
    let mut cache = FrameCache::new(10); // 10MB

    cache.put(0, vec![0u8; 1024], Resolution::new(100, 100));
    assert!(cache.get(0).is_some());
    assert!(cache.get(1).is_none());
}

#[test]
fn test_frame_cache_eviction() {
    let mut cache = FrameCache::new(1); // 1MB budget
    cache.put(0, vec![0u8; 700 * 1024], Resolution::new(100, 100));
    cache.put(1, vec![0u8; 700 * 1024], Resolution::new(100, 100));
    // The first frame was evicted to fit the second.
    assert!(cache.get(1).is_some());
    assert!(cache.get(0).is_none());
    // A frame larger than the whole budget is not cached.
    cache.put(2, vec![0u8; 2 * 1024 * 1024], Resolution::new(100, 100));
    assert!(cache.get(2).is_none());
}

#[test]
fn test_preview_quality() {
    let full = PreviewQuality::Full;
    let half = PreviewQuality::Half;

    let source = Resolution::new(1920, 1080);
    assert_eq!(full.calculate_resolution(source).width, 1920);
    assert_eq!(half.calculate_resolution(source).width, 960);
}

#[test]
fn test_advance_clamps_and_loops() {
    let mut manager = PreviewManager::default();  // one minute long
    manager.play();
    manager.seek(TimePosition::from_ms(59990));
    manager.advance(100);
    // Loop mode off: clamped at the end.
    assert_eq!(manager.position().ms, 60000);

    manager.set_loop_mode(evlf_editor::LoopMode::All);
    manager.advance(100);
    // Looping: wraps to the start.
    assert_eq!(manager.position().ms, 0);
}

#[test]
fn test_in_out_points() {
    let mut manager = PreviewManager::default();
    manager.seek(TimePosition::from_ms(1000));
    manager.mark_in();
    manager.seek(TimePosition::from_ms(5000));
    manager.mark_out();
    let io = manager.in_out();
    assert_eq!(io.in_point.map(|p| p.ms), Some(1000));
    assert_eq!(io.out_point.map(|p| p.ms), Some(5000));
    assert_eq!(io.duration().map(|d| d.ms), Some(4000));
    assert!(io.contains(TimePosition::from_ms(3000)));
    assert!(!io.contains(TimePosition::from_ms(6000)));

    // Stopping returns to the in point.
    manager.stop();
    assert_eq!(manager.position().ms, 1000);
}
