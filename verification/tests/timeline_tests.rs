use evlf_editor::{TimePosition, TimelineClip, TimelineManager, TimelineTrack, TrackType};

#[test]
fn test_clip_split_at() {
    // Split law: a clip of duration 1000 split at offset 400 yields two
    // clips whose durations sum to 1000 and whose in/out spans cover the
    // original.
    let clip = TimelineClip::new(1, 9, TimePosition::from_ms(2000), TimePosition::from_ms(1000));
    let (first, second) = clip
        .split_at(TimePosition::from_ms(2400), 2)
        .expect("test assertion");
    assert_eq!(first.duration.ms + second.duration.ms, 1000);
    assert_eq!(first.start.ms, 2000);
    assert_eq!(first.duration.ms, 400);
    assert_eq!(second.start.ms, 2400);
    assert_eq!(second.duration.ms, 600);
    assert_eq!(first.in_point.ms, 0);
    assert_eq!(first.out_point.ms, 400);
    assert_eq!(second.in_point.ms, 400);
    assert_eq!(second.out_point.ms, 1000);
    assert_eq!(first.id, 1);
    assert_eq!(second.id, 2);
}

#[test]
fn test_clip_split_outside_bounds() {
    let clip = TimelineClip::new(1, 9, TimePosition::from_ms(2000), TimePosition::from_ms(1000));
    assert!(clip.split_at(TimePosition::from_ms(2000), 2).is_none());
    assert!(clip.split_at(TimePosition::from_ms(3000), 2).is_none());
    assert!(clip.split_at(TimePosition::from_ms(100), 2).is_none());
}

#[test]
fn test_clip_effective_duration() {
    let mut clip = TimelineClip::new(1, 9, TimePosition::from_ms(0), TimePosition::from_ms(1000));
    assert_eq!(clip.effective_duration().ms, 1000);
    clip.speed_permille = 2000;
    assert_eq!(clip.effective_duration().ms, 500);
}

#[test]
fn test_track_no_overlap() {
    let mut track = TimelineTrack::new(1, "Video 1".to_string(), TrackType::Video, 0);
    track.add_clip(TimelineClip::new(1, 9, TimePosition::from_ms(0), TimePosition::from_ms(500)));
    track.add_clip(
        TimelineClip::new(2, 9, TimePosition::from_ms(1000), TimePosition::from_ms(500)),
    );

    assert!(track.is_range_available(TimePosition::from_ms(500), TimePosition::from_ms(1000)));
    assert!(!track.is_range_available(TimePosition::from_ms(250), TimePosition::from_ms(600)));
    assert!(!track.is_range_available(TimePosition::from_ms(1400), TimePosition::from_ms(1500)));
}

#[test]
fn test_track_add_keeps_order() {
    let mut track = TimelineTrack::new(1, "Video 1".to_string(), TrackType::Video, 0);
    track.add_clip(
        TimelineClip::new(2, 9, TimePosition::from_ms(1000), TimePosition::from_ms(500)),
    );
    track.add_clip(TimelineClip::new(1, 9, TimePosition::from_ms(0), TimePosition::from_ms(500)));
    assert_eq!(track.clips[0].id, 1);
    assert_eq!(track.clips[1].id, 2);
    assert_eq!(track.duration().ms, 1500);
}

#[test]
fn test_track_remove_clip() {
    let mut track = TimelineTrack::new(1, "Video 1".to_string(), TrackType::Video, 0);
    track.add_clip(TimelineClip::new(1, 9, TimePosition::from_ms(0), TimePosition::from_ms(500)));
    let removed = track.remove_clip(1).expect("test assertion");
    assert_eq!(removed.id, 1);
    assert!(track.remove_clip(1).is_none());
}

#[test]
fn test_timeline_manager() {
    let mut manager = TimelineManager::new();
    let a = manager.add_track("Video 1".to_string(), TrackType::Video);
    let b = manager.add_track("Audio 1".to_string(), TrackType::Audio);
    assert_eq!(manager.tracks().len(), 2);
    assert!(manager.get_track(a).is_some());

    assert!(manager.remove_track(a));
    assert_eq!(manager.tracks().len(), 1);
    // Indices are contiguous again after removal.
    assert_eq!(manager.tracks()[0].index, 0);
    assert_eq!(manager.tracks()[0].id, b);
    assert!(!manager.remove_track(a));
}

#[test]
fn test_timeline_duration_recalculation() {
    let mut manager = TimelineManager::new();
    let id = manager.add_track("Video 1".to_string(), TrackType::Video);
    let track = manager.get_track_mut(id).expect("test assertion");
    track.add_clip(
        TimelineClip::new(1, 9, TimePosition::from_ms(0), TimePosition::from_ms(750)),
    );
    manager.recalculate_duration();
    assert_eq!(manager.duration_ms(), 750);
}

#[test]
fn test_track_type_names() {
    assert_eq!(TrackType::Video.name(), "Video");
    assert!(TrackType::Video.accepts_video());
    assert!(TrackType::Effect.accepts_video());
    assert!(!TrackType::Video.accepts_audio());
    assert!(TrackType::Audio.accepts_audio());
}
