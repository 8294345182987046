use evlf_editor::{
    AnimationLayer, AnimationTrack, AnimationTrackId, InterpolationType, TimePosition, TrackSample,
};

#[test]
fn test_animation_track() {
    let mut track: AnimationTrack<f64> =
        AnimationTrack::new(AnimationTrackId::new(1), "position.x".to_string(), 0.0);

    track.add_keyframe(TimePosition::from_ms(0), 0.0);
    track.add_keyframe(TimePosition::from_ms(1000), 100.0);

    // Between the keyframes the track reports the pair and the exact
    // blend ratio; linear interpolation of it lands halfway.
    match track.evaluate(TimePosition::from_ms(500)) {
        TrackSample::Blend { from, to, elapsed_ms, span_ms, interpolation } => {
            assert_eq!(interpolation, InterpolationType::Linear);
            let t = elapsed_ms as f64 / span_ms as f64;
            let value = from + t * (to - from);
            assert!((value - 50.0).abs() < 1.0);
        }
        TrackSample::Settled(_) => panic!("expected a blend between the keyframes"),
    }
}

#[test]
fn test_evaluation_boundaries() {
    let mut track: AnimationTrack<f64> =
        AnimationTrack::new(AnimationTrackId::new(1), "position.x".to_string(), 0.0);
    track.add_keyframe(TimePosition::from_ms(0), 0.0);
    track.add_keyframe(TimePosition::from_ms(1000), 100.0);

    // At or before the first keyframe the first value is settled.
    match track.evaluate(TimePosition::from_ms(0)) {
        TrackSample::Settled(v) => assert_eq!(*v, 0.0),
        TrackSample::Blend { .. } => panic!("expected the first keyframe's value"),
    }
    // After the last keyframe the last value is settled.
    match track.evaluate(TimePosition::from_ms(2000)) {
        TrackSample::Settled(v) => assert_eq!(*v, 100.0),
        TrackSample::Blend { .. } => panic!("expected the last keyframe's value"),
    }
}

#[test]
fn test_keyframe_ordering() {
    let mut track: AnimationTrack<f64> =
        AnimationTrack::new(AnimationTrackId::new(1), "opacity".to_string(), 1.0);

    // Add keyframes out of order
    track.add_keyframe(TimePosition::from_ms(1000), 0.5);
    track.add_keyframe(TimePosition::from_ms(0), 0.0);
    track.add_keyframe(TimePosition::from_ms(500), 0.25);

    // Should be sorted
    assert_eq!(track.keyframes[0].time.ms, 0);
    assert_eq!(track.keyframes[1].time.ms, 500);
    assert_eq!(track.keyframes[2].time.ms, 1000);
}

#[test]
fn test_duplicate_timestamp_replaces() {
    let mut track: AnimationTrack<f64> =
        AnimationTrack::new(AnimationTrackId::new(1), "opacity".to_string(), 1.0);
    track.add_keyframe(TimePosition::from_ms(500), 0.25);
    track.add_keyframe(TimePosition::from_ms(500), 0.75);
    assert_eq!(track.keyframe_count(), 1);
    assert_eq!(track.keyframes[0].value, 0.75);
}

#[test]
fn test_hold_freezes_at_earlier_keyframe() {
    let mut track: AnimationTrack<f64> =
        AnimationTrack::new(AnimationTrackId::new(1), "opacity".to_string(), 1.0);
    track.add_keyframe(TimePosition::from_ms(0), 10.0);
    track.add_keyframe(TimePosition::from_ms(1000), 20.0);
    track.keyframes[0].interpolation = InterpolationType::Hold;
    match track.evaluate(TimePosition::from_ms(900)) {
        TrackSample::Settled(v) => assert_eq!(*v, 10.0),
        TrackSample::Blend { .. } => panic!("a hold keyframe freezes its value"),
    }
}

#[test]
fn test_disabled_and_muted_tracks() {
    let mut track: AnimationTrack<f64> =
        AnimationTrack::new(AnimationTrackId::new(1), "opacity".to_string(), 7.0);
    track.add_keyframe(TimePosition::from_ms(0), 1.0);
    track.add_keyframe(TimePosition::from_ms(1000), 2.0);

    track.muted = true;
    match track.evaluate(TimePosition::from_ms(800)) {
        TrackSample::Settled(v) => assert_eq!(*v, 1.0),
        TrackSample::Blend { .. } => panic!("a muted track freezes at its first keyframe"),
    }

    track.muted = false;
    track.enabled = false;
    match track.evaluate(TimePosition::from_ms(800)) {
        TrackSample::Settled(v) => assert_eq!(*v, 7.0),
        TrackSample::Blend { .. } => panic!("a disabled track yields its default value"),
    }
}

#[test]
fn test_animation_layer() {
    let mut layer: AnimationLayer<f64> = AnimationLayer::new("Transform".to_string(), 1);
    let track_id = layer.create_track("position.x".to_string(), 0.0);

    assert!(layer.get_track(track_id).is_some());
    assert_eq!(layer.tracks.len(), 1);
    assert!(layer.remove_track(track_id));
    assert!(layer.get_track(track_id).is_none());
}
