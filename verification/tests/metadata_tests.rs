use evlf_editor::{BoundingBox, MetadataIndex, TrackingState};

#[test]
fn test_metadata_index() {
    let mut index = MetadataIndex::new();
    index.track_object(1, 0);
    index.track_object(1, 1);
    index.track_object(2, 1);

    let frames = index.frames_with_object(1).expect("test assertion");
    assert_eq!(frames.len(), 2);
}

#[test]
fn test_bounding_box_iou() {
    let box1 = BoundingBox::new(0, 0, 500, 500);
    let box2 = BoundingBox::new(250, 250, 500, 500);

    let iou = box1.iou_permille(&box2);
    // Intersection = 250 * 250 = 62500
    // Union = 250000 + 250000 - 62500 = 437500
    // IoU = 62500 / 437500, about 143 thousandths
    assert!(iou > 140 && iou < 150);
}

#[test]
fn test_bounding_box_disjoint_iou() {
    let box1 = BoundingBox::new(0, 0, 200, 200);
    let box2 = BoundingBox::new(500, 500, 200, 200);
    assert_eq!(box1.iou_permille(&box2), 0);
    assert_eq!(box1.iou_permille(&box1), 1000);
}

#[test]
fn test_bounding_box_pixels() {
    let b = BoundingBox::from_pixels(480, 270, 960, 540, 1920, 1080);
    assert_eq!(b.x, 250);
    assert_eq!(b.y, 250);
    assert_eq!(b.width, 500);
    assert_eq!(b.height, 500);
    let (x, y, w, h) = b.to_pixels(1920, 1080);
    assert_eq!((x, y, w, h), (480, 270, 960, 540));
}

#[test]
fn test_tracking_state() {
    let mut state = TrackingState::new(0);
    state.update(1, (500, 500), (600, 500));

    assert_eq!(state.tracked_frames, 2);
    assert_eq!(state.velocity_x_permille, 100);
    assert_eq!(state.velocity_y_permille, 0);
}

#[test]
fn test_scene_transitions() {
    let mut index = MetadataIndex::new();
    index.add_frame(0, 64);
    index.add_scene_transition(120, "beach".to_string());
    index.add_scene_transition(480, "forest".to_string());
    assert_eq!(index.scene_transitions().len(), 2);
    assert_eq!(index.scene_transitions()[0].0, 120);
    assert!(index.frames_with_object(42).is_none());
}
