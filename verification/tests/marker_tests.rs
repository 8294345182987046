use evlf_editor::{MarkerFilter, MarkerManager, MarkerType, TimePosition};

#[test]
fn test_marker_creation() {
    let mut manager = MarkerManager::new();
    let id = manager.add_marker(TimePosition::from_ms(1000), MarkerType::Standard);

    assert!(manager.get_marker(id).is_some());
    assert_eq!(manager.count(), 1);
}

#[test]
fn test_chapter_markers() {
    let mut manager = MarkerManager::new();
    manager.add_chapter(TimePosition::from_ms(0), "Intro".to_string());
    manager.add_chapter(TimePosition::from_ms(30000), "Chapter 1".to_string());
    manager.add_chapter(TimePosition::from_ms(60000), "Chapter 2".to_string());

    assert_eq!(manager.chapter_count(), 3);
}

#[test]
fn test_marker_navigation() {
    let mut manager = MarkerManager::new();
    manager.add_marker(TimePosition::from_ms(1000), MarkerType::Standard);
    manager.add_marker(TimePosition::from_ms(2000), MarkerType::Standard);
    manager.add_marker(TimePosition::from_ms(3000), MarkerType::Standard);

    let next = manager.next_marker(TimePosition::from_ms(1500));
    assert!(next.is_some());
    assert_eq!(next.map(|m| m.position.ms), Some(2000));

    let prev = manager.prev_marker(TimePosition::from_ms(1500));
    assert!(prev.is_some());
    assert_eq!(prev.map(|m| m.position.ms), Some(1000));
}

#[test]
fn test_marker_filter() {
    let mut manager = MarkerManager::new();
    manager.add_marker(TimePosition::from_ms(1000), MarkerType::Standard);
    manager.add_chapter(TimePosition::from_ms(2000), "Chapter".to_string());
    manager.add_marker(TimePosition::from_ms(3000), MarkerType::Comment);

    let filter = MarkerFilter::new().with_type(MarkerType::Chapter);
    let filtered = manager.filter(&filter);
    assert_eq!(filtered.len(), 1);
}

#[test]
fn test_marker_tags() {
    let mut manager = MarkerManager::new();
    let id = manager.add_marker(TimePosition::from_ms(1000), MarkerType::Comment);

    if let Some(marker) = manager.get_marker_mut(id) {
        marker.add_tag("review".to_string());
        marker.add_tag("important".to_string());
    }

    let filter = MarkerFilter::new().with_tag("review".to_string());
    let filtered = manager.filter(&filter);
    assert_eq!(filtered.len(), 1);
}

#[test]
fn test_marker_search_is_case_insensitive() {
    let mut manager = MarkerManager::new();
    let id = manager.add_marker(TimePosition::from_ms(1000), MarkerType::Comment);
    manager
        .get_marker_mut(id)
        .expect("test assertion")
        .set_name("Opening Scene".to_string());

    let mut filter = MarkerFilter::new();
    filter.search_text = Some("OPENING".to_string());
    assert_eq!(manager.filter(&filter).len(), 1);

    filter.search_text = Some("closing".to_string());
    assert_eq!(manager.filter(&filter).len(), 0);
}

#[test]
fn test_locked_marker_is_kept() {
    let mut manager = MarkerManager::new();
    let id = manager.add_marker(TimePosition::from_ms(500), MarkerType::Standard);
    manager.get_marker_mut(id).expect("test assertion").set_locked(true);

    // Locked markers are not removed nor moved.
    assert!(!manager.remove_marker(id));
    assert!(manager.move_marker(id, TimePosition::from_ms(900)).is_err());
    manager.clear();
    assert_eq!(manager.count(), 1);
}

#[test]
fn test_move_marker_keeps_order() {
    let mut manager = MarkerManager::new();
    let a = manager.add_marker(TimePosition::from_ms(1000), MarkerType::Standard);
    let _b = manager.add_marker(TimePosition::from_ms(2000), MarkerType::Standard);
    manager.move_marker(a, TimePosition::from_ms(3000)).expect("test assertion");
    let markers = manager.markers();
    assert!(markers[0].position.ms <= markers[1].position.ms);
    assert_eq!(markers[1].id, a);
}

#[test]
fn test_marker_type_display_names() {
    assert_eq!(MarkerType::Standard.display_name(), "Marker");
    assert_eq!(MarkerType::Chapter.display_name(), "Chapter");
    assert_eq!(MarkerType::SyncPoint.display_name(), "Sync Point");
}
