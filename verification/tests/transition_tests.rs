use evlf_editor::{TimePosition, Transition, TransitionId, TransitionManager, TransitionType};

#[test]
fn test_transition_creation() {
    let id = TransitionId::new(1);
    let duration = TimePosition::from_ms(500);
    let transition = Transition::crossfade(id, duration);

    assert_eq!(transition.id.inner(), 1);
    assert!(matches!(transition.transition_type, TransitionType::CrossFade));
    assert_eq!(transition.duration.ms, 500);
}

#[test]
fn test_transition_manager() {
    let mut manager = TransitionManager::new();
    let id = manager.add_transition(1, 1, 2, TimePosition::from_ms(1000), None, None);

    assert!(manager.get_transition(id).is_some());
    assert!(manager.remove_transition(id));
    assert!(manager.get_transition(id).is_none());
}

#[test]
fn test_transition_progress() {
    let mut transition = Transition::crossfade(TransitionId::new(1), TimePosition::from_ms(1000));

    transition.update(TimePosition::from_ms(500), TimePosition::from_ms(0));
    assert_eq!(transition.progress_permille, 500);

    transition.update(TimePosition::from_ms(1000), TimePosition::from_ms(0));
    assert!(transition.is_complete());
}

#[test]
fn test_transition_progress_clamps() {
    let mut transition = Transition::crossfade(TransitionId::new(1), TimePosition::from_ms(1000));
    // Before the start the progress stays at zero.
    transition.update(TimePosition::from_ms(100), TimePosition::from_ms(500));
    assert_eq!(transition.progress_permille, 0);
    // Far past the end it clamps at completion.
    transition.update(TimePosition::from_ms(9000), TimePosition::from_ms(500));
    assert_eq!(transition.progress_permille, 1000);
    // A zero duration completes at once.
    let mut instant = Transition::crossfade(TransitionId::new(2), TimePosition::from_ms(0));
    instant.update(TimePosition::from_ms(0), TimePosition::from_ms(0));
    assert!(instant.is_complete());
}

#[test]
fn test_update_all_recomputes_progress() {
    let mut manager = TransitionManager::new();
    let a = manager.add_transition(1, 1, 2, TimePosition::from_ms(0), None, None);
    let b = manager.add_transition(1, 2, 3, TimePosition::from_ms(1000), None, None);
    // Default duration is 500 ms.
    manager.update_all(TimePosition::from_ms(250));
    assert_eq!(
        manager.get_transition(a).expect("test assertion").transition.progress_permille,
        500
    );
    assert_eq!(
        manager.get_transition(b).expect("test assertion").transition.progress_permille,
        0
    );
}

#[test]
fn test_transition_at_time() {
    let mut manager = TransitionManager::new();
    let id = manager.add_transition(
        3,
        1,
        2,
        TimePosition::from_ms(1000),
        None,
        Some(TimePosition::from_ms(500)),
    );
    let found = manager.transition_at_time(3, TimePosition::from_ms(1200));
    assert!(found.is_some());
    assert_eq!(found.expect("test assertion").transition.id, id);
    assert!(manager.transition_at_time(3, TimePosition::from_ms(1600)).is_none());
    assert!(manager.transition_at_time(4, TimePosition::from_ms(1200)).is_none());
}

#[test]
fn test_add_from_preset() {
    let mut manager = TransitionManager::new();
    let id = manager
        .add_from_preset(1, 1, 2, TimePosition::from_ms(0), "Quick Fade")
        .expect("test assertion");
    let placement = manager.get_transition(id).expect("test assertion");
    assert_eq!(placement.transition.duration.ms, 250);
    assert!(matches!(placement.transition.transition_type, TransitionType::CrossFade));

    assert!(manager.add_from_preset(1, 1, 2, TimePosition::from_ms(0), "No Such").is_err());
}
