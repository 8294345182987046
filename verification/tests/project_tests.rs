use evlf_editor::{Project, ProjectId, ProjectManager, ProjectVersion};

#[test]
fn test_project_creation() {
    let mut manager = ProjectManager::new();
    let project = manager.new_project("Test Project".to_string()).ok();

    assert!(project.is_some());
    assert!(manager.current_project().is_some());
}

#[test]
fn test_project_from_template() {
    let mut manager = ProjectManager::new();
    let result = manager.new_from_template("HD 1080p", "My Project".to_string());

    assert!(result.is_ok());
    let project = manager.current_project().expect("unwrap conversion");
    assert_eq!(project.settings.timeline_width, 1920);
    assert_eq!(project.settings.timeline_height, 1080);
}

#[test]
fn test_unknown_template_fails() {
    let mut manager = ProjectManager::new();
    assert!(manager.new_from_template("No Such Template", "P".to_string()).is_err());
}

#[test]
fn test_recent_files() {
    let mut manager = ProjectManager::new();
    manager.add_recent("/path/to/project1.proj".to_string(), "Project 1".to_string());
    manager.add_recent("/path/to/project2.proj".to_string(), "Project 2".to_string());

    assert_eq!(manager.recent_files().len(), 2);
    assert_eq!(manager.recent_files()[0].name, "Project 2"); // Most recent first
}

#[test]
fn test_project_undo() {
    let id = ProjectId::new(1);
    let mut project = Project::new(id, "Test".to_string());

    project.push_undo_state(vec![1, 2, 3]);
    project.push_undo_state(vec![4, 5, 6]);

    assert!(project.can_undo());
    assert!(!project.can_redo());

    let state = project.pop_undo_state();
    assert!(state.is_some());
    assert!(project.can_redo());
}

#[test]
fn test_undo_redo_round_trip() {
    let mut project = Project::new(ProjectId::new(1), "Test".to_string());
    project.push_undo_state(vec![1]);
    project.push_undo_state(vec![2]);

    let undone = project.pop_undo_state().expect("test assertion");
    assert_eq!(undone, vec![2]);
    let redone = project.pop_redo_state().expect("test assertion");
    assert_eq!(redone, vec![2]);
    assert!(!project.can_redo());
}

#[test]
fn test_new_action_clears_redo() {
    let mut project = Project::new(ProjectId::new(1), "Test".to_string());
    project.push_undo_state(vec![1]);
    project.push_undo_state(vec![2]);
    project.pop_undo_state();
    assert!(project.can_redo());
    project.push_undo_state(vec![3]);
    assert!(!project.can_redo());
}

#[test]
fn test_undo_history_is_trimmed() {
    let mut project = Project::new(ProjectId::new(1), "Test".to_string());
    project.settings.max_undo_history = 3;
    for i in 0..5u8 {
        project.push_undo_state(vec![i]);
    }
    assert_eq!(project.undo_stack.len(), 3);
    assert_eq!(project.undo_stack[2], vec![4]);
}

#[test]
fn test_templates() {
    let manager = ProjectManager::new();
    assert!(manager.templates().len() >= 4); // At least the built-in templates
}

#[test]
fn test_close_project_with_changes_fails() {
    let mut manager = ProjectManager::new();
    manager.new_project("Test".to_string()).expect("test assertion");
    // A fresh project counts as unsaved.
    assert!(manager.close_project().is_err());
    manager.current_project_mut().expect("test assertion").mark_saved();
    assert!(manager.close_project().is_ok());
    assert!(manager.current_project().is_none());
}

#[test]
fn test_version_compatibility() {
    let v10 = ProjectVersion::new(1, 0, 0);
    let v11 = ProjectVersion::new(1, 1, 0);
    let v20 = ProjectVersion::new(2, 0, 0);
    assert!(v11.is_compatible_with(&v10));
    assert!(!v10.is_compatible_with(&v11));
    assert!(!v20.is_compatible_with(&v10));
}
