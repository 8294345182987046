use evlf_editor::{
    ContainerFormat, ExportPreset, ExportQueue, ExportSettings, ExportStatus,
};

#[test]
fn test_export_queue() {
    let mut queue = ExportQueue::new();

    let settings = ExportSettings::default();
    let id = queue.add_job(1, settings, 1000);

    assert!(queue.get_job(id).is_some());
    assert_eq!(queue.queued_jobs().len(), 1);
}

#[test]
fn mod_test_export_queue() {
    let mut queue = ExportQueue::new();

    let settings = ExportSettings::default();
    let id = queue.add_job(1, settings, 1000);

    assert!(queue.get_job(id).is_some());
    assert_eq!(queue.queued_jobs().len(), 1);
}

#[test]
fn test_export_progress() {
    let mut queue = ExportQueue::new();
    let id = queue.add_job(1, ExportSettings::default(), 1000);
    let job = queue.get_job_mut(id).expect("test assertion");
    job.progress_mut().update(500);

    let progress = queue.get_job(id).expect("test assertion").progress();
    let fraction = progress.frames_encoded as f64 / progress.total_frames as f64;
    assert!((fraction - 0.5).abs() < 0.001);
    let elapsed_seconds = 10.0_f64;
    let encoding_fps = progress.frames_encoded as f64 / elapsed_seconds;
    assert!(encoding_fps > 0.0);
    let eta_seconds = (progress.total_frames - progress.frames_encoded) as f64 / encoding_fps;
    assert!(eta_seconds > 0.0);
}

#[test]
fn mod_test_export_progress() {
    let mut queue = ExportQueue::new();
    let id = queue.add_job(1, ExportSettings::default(), 1000);
    let job = queue.get_job_mut(id).expect("test assertion");
    job.progress_mut().update(500);
    let progress = queue.get_job(id).expect("test assertion").progress();
    assert_eq!(progress.frames_encoded, 500);
    assert_eq!(progress.total_frames, 1000);
}

#[test]
fn test_container_format() {
    let mp4 = ContainerFormat::Mp4;
    assert_eq!(mp4.extension(), "mp4");
    assert_eq!(mp4.mime_type(), "video/mp4");
}

#[test]
fn mod_test_container_format() {
    let mp4 = ContainerFormat::Mp4;
    assert_eq!(mp4.extension(), "mp4");
    assert_eq!(mp4.mime_type(), "video/mp4");
}

#[test]
fn test_export_preset() {
    let preset = ExportPreset::streaming_hd();
    assert_eq!(preset.settings.video.resolution.width, 1920);
    assert_eq!(preset.settings.video.resolution.height, 1080);
}

#[test]
fn mod_test_export_preset() {
    let preset = ExportPreset::streaming_hd();
    assert_eq!(preset.settings.video.resolution.width, 1920);
    assert_eq!(preset.settings.video.resolution.height, 1080);
}

#[test]
fn test_start_next_respects_concurrency_cap() {
    let mut queue = ExportQueue::new();
    let a = queue.add_job(1, ExportSettings::default(), 100);
    let _b = queue.add_job(1, ExportSettings::default(), 100);

    // One slot: the first start succeeds, the second is refused.
    let started = queue.start_next();
    assert_eq!(started, Some(a));
    assert_eq!(queue.active_jobs().len(), 1);
    assert_eq!(queue.start_next(), None);
    assert_eq!(queue.active_jobs().len(), 1);

    // Cancelling the active job frees the slot.
    queue.cancel_job(a).expect("test assertion");
    assert!(queue.start_next().is_some());
    assert_eq!(queue.active_jobs().len(), 1);
}

#[test]
fn test_start_next_picks_highest_priority() {
    let mut queue = ExportQueue::new();
    let low = queue.add_job(1, ExportSettings::default(), 100);
    let high = queue.add_job(1, ExportSettings::default(), 100);
    queue.get_job_mut(high).expect("test assertion").set_priority(5);
    queue.get_job_mut(low).expect("test assertion").set_priority(1);

    assert_eq!(queue.start_next(), Some(high));
}

#[test]
fn test_start_next_breaks_ties_by_insertion_order() {
    let mut queue = ExportQueue::new();
    let first = queue.add_job(1, ExportSettings::default(), 100);
    let _second = queue.add_job(1, ExportSettings::default(), 100);
    assert_eq!(queue.start_next(), Some(first));
}

#[test]
fn test_cancel_completed_job_fails() {
    let mut queue = ExportQueue::new();
    let id = queue.add_job(1, ExportSettings::default(), 100);
    queue.start_next();
    queue.get_job_mut(id).expect("test assertion").complete();

    assert!(queue.cancel_job(id).is_err());
    let status = queue.get_job(id).expect("test assertion").progress().status;
    assert_eq!(status, ExportStatus::Completed);
}

#[test]
fn test_cancel_unknown_job_fails() {
    let mut queue = ExportQueue::new();
    let id = queue.add_job(1, ExportSettings::default(), 100);
    let bogus = evlf_editor::ExportJobId::new(id.inner() + 100);
    assert!(queue.cancel_job(bogus).is_err());
}

#[test]
fn test_retry_job_creates_new_job() {
    let mut queue = ExportQueue::new();
    let id = queue.add_job(7, ExportSettings::default(), 250);
    queue.start_next();
    queue.get_job_mut(id).expect("test assertion").fail("disk full".to_string());

    let new_id = queue.retry_job(id).expect("test assertion");
    assert_ne!(new_id, id);
    // The original job is untouched.
    let old_job = queue.get_job(id).expect("test assertion");
    assert_eq!(old_job.progress().status, ExportStatus::Failed);
    // The new job clones settings, project and frame count, and is queued.
    let new_job = queue.get_job(new_id).expect("test assertion");
    assert_eq!(new_job.progress().status, ExportStatus::Queued);
    assert_eq!(new_job.progress().total_frames, 250);
    assert_eq!(new_job.project_id(), 7);
}

#[test]
fn test_retry_active_job_fails() {
    let mut queue = ExportQueue::new();
    let id = queue.add_job(1, ExportSettings::default(), 100);
    queue.start_next();
    assert!(queue.retry_job(id).is_err());
}

#[test]
fn test_remove_job_refuses_active() {
    let mut queue = ExportQueue::new();
    let id = queue.add_job(1, ExportSettings::default(), 100);
    queue.start_next();
    assert!(!queue.remove_job(id));
    queue.cancel_job(id).expect("test assertion");
    assert!(queue.remove_job(id));
    assert!(queue.get_job(id).is_none());
}

#[test]
fn test_clear_completed_and_failed() {
    let mut queue = ExportQueue::new();
    let a = queue.add_job(1, ExportSettings::default(), 100);
    let b = queue.add_job(1, ExportSettings::default(), 100);
    let c = queue.add_job(1, ExportSettings::default(), 100);
    queue.get_job_mut(a).expect("test assertion").complete();
    queue.get_job_mut(b).expect("test assertion").fail("nope".to_string());

    queue.clear_completed();
    assert!(queue.get_job(a).is_none());
    assert!(queue.get_job(b).is_some());

    queue.clear_failed();
    assert!(queue.get_job(b).is_none());
    assert!(queue.get_job(c).is_some());
}

#[test]
fn test_job_elapsed_secs() {
    let mut queue = ExportQueue::new();
    let id = queue.add_job(1, ExportSettings::default(), 100);
    assert!(queue.get_job(id).expect("test assertion").elapsed_secs().is_none());
    queue.start_next();
    queue.get_job_mut(id).expect("test assertion").complete();
    assert!(queue.get_job(id).expect("test assertion").elapsed_secs().is_some());
}
