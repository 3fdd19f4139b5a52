use lingjing::domain::{GenerationJob, JobKind, JobStatus};
use lingjing::jobs::{parse_job_id, JobLookup, JobManager};

fn job() -> GenerationJob {
    GenerationJob {
        id: 0x1234_5678_9abc_4def_8000_0000_0000_0001,
        gateway_profile_id: "mock-default".into(),
        kind: JobKind::Video,
        operation: Some("generate".into()),
        model_id: Some("mock-video".into()),
        status: JobStatus::Queued,
        progress_bits: 0.0f32.to_bits(),
        request_json: "{\"prompt\":\"demo\"}".into(),
        error_message: None,
        remote_job_id: None,
        created_at: "2026-01-01T00:00:00+00:00".into(),
    }
}

#[test]
fn cancel_marks_job_canceled() {
    let mut manager = JobManager::default();
    let created = manager.insert(job());
    let canceled = manager.cancel(created.id).expect("job should exist");
    assert!(matches!(canceled.status, JobStatus::Canceled));
}

#[test]
fn retry_creates_new_queued_job() {
    let mut manager = JobManager::default();
    let created = manager.insert(job());
    let retried = manager.retry(created.id).expect("job should exist");
    assert_ne!(created.id, retried.id);
    assert!(matches!(retried.status, JobStatus::Queued));
}

#[test]
fn cancel_reads_back_and_keeps_other_fields() {
    let mut manager = JobManager::default();
    let created = manager.insert(job());
    manager.cancel(created.id);
    let stored = manager.get(created.id).unwrap();
    assert_eq!(stored.status, JobStatus::Canceled);
    assert_eq!(GenerationJob { status: JobStatus::Queued, ..stored }, created);
    assert!(manager.cancel(7).is_none());
    assert!(manager.get(7).is_none());
}

#[test]
fn retry_as_keeps_source_and_resets_progress() {
    let mut manager = JobManager::default();
    let mut source = job();
    source.status = JobStatus::Failed;
    source.progress_bits = 42.5f32.to_bits();
    manager.insert(source.clone());
    let copy = manager.retry_as(source.id, 99).unwrap();
    assert_eq!(copy.id, 99);
    assert_eq!(copy.status, JobStatus::Queued);
    assert_eq!(f32::from_bits(copy.progress_bits), 0.0);
    assert_eq!(copy.request_json, source.request_json);
    assert_eq!(manager.get(source.id), Some(source));
    assert_eq!(manager.get(99), Some(copy));
    assert!(manager.retry(5).is_none());
}

#[test]
fn list_filters_by_kind_and_status_ignoring_case() {
    let mut manager = JobManager::default();
    let a = job();
    let mut b = job();
    b.id = 2;
    b.kind = JobKind::Tts;
    let mut c = job();
    c.id = 3;
    c.status = JobStatus::Running;
    manager.insert(a.clone());
    manager.insert(b.clone());
    manager.insert(c.clone());
    assert_eq!(manager.list(None, None).len(), 3);
    let videos = manager.list(Some("video"), None);
    assert_eq!(videos.len(), 2);
    assert!(videos.iter().all(|j| j.kind == JobKind::Video));
    assert_eq!(manager.list(Some("TTS"), None), vec![b]);
    assert_eq!(manager.list(Some("video"), Some("RUNNING")), vec![c]);
    assert!(manager.list(Some("vid"), None).is_empty());
    assert!(manager.list(None, Some("stopped")).is_empty());
}

#[test]
fn update_and_remote_id_change_only_their_fields() {
    let mut manager = JobManager::default();
    let created = manager.insert(job());
    let failed = manager
        .update(created.id, JobStatus::Failed, 12.5f32.to_bits(), Some("boom".into()))
        .unwrap();
    assert_eq!(failed.status, JobStatus::Failed);
    assert_eq!(f32::from_bits(failed.progress_bits), 12.5);
    assert_eq!(failed.error_message.as_deref(), Some("boom"));
    assert_eq!(failed.request_json, created.request_json);
    assert_eq!(manager.get(created.id), Some(failed.clone()));
    let remote = manager.set_remote_job_id(created.id, "r-1".into()).unwrap();
    assert_eq!(remote.remote_job_id.as_deref(), Some("r-1"));
    assert_eq!(GenerationJob { remote_job_id: None, ..remote }, failed);
    assert!(manager.update(1, JobStatus::Running, 0, None).is_none());
    assert!(manager.set_remote_job_id(1, "x".into()).is_none());
}

#[test]
fn stored_jobs_cancel_and_requeue_as_copies() {
    let mut stored = job();
    stored.status = JobStatus::Failed;
    stored.progress_bits = 40.0f32.to_bits();
    stored.error_message = Some("boom".into());
    let canceled = lingjing::jobs::canceled_copy(&stored);
    assert_eq!(GenerationJob { status: JobStatus::Canceled, ..stored.clone() }, canceled);
    let requeued = lingjing::jobs::requeued_copy(&stored);
    assert_ne!(requeued.id, stored.id);
    assert_eq!((requeued.id >> 76) & 0xF, 4);
    assert_eq!(
        GenerationJob {
            id: requeued.id,
            status: JobStatus::Queued,
            progress_bits: 0,
            error_message: None,
            ..stored
        },
        requeued
    );
}

#[test]
fn updates_are_announced_by_status() {
    assert_eq!(lingjing::jobs::update_event(JobStatus::Failed), "job://failed");
    assert_eq!(lingjing::jobs::update_event(JobStatus::Running), "job://progress");
    assert_eq!(lingjing::jobs::update_event(JobStatus::Succeeded), "job://status");
    assert_eq!(lingjing::jobs::update_event(JobStatus::Canceled), "job://status");
}

#[test]
fn jobs_are_found_by_the_text_of_their_id() {
    let mut manager = JobManager::default();
    let stored = manager.insert(job());
    let text = "12345678-9abc-4def-8000-000000000001";
    assert_eq!(parse_job_id(text), Ok(stored.id));
    assert_eq!(manager.get_text(text), Ok(JobLookup::Held(stored.clone())));
    assert_eq!(
        manager.get_text("12345678-9abc-4def-8000-000000000002"),
        Ok(JobLookup::Absent(0x1234_5678_9abc_4def_8000_0000_0000_0002))
    );
    assert!(manager.get_text("not-a-uuid").is_err());
    assert!(parse_job_id("not-a-uuid").unwrap_err().len() > 0);

    match manager.retry_text(text) {
        Ok(JobLookup::Held(copy)) => {
            assert_ne!(copy.id, stored.id);
            assert!(matches!(copy.status, JobStatus::Queued));
        }
        other => panic!("expected a queued copy, got {other:?}"),
    }
    match manager.cancel_text(text) {
        Ok(JobLookup::Held(canceled)) => {
            assert_eq!(GenerationJob { status: JobStatus::Canceled, ..stored.clone() }, canceled);
        }
        other => panic!("expected the canceled job, got {other:?}"),
    }
    assert!(manager.cancel_text("zz").is_err());
    assert_eq!(manager.get(stored.id).unwrap().status, JobStatus::Canceled);
}

#[test]
fn jobs_fail_and_complete() {
    let mut manager = JobManager::default();
    let stored = manager.insert(job());
    let failed = manager.fail(stored.id, "boom".into()).unwrap();
    assert_eq!(
        GenerationJob {
            status: JobStatus::Failed,
            progress_bits: 0,
            error_message: Some("boom".into()),
            ..stored.clone()
        },
        failed
    );
    let done = manager.complete(stored.id).unwrap();
    assert_eq!(done.status, JobStatus::Succeeded);
    assert_eq!(f32::from_bits(done.progress_bits), 100.0);
    assert_eq!(done.error_message, None);
    assert_eq!(manager.fail(7, "x".into()), None);
}
