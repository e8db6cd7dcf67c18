use blob_uploader::coordinator::{run_uploads, JobObservation, StoreOutcome};
use blob_uploader::event::{ErrorNote, Event, InfoNote};
use blob_uploader::job::UploadJob;

fn job(index: usize, name: &str, payload: Vec<u8>) -> UploadJob {
    UploadJob {
        index,
        file_name: String::from(name),
        blob_name: format!("backup/{}", name),
        payload,
    }
}

fn stored() -> JobObservation {
    JobObservation {
        cancel_seen_early: false,
        cancel_seen_late: false,
        outcome: Some(StoreOutcome::Stored),
    }
}

fn rejected(cause: &str) -> JobObservation {
    JobObservation {
        cancel_seen_early: false,
        cancel_seen_late: false,
        outcome: Some(StoreOutcome::Rejected { cause: String::from(cause) }),
    }
}

fn skipped_early() -> JobObservation {
    JobObservation { cancel_seen_early: true, cancel_seen_late: false, outcome: None }
}

fn skipped_late() -> JobObservation {
    JobObservation { cancel_seen_early: false, cancel_seen_late: true, outcome: None }
}

#[test]
fn all_stored_emits_each_progress_value_once() {
    let jobs = vec![job(0, "a.txt", vec![1, 2, 3]), job(1, "b.txt", vec![4, 5, 6, 7, 8])];
    let obs = vec![stored(), stored()];
    let (tally, events) = run_uploads(jobs, &obs);

    assert_eq!(tally.total, 2);
    assert_eq!(tally.uploaded, 2);
    assert_eq!(tally.skipped, 0);
    assert_eq!(tally.store_calls, 2);
    assert!(tally.failed.is_empty());

    // One progress event per job: 1 of 2 (50 percent), then 2 of 2 (100).
    assert_eq!(
        events,
        vec![
            Event::Progress { completed: 1, total: 2 },
            Event::Progress { completed: 2, total: 2 },
        ]
    );
    let percents: Vec<f64> = events
        .iter()
        .map(|e| match e {
            Event::Progress { completed, total } => 100.0 * (*completed as f64) / (*total as f64),
            _ => unreachable!(),
        })
        .collect();
    assert_eq!(percents, vec![50.0, 100.0]);
}

#[test]
fn one_rejection_leaves_siblings_untouched() {
    let jobs = vec![job(0, "a.txt", vec![1, 2, 3]), job(1, "b.txt", vec![4, 5, 6, 7, 8])];
    let obs = vec![stored(), rejected("boom")];
    let (tally, events) = run_uploads(jobs, &obs);

    assert_eq!(tally.uploaded, 1);
    assert_eq!(tally.failed, vec![(String::from("b.txt"), String::from("boom"))]);
    assert_eq!(tally.skipped, 0);
    assert_eq!(tally.store_calls, 2);
    assert_eq!(
        events,
        vec![
            Event::Progress { completed: 1, total: 2 },
            Event::Error(ErrorNote::UploadFailed {
                file_name: String::from("b.txt"),
                cause: String::from("boom"),
            }),
        ]
    );
}

#[test]
fn cancellation_before_dispatch_makes_no_store_call() {
    let jobs = vec![job(0, "a.txt", vec![1]), job(1, "b.txt", vec![2]), job(2, "c.txt", vec![3])];
    let obs = vec![skipped_early(), skipped_early(), skipped_early()];
    let (tally, events) = run_uploads(jobs, &obs);

    assert_eq!(tally.store_calls, 0);
    assert_eq!(tally.uploaded, 0);
    assert_eq!(tally.skipped, 3);
    assert!(tally.failed.is_empty());
    assert!(events.is_empty());
}

#[test]
fn late_cancellation_releases_slot_and_notes_it() {
    // Two uploads already past the second checkpoint complete; the rest
    // observe cancellation, one of them after taking its slot.
    let jobs = vec![
        job(0, "a.txt", vec![1]),
        job(1, "b.txt", vec![2]),
        job(2, "c.txt", vec![3]),
        job(3, "d.txt", vec![4]),
    ];
    let obs = vec![stored(), stored(), skipped_late(), skipped_early()];
    let (tally, events) = run_uploads(jobs, &obs);

    assert_eq!(tally.uploaded, 2);
    assert_eq!(tally.skipped, 2);
    assert_eq!(tally.store_calls, 2);
    assert_eq!(tally.uploaded + tally.failed.len() + tally.skipped, tally.total);
    assert_eq!(
        events,
        vec![
            Event::Progress { completed: 1, total: 4 },
            Event::Progress { completed: 2, total: 4 },
            Event::Info(InfoNote::Cancelled),
        ]
    );
}

#[test]
fn empty_job_set_notes_no_files() {
    let (tally, events) = run_uploads(Vec::new(), &Vec::new());
    assert_eq!(tally.total, 0);
    assert_eq!(tally.uploaded, 0);
    assert_eq!(tally.skipped, 0);
    assert_eq!(tally.store_calls, 0);
    assert!(tally.failed.is_empty());
    assert_eq!(events, vec![Event::Info(InfoNote::NoFiles)]);
}

#[test]
fn every_job_is_accounted_for() {
    let jobs = vec![
        job(0, "a", vec![1]),
        job(1, "b", vec![2]),
        job(2, "c", vec![3]),
        job(3, "d", vec![4]),
        job(4, "e", vec![5]),
    ];
    let obs = vec![stored(), rejected("x"), skipped_late(), skipped_early(), skipped_early()];
    let (tally, _events) = run_uploads(jobs, &obs);
    assert_eq!(tally.total, 5);
    assert_eq!(tally.uploaded + tally.failed.len() + tally.skipped, 5);
    assert_eq!(tally.uploaded, 1);
    assert_eq!(tally.failed.len(), 1);
    assert_eq!(tally.skipped, 3);
}
