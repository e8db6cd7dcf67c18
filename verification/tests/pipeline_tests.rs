use blob_uploader::config::{ConfigError, RunConfig};
use blob_uploader::coordinator::{JobObservation, StoreOutcome};
use blob_uploader::event::{ErrorNote, Event, InfoNote};
use blob_uploader::pipeline::run;
use blob_uploader::scan::ScanEntry;

fn config() -> RunConfig {
    RunConfig::new(
        String::from("c1"),
        String::from("/data/in"),
        String::from("backup"),
        String::from("acct"),
        String::from("key"),
    )
}

fn stored() -> JobObservation {
    JobObservation {
        cancel_seen_early: false,
        cancel_seen_late: false,
        outcome: Some(StoreOutcome::Stored),
    }
}

fn two_file_listing() -> Vec<ScanEntry> {
    vec![
        ScanEntry::Regular { file_name: String::from("a.txt"), payload: vec![10, 20, 30] },
        ScanEntry::Regular {
            file_name: String::from("b.txt"),
            payload: vec![1, 2, 3, 4, 5],
        },
    ]
}

#[test]
fn fully_successful_run() {
    // Two files of 3 and 5 bytes, prefix "backup": both are stored under
    // their joined blob names, progress hits 50 then 100 exactly once
    // each, and the run closes with the success notes and one more full
    // progress event.
    let obs = vec![stored(), stored()];
    let (result, events) = run(&config(), true, Ok(two_file_listing()), &obs, false, 1234)
        .expect("configuration is valid");

    assert_eq!(result.total_files, 2);
    assert_eq!(result.uploaded_count, 2);
    assert!(result.failed.is_empty());
    assert_eq!(result.skipped, 0);
    assert!(!result.cancelled);
    assert_eq!(result.elapsed_millis, 1234);
    assert_eq!(result.uploaded_count + result.failed.len() + result.skipped, result.total_files);

    assert_eq!(
        events,
        vec![
            Event::Info(InfoNote::StagedFile { file_name: String::from("a.txt") }),
            Event::Info(InfoNote::StagedBlob { blob_name: String::from("backup/a.txt") }),
            Event::Info(InfoNote::StagedFile { file_name: String::from("b.txt") }),
            Event::Info(InfoNote::StagedBlob { blob_name: String::from("backup/b.txt") }),
            Event::Progress { completed: 1, total: 2 },
            Event::Progress { completed: 2, total: 2 },
            Event::Info(InfoNote::Elapsed { millis: 1234 }),
            Event::Progress { completed: 2, total: 2 },
            Event::Info(InfoNote::AllUploaded),
        ]
    );

    // The per-job progress percentages, each exactly once.
    let percents: Vec<f64> = events[4..6]
        .iter()
        .map(|e| match e {
            Event::Progress { completed, total } => 100.0 * (*completed as f64) / (*total as f64),
            _ => unreachable!(),
        })
        .collect();
    assert_eq!(percents, vec![50.0, 100.0]);
}

#[test]
fn one_failed_upload_suppresses_the_success_notes() {
    // Same run, but the service rejects "b.txt": an error event names it,
    // only the 50-percent progress event appears, and no success note or
    // final progress event follows.
    let obs = vec![
        stored(),
        JobObservation {
            cancel_seen_early: false,
            cancel_seen_late: false,
            outcome: Some(StoreOutcome::Rejected { cause: String::from("service error") }),
        },
    ];
    let (result, events) = run(&config(), true, Ok(two_file_listing()), &obs, false, 7)
        .expect("configuration is valid");

    assert_eq!(result.uploaded_count, 1);
    assert_eq!(result.failed, vec![(String::from("b.txt"), String::from("service error"))]);
    assert_eq!(result.skipped, 0);
    assert_eq!(result.uploaded_count + result.failed.len() + result.skipped, result.total_files);

    let progress: Vec<&Event> = events
        .iter()
        .filter(|e| matches!(e, Event::Progress { .. }))
        .collect();
    assert_eq!(progress, vec![&Event::Progress { completed: 1, total: 2 }]);
    assert!(events.contains(&Event::Error(ErrorNote::UploadFailed {
        file_name: String::from("b.txt"),
        cause: String::from("service error"),
    })));
    assert!(!events.contains(&Event::Info(InfoNote::AllUploaded)));
    assert!(!events.iter().any(|e| matches!(e, Event::Info(InfoNote::Elapsed { .. }))));
}

#[test]
fn cancellation_before_any_job_starts() {
    // Both jobs observe the flag at the first checkpoint: no store call
    // is made and exactly one cancellation note is emitted.
    let obs = vec![
        JobObservation { cancel_seen_early: true, cancel_seen_late: false, outcome: None },
        JobObservation { cancel_seen_early: true, cancel_seen_late: false, outcome: None },
    ];
    let (result, events) = run(&config(), true, Ok(two_file_listing()), &obs, true, 3)
        .expect("configuration is valid");

    assert_eq!(result.uploaded_count, 0);
    assert_eq!(result.skipped, 2);
    assert!(result.cancelled);
    let cancel_notes = events
        .iter()
        .filter(|e| **e == Event::Info(InfoNote::Cancelled))
        .count();
    assert_eq!(cancel_notes, 1);
    assert!(!events.iter().any(|e| matches!(e, Event::Progress { .. })));
}

#[test]
fn cancellation_mid_run_caps_completions() {
    // One upload already past the second checkpoint completes; the job
    // that had taken a slot notes the cancellation; the last is skipped
    // before dispatch. The terminal cancellation note follows.
    let obs = vec![
        stored(),
        JobObservation { cancel_seen_early: false, cancel_seen_late: true, outcome: None },
        JobObservation { cancel_seen_early: true, cancel_seen_late: false, outcome: None },
    ];
    let listing = vec![
        ScanEntry::Regular { file_name: String::from("a.txt"), payload: vec![1] },
        ScanEntry::Regular { file_name: String::from("b.txt"), payload: vec![2] },
        ScanEntry::Regular { file_name: String::from("c.txt"), payload: vec![3] },
    ];
    let (result, events) = run(&config(), true, Ok(listing), &obs, true, 5)
        .expect("configuration is valid");

    assert_eq!(result.uploaded_count, 1);
    assert_eq!(result.skipped, 2);
    assert!(result.cancelled);
    assert_eq!(result.uploaded_count + result.failed.len() + result.skipped, result.total_files);
    assert!(!events.contains(&Event::Info(InfoNote::AllUploaded)));
}

#[test]
fn empty_directory_notes_no_files() {
    let listing = vec![ScanEntry::NotRegular];
    let (result, events) = run(&config(), true, Ok(listing), &Vec::new(), false, 2)
        .expect("configuration is valid");

    assert_eq!(result.total_files, 0);
    assert_eq!(result.uploaded_count, 0);
    assert_eq!(events, vec![Event::Info(InfoNote::NoFiles)]);
}

#[test]
fn unlistable_directory_ends_the_run_with_one_error() {
    let (result, events) = run(
        &config(),
        true,
        Err(String::from("permission denied")),
        &Vec::new(),
        false,
        0,
    )
    .expect("configuration is valid");

    assert_eq!(result.total_files, 0);
    assert_eq!(result.uploaded_count, 0);
    assert_eq!(
        events,
        vec![Event::Error(ErrorNote::DirectoryUnlistable {
            detail: String::from("permission denied"),
        })]
    );
}

#[test]
fn invalid_config_aborts_before_anything_else() {
    let mut bad = config();
    bad.container = String::new();
    let r = run(&bad, true, Ok(two_file_listing()), &vec![stored(), stored()], false, 0);
    assert_eq!(r.unwrap_err(), ConfigError::EmptyContainer);
}

#[test]
fn missing_source_dir_aborts_the_run() {
    let r = run(&config(), false, Err(String::from("unused")), &Vec::new(), false, 0);
    assert_eq!(r.unwrap_err(), ConfigError::SourceDirMissing);
}
