use blob_uploader::event::{ErrorNote, Event, InfoNote};
use blob_uploader::job::make_blob_name;
use blob_uploader::scan::{stage, ScanEntry};

#[test]
fn blob_name_joins_with_slash() {
    assert_eq!(make_blob_name("backup", "a.txt"), "backup/a.txt");
    assert_eq!(make_blob_name("", "a.txt"), "/a.txt");
    assert_eq!(make_blob_name("x/y", "z"), "x/y/z");
}

#[test]
fn stages_regular_files_in_listing_order() {
    let entries = vec![
        ScanEntry::Regular { file_name: String::from("a.txt"), payload: vec![1, 2, 3] },
        ScanEntry::NotRegular,
        ScanEntry::Regular { file_name: String::from("b.txt"), payload: vec![4, 5, 6, 7, 8] },
    ];
    let (jobs, events) = stage(entries, "backup");

    assert_eq!(jobs.len(), 2);
    assert_eq!(jobs[0].index, 0);
    assert_eq!(jobs[0].file_name, "a.txt");
    assert_eq!(jobs[0].blob_name, "backup/a.txt");
    assert_eq!(jobs[0].payload, vec![1, 2, 3]);
    assert_eq!(jobs[0].size(), 3);
    assert_eq!(jobs[1].index, 1);
    assert_eq!(jobs[1].blob_name, "backup/b.txt");
    assert_eq!(jobs[1].payload, vec![4, 5, 6, 7, 8]);

    assert_eq!(
        events,
        vec![
            Event::Info(InfoNote::StagedFile { file_name: String::from("a.txt") }),
            Event::Info(InfoNote::StagedBlob { blob_name: String::from("backup/a.txt") }),
            Event::Info(InfoNote::StagedFile { file_name: String::from("b.txt") }),
            Event::Info(InfoNote::StagedBlob { blob_name: String::from("backup/b.txt") }),
        ]
    );
}

#[test]
fn one_bad_entry_never_stops_the_scan() {
    let entries = vec![
        ScanEntry::Inaccessible { detail: String::from("denied") },
        ScanEntry::Regular { file_name: String::from("ok.bin"), payload: vec![9] },
        ScanEntry::Unreadable {
            file_name: String::from("locked.bin"),
            detail: String::from("permission"),
        },
        ScanEntry::Nameless,
        ScanEntry::NameUndecodable,
        ScanEntry::Regular { file_name: String::from("more.bin"), payload: vec![] },
    ];
    let (jobs, events) = stage(entries, "p");

    assert_eq!(jobs.len(), 2);
    assert_eq!(jobs[0].file_name, "ok.bin");
    assert_eq!(jobs[0].index, 0);
    assert_eq!(jobs[1].file_name, "more.bin");
    assert_eq!(jobs[1].index, 1);

    let errors: Vec<&Event> = events
        .iter()
        .filter(|e| matches!(e, Event::Error(_)))
        .collect();
    assert_eq!(errors.len(), 4);
    assert_eq!(
        *errors[0],
        Event::Error(ErrorNote::EntryUnreadable { detail: String::from("denied") })
    );
    assert_eq!(
        *errors[1],
        Event::Error(ErrorNote::FileUnreadable {
            file_name: String::from("locked.bin"),
            detail: String::from("permission"),
        })
    );
    assert_eq!(*errors[2], Event::Error(ErrorNote::NameMissing));
    assert_eq!(*errors[3], Event::Error(ErrorNote::NameNotUnicode));
}

#[test]
fn empty_listing_stages_nothing() {
    let (jobs, events) = stage(Vec::new(), "backup");
    assert!(jobs.is_empty());
    assert!(events.is_empty());
}

#[test]
fn non_regular_entries_are_skipped_silently() {
    let entries = vec![ScanEntry::NotRegular, ScanEntry::NotRegular];
    let (jobs, events) = stage(entries, "backup");
    assert!(jobs.is_empty());
    assert!(events.is_empty());
}
