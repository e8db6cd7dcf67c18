//! The pipeline: validation, staging, uploads, terminal summary.
//!
//! This is the run as a whole. The caller performs the I/O — it checks
//! whether the source directory exists, lists it, reads its files, calls
//! the storage service, reads the cancellation flag and the clock — and
//! hands every answer in as a plain value. The pipeline decides everything
//! else and states exactly which events a run emits and what its result is.

use vstd::prelude::*;

use crate::config::{ConfigError, RunConfig};
use crate::coordinator::{JobObservation, ObservationView, count_failed, count_skipped,
    count_store_calls, count_uploaded, coordinator_events, failed_pairs, is_skipped, is_stored,
    lemma_all_cancelled_early, lemma_all_stored_counts, lemma_progress_when_all_stored,
    lemma_upload_events_note_free, observation_wf, run_uploads, upload_events,
    views_of_observations, views_of_pairs};
use crate::event::{Event, EventView, InfoNote, InfoNoteView, ErrorNote, ErrorNoteView,
    info_note_count, lemma_info_note_count_add, lemma_progress_counts_add, progress_counts,
    views_of_events};
use crate::job::views_of_jobs;
use crate::scan::{ScanEntry, ScanEntryView, lemma_scan_events_plain, lemma_staged_jobs_indexed,
    scan_events, stage, staged_jobs, views_of_entries};

verus! {

/// What one run came to in the end.
#[derive(Debug, Clone, PartialEq, Eq)]
pub struct RunResult {
    /// Number of jobs staged for upload.
    pub total_files: usize,
    /// Jobs whose payload the service stored.
    pub uploaded_count: usize,
    /// File name and cause of each rejected upload, in job order.
    pub failed: Vec<(String, String)>,
    /// Jobs skipped because cancellation was observed.
    pub skipped: usize,
    /// Whether the cancellation flag was set when the run finished.
    pub cancelled: bool,
    /// Wall-clock duration of the run, as measured by the caller.
    pub elapsed_millis: u64,
}

/// The events the pipeline emits after the last job is accounted for:
/// nothing when there were no jobs (the "no files" note was already
/// emitted) or when failures must remain the only signal; the single
/// cancellation note for a cancelled run; the elapsed-time note, a final
/// full progress event and the success note for a fully successful one.
pub open spec fn terminal_events(
    total: int,
    failed_len: int,
    cancelled: bool,
    millis: u64,
) -> Seq<EventView> {
    if total == 0 {
        Seq::empty()
    } else if cancelled {
        seq![EventView::Info(InfoNoteView::Cancelled)]
    } else if failed_len == 0 {
        seq![
            EventView::Info(InfoNoteView::Elapsed { millis }),
            EventView::Progress { completed: total, total: total },
            EventView::Info(InfoNoteView::AllUploaded),
        ]
    } else {
        Seq::empty()
    }
}

/// Every event a run emits, in order: the staging events, the upload
/// stage's events, the terminal events.
pub open spec fn run_events(
    entries: Seq<ScanEntryView>,
    prefix: Seq<char>,
    obs: Seq<ObservationView>,
    cancelled: bool,
    millis: u64,
) -> Seq<EventView> {
    let jv = staged_jobs(entries, prefix);
    scan_events(entries, prefix) + coordinator_events(jv, obs, jv.len() as int)
        + terminal_events(jv.len() as int, count_failed(obs), cancelled, millis)
}

/// Appends the terminal events of a run to `events`: exactly what
/// [`terminal_events`] states for the given totals, cancellation flag and
/// duration.
pub fn emit_terminal(
    events: &mut Vec<Event>,
    total: usize,
    failed_len: usize,
    cancelled: bool,
    millis: u64,
)
    ensures
        views_of_events(final(events)@) == views_of_events(old(events)@) + terminal_events(
            total as int,
            failed_len as int,
            cancelled,
            millis,
        ),
{
    let ghost before = views_of_events(events@);
    if total > 0 {
        if cancelled {
            events.push(Event::Info(InfoNote::Cancelled));
        } else if failed_len == 0 {
            events.push(Event::Info(InfoNote::Elapsed { millis }));
            events.push(Event::Progress { completed: total, total });
            events.push(Event::Info(InfoNote::AllUploaded));
        }
    }
    proof {
        assert(views_of_events(events@) =~= before + terminal_events(
            total as int,
            failed_len as int,
            cancelled,
            millis,
        ));
    }
}

/// Runs the whole pipeline over what the caller observed.
///
/// `source_exists` answers "does the source directory exist"; `listing`
/// is the directory listing or the reason it could not be taken; `obs`
/// holds one observation per staged job, in staging order; `cancel_at_end`
/// is the cancellation flag as read once all dispatched jobs had finished;
/// `elapsed_millis` is the measured duration.
///
/// A configuration violation aborts before anything else, with no events.
/// A failed listing emits the single directory error and ends the run
/// with an all-zero result. Otherwise every staged job is accounted for:
/// `uploaded + failed + skipped == total`.
pub fn run(
    config: &RunConfig,
    source_exists: bool,
    listing: Result<Vec<ScanEntry>, String>,
    obs: &Vec<JobObservation>,
    cancel_at_end: bool,
    elapsed_millis: u64,
) -> (r: Result<(RunResult, Vec<Event>), ConfigError>)
    requires
        config.first_violation(source_exists) is None ==> match listing {
            Ok(entries) => {
                &&& obs@.len() == staged_jobs(
                    views_of_entries(entries@),
                    config.dest_prefix@,
                ).len()
                &&& forall|i: int| 0 <= i < obs@.len() ==> observation_wf(#[trigger] obs@[i]@)
                &&& forall|i: int|
                    0 <= i < obs@.len() ==> (is_skipped(#[trigger] obs@[i]@) ==> cancel_at_end)
            },
            Err(_) => true,
        },
    ensures
        r is Err <==> config.first_violation(source_exists) is Some,
        r matches Err(e) ==> Some(e) == config.first_violation(source_exists),
        r matches Ok(out) ==> match listing {
            Ok(entries) => {
                let ev = views_of_entries(entries@);
                let jv = staged_jobs(ev, config.dest_prefix@);
                let ov = views_of_observations(obs@);
                &&& out.0.total_files == jv.len()
                &&& out.0.uploaded_count == count_uploaded(ov)
                &&& out.0.skipped == count_skipped(ov)
                &&& views_of_pairs(out.0.failed@) == failed_pairs(jv, ov)
                &&& out.0.failed@.len() == count_failed(ov)
                &&& out.0.cancelled == cancel_at_end
                &&& out.0.elapsed_millis == elapsed_millis
                &&& out.0.uploaded_count + out.0.failed@.len() + out.0.skipped
                    == out.0.total_files
                &&& views_of_events(out.1@) == run_events(
                    ev,
                    config.dest_prefix@,
                    ov,
                    cancel_at_end,
                    elapsed_millis,
                )
            },
            Err(detail) => {
                &&& out.0.total_files == 0
                &&& out.0.uploaded_count == 0
                &&& out.0.skipped == 0
                &&& out.0.failed@.len() == 0
                &&& out.0.cancelled == false
                &&& out.0.elapsed_millis == elapsed_millis
                &&& views_of_events(out.1@) == seq![
                    EventView::Error(ErrorNoteView::DirectoryUnlistable { detail: detail@ }),
                ]
            },
        },
{
    if let Err(e) = config.validate(source_exists) {
        return Err(e);
    }
    match listing {
        Err(detail) => {
            let mut events: Vec<Event> = Vec::new();
            events.push(Event::Error(ErrorNote::DirectoryUnlistable { detail }));
            let result = RunResult {
                total_files: 0,
                uploaded_count: 0,
                failed: Vec::new(),
                skipped: 0,
                cancelled: false,
                elapsed_millis,
            };
            Ok((result, events))
        },
        Ok(entries) => {
            let ghost ev = views_of_entries(entries@);
            let ghost prefix = config.dest_prefix@;
            let ghost ov = views_of_observations(obs@);
            let (jobs, mut events) = stage(entries, config.dest_prefix.as_str());
            proof {
                lemma_staged_jobs_indexed(ev, prefix);
                assert forall|i: int| 0 <= i < jobs@.len() implies (#[trigger] jobs@[i]@.index)
                    == i by {
                    assert(jobs@[i]@ == views_of_jobs(jobs@)[i]);
                }
            }
            let (tally, mut upload_evts) = run_uploads(jobs, obs);
            let ghost jv = staged_jobs(ev, prefix);
            let ghost scan_part = views_of_events(events@);
            let ghost upload_part = views_of_events(upload_evts@);
            events.append(&mut upload_evts);
            proof {
                assert(views_of_events(events@) =~= scan_part + upload_part);
            }
            emit_terminal(&mut events, tally.total, tally.failed.len(), cancel_at_end,
                elapsed_millis);
            proof {
                assert(views_of_events(events@) =~= run_events(
                    ev,
                    prefix,
                    ov,
                    cancel_at_end,
                    elapsed_millis,
                ));
            }
            let result = RunResult {
                total_files: tally.total,
                uploaded_count: tally.uploaded,
                failed: tally.failed,
                skipped: tally.skipped,
                cancelled: cancel_at_end,
                elapsed_millis,
            };
            Ok((result, events))
        },
    }
}

/// A fully successful run of one or more files emits exactly the progress
/// counts 1 through N, then one extra full progress event, and closes with
/// the success note, emitted exactly once.
pub proof fn lemma_run_fully_successful(
    entries: Seq<ScanEntryView>,
    prefix: Seq<char>,
    obs: Seq<ObservationView>,
    millis: u64,
)
    requires
        obs.len() == staged_jobs(entries, prefix).len(),
        obs.len() > 0,
        forall|i: int| 0 <= i < obs.len() ==> is_stored(#[trigger] obs[i]),
    ensures
        progress_counts(run_events(entries, prefix, obs, false, millis)) =~= Seq::new(
            obs.len(),
            |i: int| i + 1,
        ).push(obs.len() as int),
        info_note_count(run_events(entries, prefix, obs, false, millis), InfoNoteView::AllUploaded)
            == 1,
        run_events(entries, prefix, obs, false, millis).last() == EventView::Info(
            InfoNoteView::AllUploaded,
        ),
{
    let jv = staged_jobs(entries, prefix);
    let n = jv.len() as int;
    let sc = scan_events(entries, prefix);
    let up = upload_events(jv, obs, n);
    lemma_all_stored_counts(obs);
    let term = terminal_events(n, 0, false, millis);
    lemma_scan_events_plain(entries, prefix);
    lemma_staged_jobs_indexed(entries, prefix);
    lemma_progress_when_all_stored(jv, obs, n);
    lemma_progress_counts_add(sc, up);
    lemma_progress_counts_add(sc + up, term);
    let t1 = term.drop_last().drop_last();
    let t2 = term.drop_last();
    assert(t1.drop_last() =~= Seq::<EventView>::empty());
    assert(t2.drop_last() == t1);
    assert(progress_counts(Seq::<EventView>::empty()) =~= Seq::<int>::empty());
    assert(progress_counts(t1) =~= Seq::<int>::empty());
    assert(progress_counts(t2) =~= seq![n]);
    assert(progress_counts(term) =~= seq![n]);
    assert(progress_counts(run_events(entries, prefix, obs, false, millis)) =~= Seq::new(
        obs.len(),
        |i: int| i + 1,
    ).push(n));
    lemma_upload_events_note_free(jv, obs, n, InfoNoteView::AllUploaded);
    lemma_info_note_count_add(sc, up, InfoNoteView::AllUploaded);
    lemma_info_note_count_add(sc + up, term, InfoNoteView::AllUploaded);
    assert(info_note_count(Seq::<EventView>::empty(), InfoNoteView::AllUploaded) == 0);
    assert(info_note_count(t1, InfoNoteView::AllUploaded) == 0);
    assert(info_note_count(t2, InfoNoteView::AllUploaded) == 0);
    assert(info_note_count(term, InfoNoteView::AllUploaded) == 1);
    assert(run_events(entries, prefix, obs, false, millis).last() == term.last());
}

/// When cancellation is already requested before any job starts, the run
/// makes no store call at all and emits the cancellation note exactly once.
pub proof fn lemma_run_cancelled_before_start(
    entries: Seq<ScanEntryView>,
    prefix: Seq<char>,
    obs: Seq<ObservationView>,
    millis: u64,
)
    requires
        obs.len() == staged_jobs(entries, prefix).len(),
        obs.len() > 0,
        forall|i: int| 0 <= i < obs.len() ==> (#[trigger] obs[i]).early,
    ensures
        count_store_calls(obs) == 0,
        count_uploaded(obs) == 0,
        info_note_count(run_events(entries, prefix, obs, true, millis), InfoNoteView::Cancelled)
            == 1,
        progress_counts(run_events(entries, prefix, obs, true, millis)) == Seq::<int>::empty(),
{
    let jv = staged_jobs(entries, prefix);
    let n = jv.len() as int;
    let sc = scan_events(entries, prefix);
    let up = upload_events(jv, obs, n);
    let term = terminal_events(n, count_failed(obs), true, millis);
    lemma_all_cancelled_early(jv, obs, n);
    lemma_scan_events_plain(entries, prefix);
    lemma_info_note_count_add(sc, up, InfoNoteView::Cancelled);
    lemma_info_note_count_add(sc + up, term, InfoNoteView::Cancelled);
    assert(term.drop_last() =~= Seq::<EventView>::empty());
    assert(info_note_count(Seq::<EventView>::empty(), InfoNoteView::Cancelled) == 0);
    assert(info_note_count(term, InfoNoteView::Cancelled) == 1);
    lemma_progress_counts_add(sc, up);
    lemma_progress_counts_add(sc + up, term);
    assert(progress_counts(Seq::<EventView>::empty()) =~= Seq::<int>::empty());
    assert(progress_counts(term) =~= Seq::<int>::empty());
}

/// A run over a directory without regular files emits the "no files" note
/// exactly once and no progress event at all.
pub proof fn lemma_run_no_files(
    entries: Seq<ScanEntryView>,
    prefix: Seq<char>,
    obs: Seq<ObservationView>,
    cancelled: bool,
    millis: u64,
)
    requires
        staged_jobs(entries, prefix).len() == 0,
        obs.len() == 0,
    ensures
        info_note_count(run_events(entries, prefix, obs, cancelled, millis), InfoNoteView::NoFiles)
            == 1,
        progress_counts(run_events(entries, prefix, obs, cancelled, millis)) == Seq::<
            int,
        >::empty(),
{
    let jv = staged_jobs(entries, prefix);
    let sc = scan_events(entries, prefix);
    let co = coordinator_events(jv, obs, 0);
    let term = terminal_events(0, count_failed(obs), cancelled, millis);
    lemma_scan_events_plain(entries, prefix);
    lemma_info_note_count_add(sc, co, InfoNoteView::NoFiles);
    lemma_info_note_count_add(sc + co, term, InfoNoteView::NoFiles);
    assert(co.drop_last() =~= Seq::<EventView>::empty());
    assert(info_note_count(Seq::<EventView>::empty(), InfoNoteView::NoFiles) == 0);
    assert(info_note_count(co, InfoNoteView::NoFiles) == 1);
    lemma_progress_counts_add(sc, co);
    lemma_progress_counts_add(sc + co, term);
    assert(progress_counts(Seq::<EventView>::empty()) =~= Seq::<int>::empty());
    assert(progress_counts(co) =~= Seq::<int>::empty());
    assert(term =~= Seq::<EventView>::empty());
    assert(progress_counts(term) =~= Seq::<int>::empty());
}

} // verus!
