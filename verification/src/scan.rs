//! Staging: turning the entries of one directory listing into upload jobs.
//!
//! Listing a directory and reading files is I/O, so the caller performs it
//! and describes what it found as a [`ScanEntry`] per directory entry, in
//! the listing's own order. Staging is then pure: every readable regular
//! file becomes a job with the next free index, every failed entry becomes
//! one error event, and entries that are not regular files are skipped
//! silently.

use vstd::prelude::*;

use crate::event::{Event, EventView, InfoNote, InfoNoteView, ErrorNote, ErrorNoteView,
    views_of_events, progress_counts, info_note_count, lemma_progress_counts_add,
    lemma_info_note_count_add, lemma_plain_seq_counts};
use crate::job::{UploadJob, JobView, blob_name_for, make_blob_name, views_of_jobs};

verus! {

/// What the caller found when it examined one directory entry.
#[derive(Debug, Clone, PartialEq, Eq)]
pub enum ScanEntry {
    /// A regular file whose name decoded and whose contents were read.
    Regular { file_name: String, payload: Vec<u8> },
    /// A regular file whose path had no final name component.
    Nameless,
    /// A regular file whose name could not be decoded as text.
    NameUndecodable,
    /// A regular file that could not be opened or read.
    Unreadable { file_name: String, detail: String },
    /// A sub-directory or other non-regular entry.
    NotRegular,
    /// An entry the listing itself could not hand over.
    Inaccessible { detail: String },
}

/// Mathematical model of a [`ScanEntry`].
pub enum ScanEntryView {
    Regular { file_name: Seq<char>, payload: Seq<u8> },
    Nameless,
    NameUndecodable,
    Unreadable { file_name: Seq<char>, detail: Seq<char> },
    NotRegular,
    Inaccessible { detail: Seq<char> },
}

impl View for ScanEntry {
    type V = ScanEntryView;

    open spec fn view(&self) -> ScanEntryView {
        match self {
            ScanEntry::Regular { file_name, payload } => ScanEntryView::Regular {
                file_name: file_name@,
                payload: payload@,
            },
            ScanEntry::Nameless => ScanEntryView::Nameless,
            ScanEntry::NameUndecodable => ScanEntryView::NameUndecodable,
            ScanEntry::Unreadable { file_name, detail } => ScanEntryView::Unreadable {
                file_name: file_name@,
                detail: detail@,
            },
            ScanEntry::NotRegular => ScanEntryView::NotRegular,
            ScanEntry::Inaccessible { detail } => ScanEntryView::Inaccessible { detail: detail@ },
        }
    }
}

/// The models of a sequence of scan entries, in listing order.
pub open spec fn views_of_entries(entries: Seq<ScanEntry>) -> Seq<ScanEntryView> {
    entries.map_values(|e: ScanEntry| e@)
}

/// The jobs staging produces from `entries` under `prefix`: one job per
/// readable regular file, in listing order, indexed consecutively from 0.
pub open spec fn staged_jobs(entries: Seq<ScanEntryView>, prefix: Seq<char>) -> Seq<JobView>
    decreases entries.len(),
{
    if entries.len() == 0 {
        Seq::empty()
    } else {
        let rest = staged_jobs(entries.drop_last(), prefix);
        match entries.last() {
            ScanEntryView::Regular { file_name, payload } => rest.push(
                JobView {
                    index: rest.len() as int,
                    file_name: file_name,
                    blob_name: blob_name_for(prefix, file_name),
                    payload: payload,
                },
            ),
            _ => rest,
        }
    }
}

/// The events staging emits for one entry: two info events for a staged
/// file, one error event for a failed one, nothing for a non-regular entry.
pub open spec fn events_of_entry(entry: ScanEntryView, prefix: Seq<char>) -> Seq<EventView> {
    match entry {
        ScanEntryView::Regular { file_name, .. } => seq![
            EventView::Info(InfoNoteView::StagedFile { file_name: file_name }),
            EventView::Info(InfoNoteView::StagedBlob {
                blob_name: blob_name_for(prefix, file_name),
            }),
        ],
        ScanEntryView::Nameless => seq![EventView::Error(ErrorNoteView::NameMissing)],
        ScanEntryView::NameUndecodable => seq![EventView::Error(ErrorNoteView::NameNotUnicode)],
        ScanEntryView::Unreadable { file_name, detail } => seq![
            EventView::Error(ErrorNoteView::FileUnreadable { file_name: file_name, detail: detail }),
        ],
        ScanEntryView::NotRegular => Seq::empty(),
        ScanEntryView::Inaccessible { detail } => seq![
            EventView::Error(ErrorNoteView::EntryUnreadable { detail: detail }),
        ],
    }
}

/// All events staging emits for `entries`, in listing order.
pub open spec fn scan_events(entries: Seq<ScanEntryView>, prefix: Seq<char>) -> Seq<EventView>
    decreases entries.len(),
{
    if entries.len() == 0 {
        Seq::empty()
    } else {
        scan_events(entries.drop_last(), prefix) + events_of_entry(entries.last(), prefix)
    }
}

/// Staged jobs carry consecutive indices: the job at position `i` has
/// index `i`.
pub proof fn lemma_staged_jobs_indexed(entries: Seq<ScanEntryView>, prefix: Seq<char>)
    ensures
        forall|i: int| 0 <= i < staged_jobs(entries, prefix).len() ==> (#[trigger] staged_jobs(
            entries,
            prefix,
        )[i].index) == i,
    decreases entries.len(),
{
    if entries.len() > 0 {
        lemma_staged_jobs_indexed(entries.drop_last(), prefix);
        let rest = staged_jobs(entries.drop_last(), prefix);
        let s = staged_jobs(entries, prefix);
        assert forall|i: int| 0 <= i < s.len() implies s[i].index == i by {
            if i < rest.len() {
                assert(s[i] == rest[i]);
            }
        }
    }
}

/// The events of a single entry hold no progress event and none of the
/// run-level info notes.
proof fn lemma_entry_events_plain(entry: ScanEntryView, prefix: Seq<char>)
    ensures
        progress_counts(events_of_entry(entry, prefix)) == Seq::<int>::empty(),
        info_note_count(events_of_entry(entry, prefix), InfoNoteView::Cancelled) == 0,
        info_note_count(events_of_entry(entry, prefix), InfoNoteView::NoFiles) == 0,
        info_note_count(events_of_entry(entry, prefix), InfoNoteView::AllUploaded) == 0,
{
    let s = events_of_entry(entry, prefix);
    lemma_plain_seq_counts(s, InfoNoteView::Cancelled);
    lemma_plain_seq_counts(s, InfoNoteView::NoFiles);
    lemma_plain_seq_counts(s, InfoNoteView::AllUploaded);
}

/// Staging emits no progress events and none of the run-level info notes:
/// only info notes about staged names and error notes about failed entries.
pub proof fn lemma_scan_events_plain(entries: Seq<ScanEntryView>, prefix: Seq<char>)
    ensures
        progress_counts(scan_events(entries, prefix)) == Seq::<int>::empty(),
        info_note_count(scan_events(entries, prefix), InfoNoteView::Cancelled) == 0,
        info_note_count(scan_events(entries, prefix), InfoNoteView::NoFiles) == 0,
        info_note_count(scan_events(entries, prefix), InfoNoteView::AllUploaded) == 0,
    decreases entries.len(),
{
    if entries.len() > 0 {
        let before = scan_events(entries.drop_last(), prefix);
        let here = events_of_entry(entries.last(), prefix);
        lemma_scan_events_plain(entries.drop_last(), prefix);
        lemma_entry_events_plain(entries.last(), prefix);
        lemma_progress_counts_add(before, here);
        lemma_info_note_count_add(before, here, InfoNoteView::Cancelled);
        lemma_info_note_count_add(before, here, InfoNoteView::NoFiles);
        lemma_info_note_count_add(before, here, InfoNoteView::AllUploaded);
        assert(progress_counts(scan_events(entries, prefix)) =~= Seq::<int>::empty());
    }
}

/// Turns the entries of one directory listing into upload jobs.
///
/// Returns the staged jobs and the events staging emitted, both in listing
/// order. One bad entry never stops staging: it becomes an error event and
/// the remaining entries are still processed.
pub fn stage(entries: Vec<ScanEntry>, prefix: &str) -> (r: (Vec<UploadJob>, Vec<Event>))
    ensures
        views_of_jobs(r.0@) == staged_jobs(views_of_entries(entries@), prefix@),
        views_of_events(r.1@) == scan_events(views_of_entries(entries@), prefix@),
{
    let ghost orig: Seq<ScanEntry> = entries@;
    let mut remaining = entries;
    let mut jobs: Vec<UploadJob> = Vec::new();
    let mut events: Vec<Event> = Vec::new();

    while remaining.len() > 0
        invariant
            remaining@.len() <= orig.len(),
            remaining@ == orig.subrange(orig.len() - remaining@.len(), orig.len() as int),
            views_of_jobs(jobs@) == staged_jobs(
                views_of_entries(orig.subrange(0, orig.len() - remaining@.len())),
                prefix@,
            ),
            views_of_events(events@) == scan_events(
                views_of_entries(orig.subrange(0, orig.len() - remaining@.len())),
                prefix@,
            ),
        decreases remaining@.len(),
    {
        let ghost i: int = orig.len() - remaining@.len();
        let entry = remaining.remove(0);
        assert(entry == orig[i]);
        assert(remaining@ == orig.subrange(i + 1, orig.len() as int));
        let ghost done_before: Seq<ScanEntryView> = views_of_entries(orig.subrange(0, i));
        let ghost done_after: Seq<ScanEntryView> = views_of_entries(orig.subrange(0, i + 1));
        proof {
            assert(orig.subrange(0, i + 1).drop_last() =~= orig.subrange(0, i));
            assert(done_after.drop_last() =~= done_before);
            assert(done_after.last() == orig[i]@);
        }

        match entry {
            ScanEntry::Regular { file_name, payload } => {
                let display_name = file_name.clone();
                let blob_name = make_blob_name(prefix, file_name.as_str());
                let blob_display = blob_name.clone();
                events.push(Event::Info(InfoNote::StagedFile { file_name: display_name }));
                events.push(Event::Info(InfoNote::StagedBlob { blob_name: blob_display }));
                let index = jobs.len();
                jobs.push(UploadJob { index, file_name, blob_name, payload });
            },
            ScanEntry::Nameless => {
                events.push(Event::Error(ErrorNote::NameMissing));
            },
            ScanEntry::NameUndecodable => {
                events.push(Event::Error(ErrorNote::NameNotUnicode));
            },
            ScanEntry::Unreadable { file_name, detail } => {
                events.push(Event::Error(ErrorNote::FileUnreadable { file_name, detail }));
            },
            ScanEntry::NotRegular => {},
            ScanEntry::Inaccessible { detail } => {
                events.push(Event::Error(ErrorNote::EntryUnreadable { detail }));
            },
        }

        proof {
            assert(views_of_jobs(jobs@) =~= staged_jobs(done_after, prefix@));
            assert(views_of_events(events@) =~= scan_events(done_after, prefix@));
        }
    }
    proof {
        assert(orig.subrange(0, orig.len() as int) =~= orig);
    }
    (jobs, events)
}

} // verus!
