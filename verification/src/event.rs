//! Notification events emitted during a run.
//!
//! The pipeline reports through exactly three event shapes: a progress
//! fraction, an informational note and an error note. Each event is a
//! self-contained immutable record; rendering to display text is left to
//! the consumer.

use vstd::prelude::*;

verus! {

/// Informational notes a run can emit.
#[derive(Debug, Clone, PartialEq, Eq)]
pub enum InfoNote {
    /// A file was staged for upload; carries its display name.
    StagedFile { file_name: String },
    /// The destination blob name computed for a staged file.
    StagedBlob { blob_name: String },
    /// The run was cancelled by an external request.
    Cancelled,
    /// The source directory held no regular files.
    NoFiles,
    /// Wall-clock duration of a fully successful run.
    Elapsed { millis: u64 },
    /// Every staged file was stored successfully.
    AllUploaded,
}

/// Error notes a run can emit.
#[derive(Debug, Clone, PartialEq, Eq)]
pub enum ErrorNote {
    /// The source directory itself could not be listed.
    DirectoryUnlistable { detail: String },
    /// One directory entry could not be examined at all.
    EntryUnreadable { detail: String },
    /// A regular file had no final name component.
    NameMissing,
    /// A file name could not be decoded as text.
    NameNotUnicode,
    /// A regular file could not be opened or read.
    FileUnreadable { file_name: String, detail: String },
    /// The storage service rejected one upload.
    UploadFailed { file_name: String, cause: String },
    /// The machinery running the uploads itself failed; the run ends
    /// without a success summary.
    RunFailed { detail: String },
}

/// One notification: progress, info or error.
///
/// A progress event states that `completed` of `total` jobs have been
/// stored; the percentage it stands for is `100 * completed / total`.
#[derive(Debug, Clone, PartialEq, Eq)]
pub enum Event {
    Progress { completed: usize, total: usize },
    Info(InfoNote),
    Error(ErrorNote),
}

/// Mathematical model of an [`InfoNote`]: strings become character sequences.
pub enum InfoNoteView {
    StagedFile { file_name: Seq<char> },
    StagedBlob { blob_name: Seq<char> },
    Cancelled,
    NoFiles,
    Elapsed { millis: u64 },
    AllUploaded,
}

/// Mathematical model of an [`ErrorNote`].
pub enum ErrorNoteView {
    DirectoryUnlistable { detail: Seq<char> },
    EntryUnreadable { detail: Seq<char> },
    NameMissing,
    NameNotUnicode,
    FileUnreadable { file_name: Seq<char>, detail: Seq<char> },
    UploadFailed { file_name: Seq<char>, cause: Seq<char> },
    RunFailed { detail: Seq<char> },
}

/// Mathematical model of an [`Event`].
pub enum EventView {
    Progress { completed: int, total: int },
    Info(InfoNoteView),
    Error(ErrorNoteView),
}

impl View for InfoNote {
    type V = InfoNoteView;

    open spec fn view(&self) -> InfoNoteView {
        match self {
            InfoNote::StagedFile { file_name } => InfoNoteView::StagedFile { file_name: file_name@ },
            InfoNote::StagedBlob { blob_name } => InfoNoteView::StagedBlob { blob_name: blob_name@ },
            InfoNote::Cancelled => InfoNoteView::Cancelled,
            InfoNote::NoFiles => InfoNoteView::NoFiles,
            InfoNote::Elapsed { millis } => InfoNoteView::Elapsed { millis: *millis },
            InfoNote::AllUploaded => InfoNoteView::AllUploaded,
        }
    }
}

impl View for ErrorNote {
    type V = ErrorNoteView;

    open spec fn view(&self) -> ErrorNoteView {
        match self {
            ErrorNote::DirectoryUnlistable { detail } => ErrorNoteView::DirectoryUnlistable {
                detail: detail@,
            },
            ErrorNote::EntryUnreadable { detail } => ErrorNoteView::EntryUnreadable {
                detail: detail@,
            },
            ErrorNote::NameMissing => ErrorNoteView::NameMissing,
            ErrorNote::NameNotUnicode => ErrorNoteView::NameNotUnicode,
            ErrorNote::FileUnreadable { file_name, detail } => ErrorNoteView::FileUnreadable {
                file_name: file_name@,
                detail: detail@,
            },
            ErrorNote::UploadFailed { file_name, cause } => ErrorNoteView::UploadFailed {
                file_name: file_name@,
                cause: cause@,
            },
            ErrorNote::RunFailed { detail } => ErrorNoteView::RunFailed { detail: detail@ },
        }
    }
}

impl View for Event {
    type V = EventView;

    open spec fn view(&self) -> EventView {
        match self {
            Event::Progress { completed, total } => EventView::Progress {
                completed: *completed as int,
                total: *total as int,
            },
            Event::Info(n) => EventView::Info(n@),
            Event::Error(n) => EventView::Error(n@),
        }
    }
}

/// The models of a sequence of events, in emission order.
pub open spec fn views_of_events(events: Seq<Event>) -> Seq<EventView> {
    events.map_values(|e: Event| e@)
}

/// The `completed` counts of the progress events in `events`, in order.
pub open spec fn progress_counts(events: Seq<EventView>) -> Seq<int>
    decreases events.len(),
{
    if events.len() == 0 {
        Seq::empty()
    } else {
        let rest = progress_counts(events.drop_last());
        match events.last() {
            EventView::Progress { completed, .. } => rest.push(completed),
            _ => rest,
        }
    }
}

/// How many events in `events` are the info note `note`.
pub open spec fn info_note_count(events: Seq<EventView>, note: InfoNoteView) -> int
    decreases events.len(),
{
    if events.len() == 0 {
        0
    } else {
        let here: int = if events.last() == EventView::Info(note) {
            1
        } else {
            0
        };
        info_note_count(events.drop_last(), note) + here
    }
}

/// Neither progress counts nor cancellation counts change under concatenation
/// except additively: both distribute over `+`.
pub proof fn lemma_progress_counts_add(a: Seq<EventView>, b: Seq<EventView>)
    ensures
        progress_counts(a + b) == progress_counts(a) + progress_counts(b),
    decreases b.len(),
{
    if b.len() == 0 {
        assert(a + b == a);
        assert(progress_counts(a) + Seq::<int>::empty() == progress_counts(a));
    } else {
        lemma_progress_counts_add(a, b.drop_last());
        assert((a + b).drop_last() == a + b.drop_last());
        assert((a + b).last() == b.last());
    }
}

/// A sequence without progress events has an empty progress-count sequence.
pub proof fn lemma_no_progress(s: Seq<EventView>)
    requires
        forall|i: int| 0 <= i < s.len() ==> !(#[trigger] s[i] matches EventView::Progress { .. }),
    ensures
        progress_counts(s) == Seq::<int>::empty(),
    decreases s.len(),
{
    if s.len() > 0 {
        lemma_no_progress(s.drop_last());
        assert(s.last() == s[s.len() - 1]);
        assert(progress_counts(s) =~= Seq::<int>::empty());
    }
}

/// A sequence in which a given info note never occurs counts it zero times.
pub proof fn lemma_info_note_count_zero(s: Seq<EventView>, note: InfoNoteView)
    requires
        forall|i: int| 0 <= i < s.len() ==> s[i] != EventView::Info(note),
    ensures
        info_note_count(s, note) == 0,
    decreases s.len(),
{
    if s.len() > 0 {
        lemma_info_note_count_zero(s.drop_last(), note);
        assert(s.last() == s[s.len() - 1]);
    }
}

/// A sequence without progress events and without a given info note has an
/// empty progress-count sequence and a zero count of that note.
pub proof fn lemma_plain_seq_counts(s: Seq<EventView>, note: InfoNoteView)
    requires
        forall|i: int| 0 <= i < s.len() ==> !(#[trigger] s[i] matches EventView::Progress { .. }),
        forall|i: int| 0 <= i < s.len() ==> s[i] != EventView::Info(note),
    ensures
        progress_counts(s) == Seq::<int>::empty(),
        info_note_count(s, note) == 0,
{
    lemma_no_progress(s);
    lemma_info_note_count_zero(s, note);
}

/// `info_note_count` distributes over concatenation.
pub proof fn lemma_info_note_count_add(a: Seq<EventView>, b: Seq<EventView>, note: InfoNoteView)
    ensures
        info_note_count(a + b, note) == info_note_count(a, note) + info_note_count(b, note),
    decreases b.len(),
{
    if b.len() == 0 {
        assert(a + b == a);
    } else {
        lemma_info_note_count_add(a, b.drop_last(), note);
        assert((a + b).drop_last() == a + b.drop_last());
        assert((a + b).last() == b.last());
    }
}

} // verus!
