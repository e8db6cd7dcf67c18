//! The upload coordinator: one attempt per staged job, two cancellation
//! checkpoints, exact bookkeeping of what happened.
//!
//! Calling the storage service is I/O, so the caller makes that call and
//! reports what it observed for each job as a [`JobObservation`]: the
//! cancellation flag's value just before the job would be dispatched, its
//! value just after a concurrency slot was acquired, and — when both reads
//! were false and the store call was therefore made — the service's answer.
//! Everything the coordinator decides and emits is a function of those
//! observations, and is stated as one.

use vstd::prelude::*;

use crate::event::{Event, EventView, InfoNote, InfoNoteView, ErrorNote, ErrorNoteView,
    views_of_events, progress_counts, lemma_progress_counts_add, lemma_info_note_count_add,
    lemma_info_note_count_zero, info_note_count};
use crate::job::{UploadJob, JobView, views_of_jobs};

verus! {

/// The storage service's answer to one store call.
#[derive(Debug, Clone, PartialEq, Eq)]
pub enum StoreOutcome {
    /// The payload was stored under the job's blob name.
    Stored,
    /// The service rejected or failed the call.
    Rejected { cause: String },
}

/// Mathematical model of a [`StoreOutcome`].
pub enum StoreOutcomeView {
    Stored,
    Rejected { cause: Seq<char> },
}

impl View for StoreOutcome {
    type V = StoreOutcomeView;

    open spec fn view(&self) -> StoreOutcomeView {
        match self {
            StoreOutcome::Stored => StoreOutcomeView::Stored,
            StoreOutcome::Rejected { cause } => StoreOutcomeView::Rejected { cause: cause@ },
        }
    }
}

/// What the outside world decided for one job: the two reads of the
/// cancellation flag and, if the store call was made, its outcome.
#[derive(Debug, Clone, PartialEq, Eq)]
pub struct JobObservation {
    /// The cancellation flag, read immediately before dispatch.
    pub cancel_seen_early: bool,
    /// The flag again, read after a slot was acquired and before the call.
    pub cancel_seen_late: bool,
    /// The service's answer; `None` when the job was skipped.
    pub outcome: Option<StoreOutcome>,
}

/// Mathematical model of a [`JobObservation`].
pub struct ObservationView {
    pub early: bool,
    pub late: bool,
    pub outcome: Option<StoreOutcomeView>,
}

impl View for JobObservation {
    type V = ObservationView;

    open spec fn view(&self) -> ObservationView {
        ObservationView {
            early: self.cancel_seen_early,
            late: self.cancel_seen_late,
            outcome: match self.outcome {
                Some(o) => Some(o@),
                None => None,
            },
        }
    }
}

/// The models of a sequence of observations, in job order.
pub open spec fn views_of_observations(obs: Seq<JobObservation>) -> Seq<ObservationView> {
    obs.map_values(|o: JobObservation| o@)
}

/// An observation is coherent when it reports a store outcome exactly for
/// a job that passed both cancellation checkpoints.
pub open spec fn observation_wf(o: ObservationView) -> bool {
    (!o.early && !o.late) <==> o.outcome is Some
}

/// The store call was made and the payload was stored.
pub open spec fn is_stored(o: ObservationView) -> bool {
    !o.early && !o.late && o.outcome == Some(StoreOutcomeView::Stored)
}

/// The store call was made and the service rejected it.
pub open spec fn is_rejected(o: ObservationView) -> bool {
    !o.early && !o.late && (o.outcome matches Some(StoreOutcomeView::Rejected { .. }))
}

/// The job was skipped at one of the two cancellation checkpoints.
pub open spec fn is_skipped(o: ObservationView) -> bool {
    o.early || o.late
}

/// How many of the observed jobs were stored.
pub open spec fn count_uploaded(obs: Seq<ObservationView>) -> int
    decreases obs.len(),
{
    if obs.len() == 0 {
        0
    } else {
        count_uploaded(obs.drop_last()) + if is_stored(obs.last()) {
            1int
        } else {
            0int
        }
    }
}

/// How many of the observed jobs were rejected by the service.
pub open spec fn count_failed(obs: Seq<ObservationView>) -> int
    decreases obs.len(),
{
    if obs.len() == 0 {
        0
    } else {
        count_failed(obs.drop_last()) + if is_rejected(obs.last()) {
            1int
        } else {
            0int
        }
    }
}

/// How many of the observed jobs were skipped at a checkpoint.
pub open spec fn count_skipped(obs: Seq<ObservationView>) -> int
    decreases obs.len(),
{
    if obs.len() == 0 {
        0
    } else {
        count_skipped(obs.drop_last()) + if is_skipped(obs.last()) {
            1int
        } else {
            0int
        }
    }
}

/// How many store calls reached the service: one per job that passed both
/// checkpoints.
pub open spec fn count_store_calls(obs: Seq<ObservationView>) -> int
    decreases obs.len(),
{
    if obs.len() == 0 {
        0
    } else {
        count_store_calls(obs.drop_last()) + if !obs.last().early && !obs.last().late {
            1int
        } else {
            0int
        }
    }
}

/// The failures, in job order: the file name of each rejected job paired
/// with the cause the service gave.
pub open spec fn failed_pairs(jobs: Seq<JobView>, obs: Seq<ObservationView>) -> Seq<
    (Seq<char>, Seq<char>),
>
    decreases obs.len(),
{
    if obs.len() == 0 || jobs.len() != obs.len() {
        Seq::empty()
    } else {
        let rest = failed_pairs(jobs.drop_last(), obs.drop_last());
        match obs.last().outcome {
            Some(StoreOutcomeView::Rejected { cause }) => if is_rejected(obs.last()) {
                rest.push((jobs.last().file_name, cause))
            } else {
                rest
            },
            _ => rest,
        }
    }
}

/// The events one attempt emits: nothing for a job skipped before
/// dispatch, the cancellation note for a job skipped after acquiring a
/// slot, a progress event for a stored job, an error event for a rejected
/// one.
pub open spec fn events_of_attempt(job: JobView, o: ObservationView, total: int) -> Seq<
    EventView,
> {
    if o.early {
        Seq::empty()
    } else if o.late {
        seq![EventView::Info(InfoNoteView::Cancelled)]
    } else {
        match o.outcome {
            Some(StoreOutcomeView::Stored) => seq![
                EventView::Progress { completed: job.index + 1, total: total },
            ],
            Some(StoreOutcomeView::Rejected { cause }) => seq![
                EventView::Error(ErrorNoteView::UploadFailed {
                    file_name: job.file_name,
                    cause: cause,
                }),
            ],
            None => Seq::empty(),
        }
    }
}

/// All events the upload stage emits for `jobs` under `obs`, in job order.
pub open spec fn upload_events(jobs: Seq<JobView>, obs: Seq<ObservationView>, total: int) -> Seq<
    EventView,
>
    decreases obs.len(),
{
    if obs.len() == 0 || jobs.len() != obs.len() {
        Seq::empty()
    } else {
        upload_events(jobs.drop_last(), obs.drop_last(), total) + events_of_attempt(
            jobs.last(),
            obs.last(),
            total,
        )
    }
}

/// Everything the coordinator emits: the upload events, or the single
/// "no files" note when there was nothing to upload.
pub open spec fn coordinator_events(jobs: Seq<JobView>, obs: Seq<ObservationView>, total: int) -> Seq<
    EventView,
> {
    if jobs.len() == 0 {
        seq![EventView::Info(InfoNoteView::NoFiles)]
    } else {
        upload_events(jobs, obs, total)
    }
}

/// Running bookkeeping of one upload stage.
#[derive(Debug, Clone, PartialEq, Eq)]
pub struct UploadTally {
    /// Number of staged jobs in the run.
    pub total: usize,
    /// Jobs whose payload the service stored.
    pub uploaded: usize,
    /// Jobs skipped at a cancellation checkpoint.
    pub skipped: usize,
    /// Store calls made so far.
    pub store_calls: usize,
    /// File name and cause of each rejected job, in job order.
    pub failed: Vec<(String, String)>,
}

/// The models of the failure pairs.
pub open spec fn views_of_pairs(pairs: Seq<(String, String)>) -> Seq<(Seq<char>, Seq<char>)> {
    pairs.map_values(|p: (String, String)| (p.0@, p.1@))
}

impl UploadTally {
    /// An empty tally for a run of `total` jobs.
    pub fn new(total: usize) -> (r: UploadTally)
        ensures
            r.total == total,
            r.uploaded == 0,
            r.skipped == 0,
            r.store_calls == 0,
            r.failed@.len() == 0,
    {
        UploadTally { total, uploaded: 0, skipped: 0, store_calls: 0, failed: Vec::new() }
    }

    /// How many jobs this tally has accounted for.
    pub open spec fn processed(&self) -> int {
        self.uploaded + self.skipped + self.failed@.len()
    }
}

/// Books one job's attempt: skipped before dispatch, skipped after the
/// slot, stored, or rejected — exactly as the observation says.
///
/// Appends the attempt's events to `events` and moves the tally by one
/// processed job.
pub fn process_job(job: UploadJob, obs: &JobObservation, tally: &mut UploadTally, events: &mut Vec<
    Event,
>)
    requires
        observation_wf(obs@),
        old(tally).processed() < old(tally).total,
        old(tally).store_calls <= old(tally).processed(),
        job@.index < old(tally).total,
    ensures
        final(tally).total == old(tally).total,
        final(tally).uploaded == old(tally).uploaded + if is_stored(obs@) {
            1int
        } else {
            0int
        },
        final(tally).skipped == old(tally).skipped + if is_skipped(obs@) {
            1int
        } else {
            0int
        },
        final(tally).store_calls == old(tally).store_calls + if !obs@.early && !obs@.late {
            1int
        } else {
            0int
        },
        views_of_pairs(final(tally).failed@) == if is_rejected(obs@) {
            views_of_pairs(old(tally).failed@).push(
                (job@.file_name, match obs@.outcome {
                    Some(StoreOutcomeView::Rejected { cause }) => cause,
                    _ => Seq::empty(),
                }),
            )
        } else {
            views_of_pairs(old(tally).failed@)
        },
        views_of_events(final(events)@) == views_of_events(old(events)@) + events_of_attempt(
            job@,
            obs@,
            old(tally).total as int,
        ),
{
    let ghost pre_pairs = views_of_pairs(tally.failed@);
    let ghost pre_events = views_of_events(events@);
    if obs.cancel_seen_early {
        tally.skipped = tally.skipped + 1;
        proof {
            assert(views_of_events(events@) =~= pre_events + events_of_attempt(
                job@,
                obs@,
                tally.total as int,
            ));
        }
    } else if obs.cancel_seen_late {
        tally.skipped = tally.skipped + 1;
        events.push(Event::Info(InfoNote::Cancelled));
        proof {
            assert(views_of_events(events@) =~= pre_events + events_of_attempt(
                job@,
                obs@,
                tally.total as int,
            ));
        }
    } else {
        tally.store_calls = tally.store_calls + 1;
        match &obs.outcome {
            Some(StoreOutcome::Stored) => {
                tally.uploaded = tally.uploaded + 1;
                events.push(Event::Progress { completed: job.index + 1, total: tally.total });
                proof {
                    assert(views_of_events(events@) =~= pre_events + events_of_attempt(
                        job@,
                        obs@,
                        tally.total as int,
                    ));
                }
            },
            Some(StoreOutcome::Rejected { cause }) => {
                let event_name = job.file_name.clone();
                let event_cause = cause.clone();
                tally.failed.push((job.file_name, cause.clone()));
                events.push(
                    Event::Error(
                        ErrorNote::UploadFailed { file_name: event_name, cause: event_cause },
                    ),
                );
                proof {
                    assert(views_of_pairs(tally.failed@) =~= pre_pairs.push(
                        (job@.file_name, cause@),
                    ));
                    assert(views_of_events(events@) =~= pre_events + events_of_attempt(
                        job@,
                        obs@,
                        tally.total as int,
                    ));
                }
            },
            None => {
                proof {
                    assert(false);
                }
            },
        }
    }
}

/// All jobs stored, rejected or skipped account for the whole run, and
/// every store call ended as exactly one success or one rejection.
pub proof fn lemma_counts_partition(obs: Seq<ObservationView>)
    requires
        forall|i: int| 0 <= i < obs.len() ==> observation_wf(#[trigger] obs[i]),
    ensures
        count_uploaded(obs) + count_failed(obs) + count_skipped(obs) == obs.len(),
        count_store_calls(obs) == count_uploaded(obs) + count_failed(obs),
        count_uploaded(obs) >= 0,
        count_failed(obs) >= 0,
        count_skipped(obs) >= 0,
    decreases obs.len(),
{
    if obs.len() > 0 {
        lemma_counts_partition(obs.drop_last());
        assert(obs.last() == obs[obs.len() - 1]);
    }
}

/// Attempts every staged job in order, against what the outside world
/// observed for it, and returns the tally and the emitted events.
///
/// With no jobs at all, emits the single "no files" note and returns an
/// all-zero tally.
pub fn run_uploads(jobs: Vec<UploadJob>, obs: &Vec<JobObservation>) -> (r: (UploadTally, Vec<
    Event,
>))
    requires
        obs@.len() == jobs@.len(),
        forall|i: int| 0 <= i < obs@.len() ==> observation_wf(#[trigger] obs@[i]@),
        forall|i: int| 0 <= i < jobs@.len() ==> (#[trigger] jobs@[i]@.index) == i,
    ensures
        r.0.total == jobs@.len(),
        r.0.uploaded == count_uploaded(views_of_observations(obs@)),
        r.0.skipped == count_skipped(views_of_observations(obs@)),
        r.0.store_calls == count_store_calls(views_of_observations(obs@)),
        views_of_pairs(r.0.failed@) == failed_pairs(
            views_of_jobs(jobs@),
            views_of_observations(obs@),
        ),
        r.0.failed@.len() == count_failed(views_of_observations(obs@)),
        r.0.uploaded + r.0.skipped + r.0.failed@.len() == r.0.total,
        views_of_events(r.1@) == coordinator_events(
            views_of_jobs(jobs@),
            views_of_observations(obs@),
            jobs@.len() as int,
        ),
{
    let ghost all_jobs: Seq<UploadJob> = jobs@;
    let ghost all_obs: Seq<ObservationView> = views_of_observations(obs@);
    let total = jobs.len();
    let mut tally = UploadTally::new(total);
    let mut events: Vec<Event> = Vec::new();

    if total == 0 {
        events.push(Event::Info(InfoNote::NoFiles));
        proof {
            assert(views_of_events(events@) =~= coordinator_events(
                views_of_jobs(all_jobs),
                all_obs,
                0,
            ));
            assert(views_of_pairs(tally.failed@) =~= failed_pairs(
                views_of_jobs(all_jobs),
                all_obs,
            ));
        }
        return (tally, events);
    }

    let mut remaining = jobs;
    let mut i: usize = 0;
    while i < total
        invariant
            total == all_jobs.len(),
            i <= total,
            remaining@.len() == total - i,
            remaining@ == all_jobs.subrange(i as int, total as int),
            obs@.len() == total,
            all_obs == views_of_observations(obs@),
            forall|k: int| 0 <= k < total ==> observation_wf(#[trigger] all_obs[k]),
            forall|k: int| 0 <= k < total ==> (#[trigger] all_jobs[k]@.index) == k,
            tally.total == total,
            tally.uploaded == count_uploaded(all_obs.subrange(0, i as int)),
            tally.skipped == count_skipped(all_obs.subrange(0, i as int)),
            tally.store_calls == count_store_calls(all_obs.subrange(0, i as int)),
            views_of_pairs(tally.failed@) == failed_pairs(
                views_of_jobs(all_jobs.subrange(0, i as int)),
                all_obs.subrange(0, i as int),
            ),
            tally.failed@.len() == count_failed(all_obs.subrange(0, i as int)),
            tally.processed() == i,
            views_of_events(events@) == upload_events(
                views_of_jobs(all_jobs.subrange(0, i as int)),
                all_obs.subrange(0, i as int),
                total as int,
            ),
        decreases total - i,
    {
        proof {
            lemma_counts_partition(all_obs.subrange(0, i as int));
        }
        let job = remaining.remove(0);
        let ghost prev_jobs = views_of_jobs(all_jobs.subrange(0, i as int));
        let ghost prev_obs = all_obs.subrange(0, i as int);
        assert(job == all_jobs[i as int]);
        assert(obs@[i as int]@ == all_obs[i as int]);
        process_job(job, &obs[i], &mut tally, &mut events);
        proof {
            let now_jobs = views_of_jobs(all_jobs.subrange(0, i + 1));
            let now_obs = all_obs.subrange(0, i + 1);
            assert(now_obs.drop_last() =~= prev_obs);
            assert(now_obs.last() == all_obs[i as int]);
            assert(now_jobs.drop_last() =~= prev_jobs);
            assert(now_jobs.last() == all_jobs[i as int]@);
            assert(all_obs[i as int] == obs@[i as int]@);
            assert(remaining@ =~= all_jobs.subrange(i + 1, total as int));
            assert(views_of_pairs(tally.failed@) =~= failed_pairs(now_jobs, now_obs));
            assert(views_of_events(events@) =~= upload_events(now_jobs, now_obs, total as int));
        }
        i = i + 1;
    }
    proof {
        assert(all_obs.subrange(0, total as int) =~= all_obs);
        assert(all_jobs.subrange(0, total as int) =~= all_jobs);
        lemma_counts_partition(all_obs);
    }
    (tally, events)
}

/// When no cancellation is observed and the service stores every job, the
/// progress events are exactly one per job, carrying the counts 1 through
/// N — as a sequence in job order, hence also as a multiset.
pub proof fn lemma_progress_when_all_stored(
    jobs: Seq<JobView>,
    obs: Seq<ObservationView>,
    total: int,
)
    requires
        jobs.len() == obs.len(),
        forall|i: int| 0 <= i < obs.len() ==> is_stored(#[trigger] obs[i]),
        forall|i: int| 0 <= i < jobs.len() ==> (#[trigger] jobs[i].index) == i,
    ensures
        progress_counts(upload_events(jobs, obs, total)) =~= Seq::new(
            jobs.len(),
            |i: int| i + 1,
        ),
        progress_counts(upload_events(jobs, obs, total)).to_multiset() == Seq::new(
            jobs.len(),
            |i: int| i + 1,
        ).to_multiset(),
    decreases obs.len(),
{
    if obs.len() > 0 {
        lemma_progress_when_all_stored(jobs.drop_last(), obs.drop_last(), total);
        assert(obs.last() == obs[obs.len() - 1]);
        assert(jobs.last() == jobs[jobs.len() - 1]);
        let before = upload_events(jobs.drop_last(), obs.drop_last(), total);
        let here = events_of_attempt(jobs.last(), obs.last(), total);
        lemma_progress_counts_add(before, here);
        assert(here.drop_last() =~= Seq::<EventView>::empty());
        assert(progress_counts(Seq::<EventView>::empty()) =~= Seq::<int>::empty());
        assert(progress_counts(here) =~= seq![jobs.last().index + 1]);
        assert(progress_counts(upload_events(jobs, obs, total)) =~= Seq::new(
            jobs.len(),
            |i: int| i + 1,
        ));
    } else {
        assert(progress_counts(upload_events(jobs, obs, total)) =~= Seq::new(
            jobs.len(),
            |i: int| i + 1,
        ));
    }
}

/// When the service stores every job, nothing fails and nothing is
/// skipped: every job counts as uploaded.
pub proof fn lemma_all_stored_counts(obs: Seq<ObservationView>)
    requires
        forall|i: int| 0 <= i < obs.len() ==> is_stored(#[trigger] obs[i]),
    ensures
        count_uploaded(obs) == obs.len(),
        count_failed(obs) == 0,
        count_skipped(obs) == 0,
    decreases obs.len(),
{
    if obs.len() > 0 {
        lemma_all_stored_counts(obs.drop_last());
        assert(obs.last() == obs[obs.len() - 1]);
    }
}

/// The upload stage can emit only one kind of info note — the cancellation
/// note; any other note occurs zero times among its events.
pub proof fn lemma_upload_events_note_free(
    jobs: Seq<JobView>,
    obs: Seq<ObservationView>,
    total: int,
    note: InfoNoteView,
)
    requires
        !(note matches InfoNoteView::Cancelled),
    ensures
        info_note_count(upload_events(jobs, obs, total), note) == 0,
    decreases obs.len(),
{
    if obs.len() == 0 || jobs.len() != obs.len() {
        lemma_info_note_count_zero(upload_events(jobs, obs, total), note);
    } else {
        lemma_upload_events_note_free(jobs.drop_last(), obs.drop_last(), total, note);
        let here = events_of_attempt(jobs.last(), obs.last(), total);
        lemma_info_note_count_zero(here, note);
        lemma_info_note_count_add(
            upload_events(jobs.drop_last(), obs.drop_last(), total),
            here,
            note,
        );
    }
}

/// When every job observed cancellation at the first checkpoint, no store
/// call is made, nothing is stored or rejected, and the upload stage emits
/// no event at all.
pub proof fn lemma_all_cancelled_early(
    jobs: Seq<JobView>,
    obs: Seq<ObservationView>,
    total: int,
)
    requires
        jobs.len() == obs.len(),
        forall|i: int| 0 <= i < obs.len() ==> (#[trigger] obs[i]).early,
    ensures
        count_store_calls(obs) == 0,
        count_uploaded(obs) == 0,
        count_failed(obs) == 0,
        count_skipped(obs) == obs.len(),
        upload_events(jobs, obs, total) == Seq::<EventView>::empty(),
    decreases obs.len(),
{
    if obs.len() > 0 {
        lemma_all_cancelled_early(jobs.drop_last(), obs.drop_last(), total);
        assert(obs.last() == obs[obs.len() - 1]);
        assert(upload_events(jobs, obs, total) =~= Seq::<EventView>::empty());
    }
}

} // verus!
