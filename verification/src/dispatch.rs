//! The concurrency discipline of the upload stage.
//!
//! Uploads run as many interleaved tasks, gated by a counting semaphore of
//! `limit` slots. This module holds that discipline twice over: an
//! executable slot pool, and a state machine over job-phase counts whose
//! steps are the observable moves of the stage — reading the flag at a
//! checkpoint, acquiring a slot, a store call returning. Laws proved over
//! every sequence of steps bound what any interleaving can do: no more
//! than `limit` slots are ever held, and once cancellation is requested no
//! new store call starts, so at most the calls already in flight can still
//! complete.

use vstd::prelude::*;

verus! {

/// How many jobs of one upload stage sit in each phase.
///
/// A job moves `pending` → (`skipped` | `queued`) at the first checkpoint,
/// `queued` → `holding` when it acquires a slot, `holding` → (`skipped` |
/// `calling`) at the second checkpoint, and `calling` → (`uploaded` |
/// `failed`) when its store call returns. A slot is held from acquisition
/// until the job leaves `holding` or `calling`.
pub struct DispatchState {
    pub limit: int,
    pub cancelled: bool,
    pub pending: int,
    pub queued: int,
    pub holding: int,
    pub calling: int,
    pub uploaded: int,
    pub failed: int,
    pub skipped: int,
}

/// One observable move of the upload stage.
pub enum DispatchStep {
    /// The cancellation flag is set.
    Cancel,
    /// Some pending job reads the flag at the first checkpoint.
    CheckEarly,
    /// Some queued job acquires a free slot.
    Acquire,
    /// Some slot-holding job reads the flag at the second checkpoint.
    CheckLate,
    /// Some in-flight store call returns success.
    FinishStored,
    /// Some in-flight store call returns failure.
    FinishRejected,
}

/// The stage before anything moved: all jobs pending, no slot held.
pub open spec fn init_state(total: int, limit: int) -> DispatchState {
    DispatchState {
        limit: limit,
        cancelled: false,
        pending: total,
        queued: 0,
        holding: 0,
        calling: 0,
        uploaded: 0,
        failed: 0,
        skipped: 0,
    }
}

/// How many slots are held: one per job past acquisition and not yet done.
pub open spec fn slots_held(s: DispatchState) -> int {
    s.holding + s.calling
}

/// Whether a step can happen in state `s`. Acquiring needs a free slot:
/// that is the semaphore.
pub open spec fn step_enabled(s: DispatchState, step: DispatchStep) -> bool {
    match step {
        DispatchStep::Cancel => true,
        DispatchStep::CheckEarly => s.pending > 0,
        DispatchStep::Acquire => s.queued > 0 && slots_held(s) < s.limit,
        DispatchStep::CheckLate => s.holding > 0,
        DispatchStep::FinishStored => s.calling > 0,
        DispatchStep::FinishRejected => s.calling > 0,
    }
}

/// The state after one step; a step that is not enabled changes nothing.
/// Both checkpoints read the real flag: once `cancelled` holds, they can
/// only skip.
pub open spec fn apply_step(s: DispatchState, step: DispatchStep) -> DispatchState {
    if !step_enabled(s, step) {
        s
    } else {
        match step {
            DispatchStep::Cancel => DispatchState { cancelled: true, ..s },
            DispatchStep::CheckEarly => if s.cancelled {
                DispatchState { pending: s.pending - 1, skipped: s.skipped + 1, ..s }
            } else {
                DispatchState { pending: s.pending - 1, queued: s.queued + 1, ..s }
            },
            DispatchStep::Acquire => DispatchState {
                queued: s.queued - 1,
                holding: s.holding + 1,
                ..s
            },
            DispatchStep::CheckLate => if s.cancelled {
                DispatchState { holding: s.holding - 1, skipped: s.skipped + 1, ..s }
            } else {
                DispatchState { holding: s.holding - 1, calling: s.calling + 1, ..s }
            },
            DispatchStep::FinishStored => DispatchState {
                calling: s.calling - 1,
                uploaded: s.uploaded + 1,
                ..s
            },
            DispatchStep::FinishRejected => DispatchState {
                calling: s.calling - 1,
                failed: s.failed + 1,
                ..s
            },
        }
    }
}

/// The state after a whole sequence of steps.
pub open spec fn run_steps(s: DispatchState, steps: Seq<DispatchStep>) -> DispatchState
    decreases steps.len(),
{
    if steps.len() == 0 {
        s
    } else {
        apply_step(run_steps(s, steps.drop_last()), steps.last())
    }
}

/// What holds of every reachable state: no phase count is negative and no
/// more than `limit` slots are held.
pub open spec fn state_inv(s: DispatchState) -> bool {
    &&& s.pending >= 0
    &&& s.queued >= 0
    &&& s.holding >= 0
    &&& s.calling >= 0
    &&& s.uploaded >= 0
    &&& s.failed >= 0
    &&& s.skipped >= 0
    &&& slots_held(s) <= s.limit
}

/// The jobs of a state, over all phases.
pub open spec fn state_total(s: DispatchState) -> int {
    s.pending + s.queued + s.holding + s.calling + s.uploaded + s.failed + s.skipped
}

/// One step preserves the invariant, the job total, the limit, and — once
/// set — the cancellation flag; and after cancellation, the jobs that are
/// uploaded or still calling can only dwindle.
pub proof fn lemma_step_preserves(s: DispatchState, step: DispatchStep)
    requires
        state_inv(s),
    ensures
        state_inv(apply_step(s, step)),
        state_total(apply_step(s, step)) == state_total(s),
        apply_step(s, step).limit == s.limit,
        s.cancelled ==> apply_step(s, step).cancelled,
        s.cancelled ==> apply_step(s, step).uploaded + apply_step(s, step).calling <= s.uploaded
            + s.calling,
{
}

/// Every state reachable from the initial one satisfies the invariant and
/// keeps the job total: in particular, at no instant are more than `limit`
/// slots — and hence concurrent store calls — held.
pub proof fn lemma_reachable_inv(total: int, limit: int, steps: Seq<DispatchStep>)
    requires
        total >= 0,
        limit >= 0,
    ensures
        state_inv(run_steps(init_state(total, limit), steps)),
        state_total(run_steps(init_state(total, limit), steps)) == total,
        run_steps(init_state(total, limit), steps).limit == limit,
        slots_held(run_steps(init_state(total, limit), steps)) <= limit,
    decreases steps.len(),
{
    if steps.len() > 0 {
        lemma_reachable_inv(total, limit, steps.drop_last());
        lemma_step_preserves(run_steps(init_state(total, limit), steps.drop_last()), steps.last());
    }
}

/// From a cancelled state, no run of further steps raises the number of
/// uploaded-or-calling jobs: both checkpoints can only skip, so the only
/// uploads still possible are the store calls already in flight.
pub proof fn lemma_cancelled_caps_uploads(s: DispatchState, steps: Seq<DispatchStep>)
    requires
        state_inv(s),
        s.cancelled,
    ensures
        state_inv(run_steps(s, steps)),
        run_steps(s, steps).cancelled,
        run_steps(s, steps).uploaded + run_steps(s, steps).calling <= s.uploaded + s.calling,
        run_steps(s, steps).uploaded <= s.uploaded + s.calling,
    decreases steps.len(),
{
    if steps.len() > 0 {
        lemma_cancelled_caps_uploads(s, steps.drop_last());
        lemma_step_preserves(run_steps(s, steps.drop_last()), steps.last());
    }
}

/// However a run interleaves, once cancellation is requested at most
/// `limit` further uploads can still complete: only the store calls
/// already past the second checkpoint, and never more of those than slots.
pub proof fn lemma_cancellation_bounds_completions(
    total: int,
    limit: int,
    before: Seq<DispatchStep>,
    after: Seq<DispatchStep>,
)
    requires
        total >= 0,
        limit >= 0,
    ensures
        ({
            let at_cancel = apply_step(
                run_steps(init_state(total, limit), before),
                DispatchStep::Cancel,
            );
            run_steps(at_cancel, after).uploaded <= at_cancel.uploaded + limit
        }),
{
    let reached = run_steps(init_state(total, limit), before);
    lemma_reachable_inv(total, limit, before);
    lemma_step_preserves(reached, DispatchStep::Cancel);
    let at_cancel = apply_step(reached, DispatchStep::Cancel);
    lemma_cancelled_caps_uploads(at_cancel, after);
}

/// The counting semaphore gating dispatch: `held` of `limit` slots taken.
///
/// The fields are private so that every value of the type satisfies the
/// bound the pool exists for: never more slots out than the limit.
#[derive(Debug, Clone, PartialEq, Eq)]
pub struct SlotPool {
    limit: usize,
    held: usize,
}

impl SlotPool {
    /// The pool's size.
    pub closed spec fn spec_limit(&self) -> int {
        self.limit as int
    }

    /// How many slots are out.
    pub closed spec fn spec_held(&self) -> int {
        self.held as int
    }

    /// No more slots are out than exist.
    pub closed spec fn wf(&self) -> bool {
        self.held <= self.limit
    }

    /// A pool of `limit` free slots.
    pub fn new(limit: usize) -> (r: SlotPool)
        ensures
            r.wf(),
            r.spec_limit() == limit,
            r.spec_held() == 0,
    {
        SlotPool { limit, held: 0 }
    }

    /// Takes a slot if one is free; never exceeds the limit.
    pub fn try_acquire(&mut self) -> (got: bool)
        requires
            old(self).wf(),
        ensures
            final(self).wf(),
            final(self).spec_limit() == old(self).spec_limit(),
            got ==> old(self).spec_held() < old(self).spec_limit() && final(self).spec_held()
                == old(self).spec_held() + 1,
            !got ==> *final(self) == *old(self) && old(self).spec_held() == old(
                self,
            ).spec_limit(),
    {
        if self.held < self.limit {
            self.held = self.held + 1;
            true
        } else {
            false
        }
    }

    /// Returns a slot to the pool.
    pub fn release(&mut self)
        requires
            old(self).wf(),
            old(self).spec_held() >= 1,
        ensures
            final(self).wf(),
            final(self).spec_limit() == old(self).spec_limit(),
            final(self).spec_held() == old(self).spec_held() - 1,
    {
        self.held = self.held - 1;
    }

    /// How many slots are currently out.
    pub fn held_count(&self) -> (n: usize)
        ensures
            n == self.spec_held(),
    {
        self.held
    }

    /// How many slots the pool was made with.
    pub fn limit_count(&self) -> (n: usize)
        ensures
            n == self.spec_limit(),
    {
        self.limit
    }
}

} // verus!
