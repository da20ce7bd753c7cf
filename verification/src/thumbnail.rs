//! Thumbnail scheduling: which items should be loading, and how the set of
//! queued jobs is brought in line with it.

use vstd::prelude::*;
use std::collections::HashSet;
use crate::config::{ThumbnailBackground, ThumbnailStrategy};
use crate::file_result::FileResult;

verus! {

/// How many items past the visible window the look-ahead strategy loads.
pub const LOOKAHEAD: usize = 500;

/// First index of the desired set.
pub open spec fn desired_start(strategy: ThumbnailStrategy, visible_start: int) -> int {
    match strategy {
        ThumbnailStrategy::DefaultTopToBottom => 0,
        ThumbnailStrategy::OnlyLoadVisible => visible_start,
        ThumbnailStrategy::LoadVisiblePlus500 => visible_start,
    }
}

/// One past the last index of the desired set: never beyond the list.
pub open spec fn desired_end(
    strategy: ThumbnailStrategy,
    visible_start: int,
    visible_count: int,
    total_items: int,
) -> int {
    match strategy {
        ThumbnailStrategy::DefaultTopToBottom => total_items,
        ThumbnailStrategy::OnlyLoadVisible => if visible_start + visible_count < total_items {
            visible_start + visible_count
        } else {
            total_items
        },
        ThumbnailStrategy::LoadVisiblePlus500 => if visible_start + visible_count + 500
            < total_items {
            visible_start + visible_count + 500
        } else {
            total_items
        },
    }
}

/// The indices that should have a thumbnail loading. It depends on the
/// strategy, the visible window and the length of the list, and on nothing
/// else.
pub open spec fn desired_set(
    strategy: ThumbnailStrategy,
    visible_start: usize,
    visible_count: usize,
    total_items: usize,
) -> Set<usize> {
    Set::new(
        |i: usize|
            desired_start(strategy, visible_start as int) <= i < desired_end(
                strategy,
                visible_start as int,
                visible_count as int,
                total_items as int,
            ),
    )
}

/// The bounds `(first, end)` of the desired set, which is the half-open
/// range between them (empty where `end <= first`).
pub fn desired_range(
    strategy: ThumbnailStrategy,
    visible_start: usize,
    visible_count: usize,
    total_items: usize,
) -> (bounds: (usize, usize))
    ensures
        bounds.0 == desired_start(strategy, visible_start as int),
        bounds.1 == desired_end(
            strategy,
            visible_start as int,
            visible_count as int,
            total_items as int,
        ),
        forall|i: usize|
            (bounds.0 <= i < bounds.1) <==> #[trigger] desired_set(
                strategy,
                visible_start,
                visible_count,
                total_items,
            ).contains(i),
{
    match strategy {
        ThumbnailStrategy::DefaultTopToBottom => (0, total_items),
        ThumbnailStrategy::OnlyLoadVisible => {
            let window_end: usize = visible_start.saturating_add(visible_count);
            let end: usize = if window_end < total_items {
                window_end
            } else {
                total_items
            };
            (visible_start, end)
        },
        ThumbnailStrategy::LoadVisiblePlus500 => {
            let window_end: usize = visible_start.saturating_add(visible_count);
            let ahead_end: usize = window_end.saturating_add(LOOKAHEAD);
            let end: usize = if ahead_end < total_items {
                ahead_end
            } else {
                total_items
            };
            (visible_start, end)
        },
    }
}

/// The queued jobs that a reconciliation cancels: those no longer desired.
pub open spec fn to_cancel(queued: Set<usize>, desired: Set<usize>) -> Set<usize> {
    Set::new(|i: usize| queued.contains(i) && !desired.contains(i))
}

/// The jobs that a reconciliation starts: desired, not yet queued, and
/// inside the list.
pub open spec fn to_enqueue(queued: Set<usize>, desired: Set<usize>, list_len: nat) -> Set<usize> {
    Set::new(|i: usize| desired.contains(i) && !queued.contains(i) && i < list_len)
}

/// The queued set after a reconciliation: what was queued and is still
/// desired, and what was started.
pub open spec fn reconciled(queued: Set<usize>, desired: Set<usize>, list_len: nat) -> Set<usize> {
    Set::new(|i: usize| desired.contains(i) && (queued.contains(i) || i < list_len))
}

/// Reconciling a second time against the same desired set cancels nothing
/// and starts nothing.
pub proof fn lemma_reconcile_idempotent(queued: Set<usize>, desired: Set<usize>, list_len: nat)
    ensures
        to_cancel(reconciled(queued, desired, list_len), desired) == Set::<usize>::empty(),
        to_enqueue(reconciled(queued, desired, list_len), desired, list_len)
            == Set::<usize>::empty(),
        reconciled(reconciled(queued, desired, list_len), desired, list_len) == reconciled(
            queued,
            desired,
            list_len,
        ),
{
    let once = reconciled(queued, desired, list_len);
    assert(to_cancel(once, desired) =~= Set::<usize>::empty());
    assert(to_enqueue(once, desired, list_len) =~= Set::<usize>::empty());
    assert(reconciled(once, desired, list_len) =~= once);
}

/// Where the desired set was computed for a list no longer than the one at
/// hand, the queued set after a reconciliation is the desired set.
pub proof fn lemma_reconciled_is_desired(
    queued: Set<usize>,
    strategy: ThumbnailStrategy,
    visible_start: usize,
    visible_count: usize,
    total_items: usize,
    list_len: nat,
)
    requires
        total_items <= list_len,
    ensures
        reconciled(
            queued,
            desired_set(strategy, visible_start, visible_count, total_items),
            list_len,
        ) == desired_set(strategy, visible_start, visible_count, total_items),
{
    let desired = desired_set(strategy, visible_start, visible_count, total_items);
    assert(reconciled(queued, desired, list_len) =~= desired);
}

/// A reconciliation cancels and starts disjoint sets of jobs, and leaves
/// every job that is both queued and desired as it is.
pub proof fn lemma_reconcile_no_churn(queued: Set<usize>, desired: Set<usize>, list_len: nat)
    ensures
        to_cancel(queued, desired).disjoint(to_enqueue(queued, desired, list_len)),
        forall|i: usize|
            queued.contains(i) && desired.contains(i) ==> !to_cancel(queued, desired).contains(i)
                && !to_enqueue(queued, desired, list_len).contains(i) && #[trigger] reconciled(
                queued,
                desired,
                list_len,
            ).contains(i),
{
}

/// Under the visible-only strategy, scrolling from one window to another
/// that does not overlap it cancels exactly the jobs of the old window and
/// starts exactly those of the new one.
pub proof fn lemma_scroll_replaces_window(
    old_start: usize,
    new_start: usize,
    visible_count: usize,
    total_items: usize,
)
    requires
        old_start + visible_count <= new_start || new_start + visible_count <= old_start,
        old_start + visible_count <= total_items,
        new_start + visible_count <= total_items,
    ensures
        ({
            let strategy = ThumbnailStrategy::OnlyLoadVisible;
            let queued = desired_set(strategy, old_start, visible_count, total_items);
            let desired = desired_set(strategy, new_start, visible_count, total_items);
            &&& to_cancel(queued, desired) == queued
            &&& to_enqueue(queued, desired, total_items as nat) == desired
            &&& reconciled(queued, desired, total_items as nat) == desired
        }),
{
    let strategy = ThumbnailStrategy::OnlyLoadVisible;
    let queued = desired_set(strategy, old_start, visible_count, total_items);
    let desired = desired_set(strategy, new_start, visible_count, total_items);
    assert(to_cancel(queued, desired) =~= queued);
    assert(to_enqueue(queued, desired, total_items as nat) =~= desired);
    assert(reconciled(queued, desired, total_items as nat) =~= desired);
}

/// A thumbnail to render: the item, its file, the edge length in pixels and
/// the background to render it on.
#[derive(Debug, Clone)]
pub struct ThumbnailRequest {
    pub item_index: usize,
    pub file_path: String,
    pub size: u32,
    pub background: ThumbnailBackground,
}

/// What a reconciliation asks of the worker pool.
pub struct ReconcilePlan {
    /// Jobs whose cancellation flag is to be set.
    pub cancelled: Vec<usize>,
    /// Jobs to start, each with a fresh cancellation flag, by rising index.
    pub requests: Vec<ThumbnailRequest>,
}

/// The set of items that have a thumbnail job outstanding.
pub struct ThumbnailTaskManager {
    pub queued_set: HashSet<usize>,
}

impl ThumbnailTaskManager {
    /// The indices with an outstanding job.
    pub open spec fn queued(&self) -> Set<usize> {
        self.queued_set@
    }

    /// A manager with no job outstanding.
    pub fn new() -> (manager: Self)
        ensures
            manager.queued() == Set::<usize>::empty(),
    {
        ThumbnailTaskManager { queued_set: HashSet::new() }
    }

    /// Whether a job is outstanding for the item.
    pub fn is_task_queued(&self, index: usize) -> (queued: bool)
        ensures
            queued == self.queued().contains(index),
    {
        broadcast use vstd::std_specs::hash::group_hash_axioms;

        self.queued_set.contains(&index)
    }

    /// How many jobs are outstanding.
    pub fn get_queued_count(&self) -> (count: usize)
        ensures
            count == self.queued().len(),
    {
        broadcast use vstd::std_specs::hash::group_hash_axioms;

        self.queued_set.len()
    }

    /// Forgets the job of one item. Returns whether there was one, in which
    /// case its cancellation flag is to be set.
    pub fn cancel_task(&mut self, index: usize) -> (was_queued: bool)
        ensures
            was_queued == old(self).queued().contains(index),
            final(self).queued() == old(self).queued().remove(index),
    {
        broadcast use vstd::std_specs::hash::group_hash_axioms;

        self.queued_set.remove(&index)
    }

    /// Forgets the job of one item once it has ended, however it ended.
    pub fn cleanup_task(&mut self, index: usize)
        ensures
            final(self).queued() == old(self).queued().remove(index),
    {
        broadcast use vstd::std_specs::hash::group_hash_axioms;

        self.queued_set.remove(&index);
    }

    /// Registers a job for the item of the request, unless one is
    /// outstanding already. Returns the request where it is to be started.
    pub fn request_thumbnail(&mut self, request: ThumbnailRequest) -> (start: Option<
        ThumbnailRequest,
    >)
        ensures
            final(self).queued() == old(self).queued().insert(request.item_index),
            old(self).queued().contains(request.item_index) <==> start is None,
            start is Some ==> start->0 == request,
    {
        broadcast use vstd::std_specs::hash::group_hash_axioms;

        if self.queued_set.contains(&request.item_index) {
            assert(self.queued() =~= old(self).queued().insert(request.item_index));
            None
        } else {
            self.queued_set.insert(request.item_index);
            Some(request)
        }
    }

    /// Forgets every outstanding job. Returns the items whose cancellation
    /// flag is to be set: each queued item once, in no particular order.
    pub fn cancel_all_tasks(&mut self) -> (cancelled: Vec<usize>)
        ensures
            final(self).queued() == Set::<usize>::empty(),
            cancelled@.no_duplicates(),
            forall|i: usize| cancelled@.contains(i) <==> old(self).queued().contains(i),
    {
        broadcast use vstd::std_specs::hash::group_hash_axioms;

        let mut cancelled: Vec<usize> = Vec::new();
        for x in it: self.queued_set.iter()
            invariant
                self.queued() == old(self).queued(),
                it.seq().no_duplicates(),
                it.seq().unref().to_set() == self.queued(),
                cancelled@.len() == it.index(),
                forall|j: int| 0 <= j < cancelled@.len() ==> cancelled@[j] == *it.seq()[j],
                forall|j: int|
                    0 <= j < cancelled@.len() ==> self.queued().contains(#[trigger] cancelled@[j]),
                cancelled@.no_duplicates(),
                it.index() == it.seq().len() ==> forall|i: usize|
                    self.queued().contains(i) ==> cancelled@.contains(i),
        {
            let ghost n = it.index();
            cancelled.push(*x);
            proof {
                assert(it.seq().unref()[n] == *x);
                assert(it.seq().unref().to_set().contains(*x));
                assert forall|a: int, b: int|
                    0 <= a < cancelled@.len() && 0 <= b < cancelled@.len() && a != b implies cancelled@[a]
                    != cancelled@[b] by {
                    assert(it.seq()[a] != it.seq()[b]);
                }
                assert forall|i: usize|
                    n + 1 == it.seq().len() && self.queued().contains(i) implies cancelled@.contains(
                    i,
                ) by {
                    assert(it.seq().unref().to_set().contains(i));
                    let k = choose|k: int|
                        0 <= k < it.seq().unref().len() && it.seq().unref()[k] == i;
                    assert(cancelled@[k] == i);
                }
            }
        }
        proof {
            assert forall|i: usize| cancelled@.contains(i) implies old(self).queued().contains(
                i,
            ) by {
                let j = choose|j: int| 0 <= j < cancelled@.len() && cancelled@[j] == i;
            }
        }
        self.queued_set.clear();
        cancelled
    }

    /// Brings the queued set in line with the desired set of the strategy
    /// and the visible window. Queued jobs that are no longer desired are
    /// cancelled; desired items inside the list that have no job get one;
    /// jobs that are both queued and desired are left alone.
    pub fn recompute_thumbnail_queue(
        &mut self,
        strategy: ThumbnailStrategy,
        background: ThumbnailBackground,
        visible_start: usize,
        visible_count: usize,
        total_items: usize,
        list_data: &Vec<FileResult>,
        selected_view_size: u32,
    ) -> (plan: ReconcilePlan)
        ensures
            final(self).queued() == reconciled(
                old(self).queued(),
                desired_set(strategy, visible_start, visible_count, total_items),
                list_data@.len(),
            ),
            plan.cancelled@.no_duplicates(),
            forall|i: usize|
                plan.cancelled@.contains(i) <==> to_cancel(
                    old(self).queued(),
                    desired_set(strategy, visible_start, visible_count, total_items),
                ).contains(i),
            forall|i: usize|
                (exists|j: int|
                    0 <= j < plan.requests@.len() && (#[trigger] plan.requests@[j]).item_index == i)
                    <==> to_enqueue(
                    old(self).queued(),
                    desired_set(strategy, visible_start, visible_count, total_items),
                    list_data@.len(),
                ).contains(i),
            forall|a: int, b: int|
                0 <= a < b < plan.requests@.len() ==> (#[trigger] plan.requests@[a]).item_index < (
                #[trigger] plan.requests@[b]).item_index,
            forall|j: int|
                0 <= j < plan.requests@.len() ==> {
                    let request = #[trigger] plan.requests@[j];
                    &&& request.item_index < list_data@.len()
                    &&& request.file_path@ == list_data@[request.item_index as int].path@
                    &&& request.size == selected_view_size
                    &&& request.background == background
                },
    {
        broadcast use vstd::std_specs::hash::group_hash_axioms;

        let ghost desired = desired_set(strategy, visible_start, visible_count, total_items);
        let ghost before = self.queued();
        let (lo, hi) = desired_range(strategy, visible_start, visible_count, total_items);
        let mut kept: HashSet<usize> = HashSet::new();
        let mut cancelled: Vec<usize> = Vec::new();
        for x in it: self.queued_set.iter()
            invariant
                self.queued() == before,
                forall|i: usize| (lo <= i < hi) <==> #[trigger] desired.contains(i),
                it.seq().no_duplicates(),
                it.seq().unref().to_set() == before,
                cancelled@.no_duplicates(),
                forall|j: int|
                    0 <= j < cancelled@.len() ==> before.contains(#[trigger] cancelled@[j])
                        && !desired.contains(cancelled@[j]) && exists|k: int|
                        0 <= k < it.index() && *it.seq()[k] == cancelled@[j],
                forall|i: usize| kept@.contains(i) ==> before.contains(i) && desired.contains(i),
                forall|k: int|
                    0 <= k < it.index() ==> if desired.contains(*(#[trigger] it.seq()[k])) {
                        kept@.contains(*it.seq()[k])
                    } else {
                        cancelled@.contains(*it.seq()[k])
                    },
                it.index() == it.seq().len() ==> forall|i: usize|
                    before.contains(i) ==> if desired.contains(i) {
                        kept@.contains(i)
                    } else {
                        cancelled@.contains(i)
                    },
        {
            let ghost n = it.index();
            let ghost prev = cancelled@;
            proof {
                assert(it.seq().unref()[n] == *x);
                assert(it.seq().unref().to_set().contains(*x));
            }
            if lo <= *x && *x < hi {
                kept.insert(*x);
            } else {
                proof {
                    if prev.contains(*x) {
                        let j = choose|j: int| 0 <= j < prev.len() && prev[j] == *x;
                        let k = choose|k: int| 0 <= k < n && *it.seq()[k] == prev[j];
                        assert(it.seq()[k] == it.seq()[n]);
                    }
                }
                cancelled.push(*x);
                proof {
                    assert(cancelled@[prev.len() as int] == *x);
                    assert forall|k: int|
                        0 <= k < n + 1 && !desired.contains(
                            *(#[trigger] it.seq()[k]),
                        ) implies cancelled@.contains(*it.seq()[k]) by {
                        if k < n {
                            let j = choose|j: int|
                                0 <= j < prev.len() && prev[j] == *it.seq()[k];
                            assert(cancelled@[j] == *it.seq()[k]);
                        }
                    }
                }
            }
            proof {
                assert forall|i: usize|
                    n + 1 == it.seq().len() && before.contains(i) implies if desired.contains(i) {
                    kept@.contains(i)
                } else {
                    cancelled@.contains(i)
                } by {
                    assert(it.seq().unref().to_set().contains(i));
                    let k = choose|k: int|
                        0 <= k < it.seq().unref().len() && it.seq().unref()[k] == i;
                    assert(*it.seq()[k] == i);
                }
            }
        }
        let stop: usize = if hi < list_data.len() {
            hi
        } else {
            list_data.len()
        };
        let mut requests: Vec<ThumbnailRequest> = Vec::new();
        let mut i: usize = lo;
        while i < stop
            invariant
                lo <= i,
                i <= stop || i == lo,
                stop <= hi,
                stop <= list_data@.len(),
                stop == hi || stop == list_data@.len(),
                self.queued() == before,
                forall|k: usize| (lo <= k < hi) <==> #[trigger] desired.contains(k),
                forall|k: usize|
                    kept@.contains(k) <==> desired.contains(k) && (before.contains(k) || k < i),
                forall|k: usize|
                    lo <= k < i && !before.contains(k) ==> exists|j: int|
                        0 <= j < requests@.len() && (#[trigger] requests@[j]).item_index == k,
                forall|a: int, b: int|
                    0 <= a < b < requests@.len() ==> (#[trigger] requests@[a]).item_index < (
                    #[trigger] requests@[b]).item_index,
                forall|j: int|
                    0 <= j < requests@.len() ==> {
                        let request = #[trigger] requests@[j];
                        &&& lo <= request.item_index < i
                        &&& !before.contains(request.item_index)
                        &&& request.file_path@ == list_data@[request.item_index as int].path@
                        &&& request.size == selected_view_size
                        &&& request.background == background
                    },
            decreases stop - i,
        {
            if !self.queued_set.contains(&i) {
                kept.insert(i);
                let ghost prev = requests@;
                requests.push(
                    ThumbnailRequest {
                        item_index: i,
                        file_path: list_data[i].path.clone(),
                        size: selected_view_size,
                        background,
                    },
                );
                proof {
                    assert(requests@[prev.len() as int].item_index == i);
                    assert forall|k: usize| lo <= k < i + 1 && !before.contains(k) implies exists|
                        j: int,
                    |
                        0 <= j < requests@.len() && (#[trigger] requests@[j]).item_index == k by {
                        if k < i {
                            let j = choose|j: int|
                                0 <= j < prev.len() && (#[trigger] prev[j]).item_index == k;
                            assert(requests@[j].item_index == k);
                        }
                    }
                }
            }
            i = i + 1;
        }
        self.queued_set = kept;
        proof {
            let after = self.queued();
            let n = list_data@.len();
            assert forall|k: usize| after.contains(k) <==> reconciled(before, desired, n).contains(
                k,
            ) by {}
            assert(after =~= reconciled(before, desired, n));
            assert forall|k: usize|
                (exists|j: int|
                    0 <= j < requests@.len() && (#[trigger] requests@[j]).item_index == k)
                    <==> to_enqueue(before, desired, n).contains(k) by {
                if to_enqueue(before, desired, n).contains(k) {
                    assert(lo <= k < i);
                }
            }
        }
        ReconcilePlan { cancelled, requests }
    }
}

/// Where one thumbnail job stands.
#[derive(Debug, Clone, Copy, PartialEq, Eq, Structural)]
pub enum JobState {
    NotQueued,
    Queued,
    Running,
    Delivered,
    Cancelled,
    ProviderFailed,
}

/// What happens to a job.
#[derive(Debug, Clone, Copy, PartialEq, Eq, Structural)]
pub enum JobEvent {
    /// The job was registered with the manager.
    Enqueued,
    /// A worker picked the job up and read its cancellation flag.
    PickedUp { cancelled: bool },
    /// The provider returned; the worker read the cancellation flag again.
    Rendered { produced: bool, cancelled: bool },
    /// The worker is done with the job.
    Finished,
}

/// What the worker does next.
#[derive(Debug, Clone, Copy, PartialEq, Eq, Structural)]
pub enum JobAction {
    /// Wait to be picked up.
    Wait,
    /// Call the provider.
    Render,
    /// Hand the bitmap to the interface thread.
    Deliver,
    /// Release the bitmap without delivering it.
    Discard,
    /// Remove the job from the queued set.
    CleanUp,
    /// The job is gone.
    Done,
}

/// Whether a job in this state has ended and only waits for its clean-up.
pub open spec fn is_terminal(state: JobState) -> bool {
    state == JobState::Delivered || state == JobState::Cancelled || state
        == JobState::ProviderFailed
}

/// The transition relation of a job. A cancelled job never reaches the
/// provider; a bitmap rendered for a job cancelled meanwhile is discarded; a
/// provider failure delivers nothing; every ending is followed by the same
/// clean-up. `None` where the event cannot happen in the state.
pub open spec fn job_transition(state: JobState, event: JobEvent) -> Option<(JobState, JobAction)> {
    match (state, event) {
        (JobState::NotQueued, JobEvent::Enqueued) => Some((JobState::Queued, JobAction::Wait)),
        (JobState::Queued, JobEvent::PickedUp { cancelled }) => if cancelled {
            Some((JobState::Cancelled, JobAction::CleanUp))
        } else {
            Some((JobState::Running, JobAction::Render))
        },
        (JobState::Running, JobEvent::Rendered { produced, cancelled }) => if !produced {
            Some((JobState::ProviderFailed, JobAction::CleanUp))
        } else if cancelled {
            Some((JobState::Cancelled, JobAction::Discard))
        } else {
            Some((JobState::Delivered, JobAction::Deliver))
        },
        (JobState::Delivered, JobEvent::Finished) => Some((JobState::NotQueued, JobAction::Done)),
        (JobState::Cancelled, JobEvent::Finished) => Some((JobState::NotQueued, JobAction::Done)),
        (JobState::ProviderFailed, JobEvent::Finished) => Some(
            (JobState::NotQueued, JobAction::Done),
        ),
        _ => None,
    }
}

/// Advances a job by one event.
pub fn job_step(state: JobState, event: JobEvent) -> (next: Option<(JobState, JobAction)>)
    ensures
        next == job_transition(state, event),
{
    match state {
        JobState::NotQueued => match event {
            JobEvent::Enqueued => Some((JobState::Queued, JobAction::Wait)),
            _ => None,
        },
        JobState::Queued => match event {
            JobEvent::PickedUp { cancelled } => {
                if cancelled {
                    Some((JobState::Cancelled, JobAction::CleanUp))
                } else {
                    Some((JobState::Running, JobAction::Render))
                }
            },
            _ => None,
        },
        JobState::Running => match event {
            JobEvent::Rendered { produced, cancelled } => {
                if !produced {
                    Some((JobState::ProviderFailed, JobAction::CleanUp))
                } else if cancelled {
                    Some((JobState::Cancelled, JobAction::Discard))
                } else {
                    Some((JobState::Delivered, JobAction::Deliver))
                }
            },
            _ => None,
        },
        JobState::Delivered | JobState::Cancelled | JobState::ProviderFailed => match event {
            JobEvent::Finished => Some((JobState::NotQueued, JobAction::Done)),
            _ => None,
        },
    }
}

/// The provider is called only for a job that was not cancelled when it was
/// picked up, and a bitmap is delivered only where the provider produced one
/// and the job was not cancelled meanwhile.
pub proof fn lemma_cancelled_job_does_no_work(state: JobState, event: JobEvent)
    ensures
        job_transition(state, event) matches Some((_, action)) && action == JobAction::Render
            ==> event == (JobEvent::PickedUp { cancelled: false }),
        job_transition(state, event) matches Some((_, action)) && action == JobAction::Deliver
            ==> event == (JobEvent::Rendered { produced: true, cancelled: false }),
{
}

/// Every ending of a job, delivery, cancellation or failure alike, is
/// followed by the one clean-up step that returns it to `NotQueued`.
pub proof fn lemma_every_ending_cleans_up(state: JobState)
    requires
        is_terminal(state),
    ensures
        job_transition(state, JobEvent::Finished) == Some((JobState::NotQueued, JobAction::Done)),
        forall|event: JobEvent|
            event != JobEvent::Finished ==> job_transition(state, event) is None,
{
}

} // verus!
