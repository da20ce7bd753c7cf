//! Search dispatch: every submitted query gets a fresh generation, and only
//! a result that carries the current generation is accepted.

use vstd::prelude::*;
use crate::file_result::{type_label, FileResult};
use crate::text::{trimmed, trimmed_of};

verus! {

/// Pause of the search worker before it queries, in milliseconds.
pub const WORKER_DEBOUNCE_MS: u64 = 150;

/// Quiet time after a keystroke before a search is submitted, in
/// milliseconds.
pub const KEYSTROKE_DEBOUNCE_MS: u64 = 500;

/// The most results that are shown.
pub const MAX_RESULTS: usize = 50_000;

/// One query on its way to the provider. Its cancellation flag is created
/// by whoever dispatches it.
#[derive(Debug, Clone)]
pub struct SearchRequest {
    pub query: String,
    pub generation: u64,
}

/// Owner of the generation counter and of the pending query.
pub struct SearchCoordinator {
    /// Generation of the search submitted last; zero before the first.
    pub generation: u64,
    /// The query submitted or typed last.
    pub pending_query: String,
    /// Whether the keystroke timer is running.
    pub timer_active: bool,
    /// Whether the channel to the search worker was found closed.
    pub search_disabled: bool,
}

/// What the keystroke timer is to do after the text changed.
#[derive(Debug, Clone, Copy, PartialEq, Eq, Structural)]
pub struct TimerPlan {
    /// Stop the running timer.
    pub kill: bool,
    /// Start a timer with this delay in milliseconds.
    pub start_ms: u64,
}

/// What a submission asks for: the flag of the previous request is set, and
/// the new request is dispatched with a fresh flag.
pub struct SearchDispatch {
    pub cancel_previous: bool,
    /// Stop the keystroke timer first.
    pub kill_timer: bool,
    pub request: SearchRequest,
}

/// The generation after `submissions` more searches.
pub open spec fn generation_after(generation: nat, submissions: nat) -> nat {
    generation + submissions
}

impl SearchCoordinator {
    /// Whether a result of the given generation is the current one.
    pub open spec fn accepts_spec(&self, generation: u64) -> bool {
        generation == self.generation
    }

    /// Whether a search can be submitted: the worker can be reached, and
    /// the counter is not exhausted, as no generation is used twice.
    pub open spec fn ready(&self) -> bool {
        self.generation < u64::MAX && !self.search_disabled
    }

    /// A coordinator that has dispatched nothing yet.
    pub fn new() -> (coordinator: Self)
        ensures
            coordinator.generation == 0,
            coordinator.pending_query@ == Seq::<char>::empty(),
            !coordinator.timer_active,
            !coordinator.search_disabled,
            coordinator.ready(),
    {
        SearchCoordinator {
            generation: 0,
            pending_query: String::new(),
            timer_active: false,
            search_disabled: false,
        }
    }

    /// Notes that a request could not be handed to the search worker: the
    /// worker is gone, and searching is disabled from now on.
    pub fn channel_closed(&mut self)
        ensures
            final(self).search_disabled,
            !final(self).ready(),
            final(self).generation == old(self).generation,
            final(self).pending_query == old(self).pending_query,
            final(self).timer_active == old(self).timer_active,
    {
        self.search_disabled = true;
    }

    /// The generation of the search submitted last.
    pub fn current_generation(&self) -> (generation: u64)
        ensures
            generation == self.generation,
    {
        self.generation
    }

    /// Whether another search can be submitted.
    pub fn can_submit(&self) -> (ok: bool)
        ensures
            ok == self.ready(),
    {
        self.generation < u64::MAX && !self.search_disabled
    }

    /// Notes a change of the search text. The query becomes the pending one,
    /// a running timer is stopped and a new one is asked for.
    pub fn text_changed(&mut self, text: &str) -> (plan: TimerPlan)
        ensures
            final(self).pending_query@ == text@,
            final(self).generation == old(self).generation,
            final(self).search_disabled == old(self).search_disabled,
            !final(self).timer_active,
            plan.kill == old(self).timer_active,
            plan.start_ms == KEYSTROKE_DEBOUNCE_MS,
    {
        let kill = self.timer_active;
        self.pending_query = text.to_owned();
        self.timer_active = false;
        TimerPlan { kill, start_ms: KEYSTROKE_DEBOUNCE_MS }
    }

    /// Notes whether the timer asked for could be started. Where it could
    /// not, the pending query is submitted at once.
    pub fn timer_started(&mut self, started: bool) -> (dispatch: Option<SearchDispatch>)
        requires
            !started ==> old(self).ready(),
        ensures
            final(self).pending_query@ == old(self).pending_query@,
            final(self).search_disabled == old(self).search_disabled,
            final(self).timer_active == started,
            started ==> dispatch is None,
            started ==> final(self).generation == old(self).generation,
            !started ==> dispatch is Some,
            !started ==> final(self).generation == old(self).generation + 1,
            !started ==> dispatch->0.request.generation == final(self).generation,
            !started ==> dispatch->0.request.query@ == old(self).pending_query@,
            !started ==> dispatch->0.cancel_previous && !dispatch->0.kill_timer,
    {
        if started {
            self.timer_active = true;
            None
        } else {
            self.timer_active = false;
            let query = self.pending_query.clone();
            Some(self.start_async_search(query))
        }
    }

    /// Submits the text as it stands when the timer fires, or when the user
    /// asks for a search at once: a running timer is stopped either way.
    pub fn search_now(&mut self, text: String) -> (dispatch: SearchDispatch)
        requires
            old(self).ready(),
        ensures
            final(self).generation == old(self).generation + 1,
            final(self).pending_query@ == text@,
            final(self).search_disabled == old(self).search_disabled,
            !final(self).timer_active,
            dispatch.request.generation == final(self).generation,
            dispatch.request.query@ == text@,
            dispatch.cancel_previous,
            dispatch.kill_timer == old(self).timer_active,
    {
        let kill = self.timer_active;
        self.timer_active = false;
        let mut dispatch = self.start_async_search(text);
        dispatch.kill_timer = kill;
        dispatch
    }

    /// Submits a query. The request before it is cancelled, the generation
    /// advances by one, and the new request carries the new generation.
    pub fn start_async_search(&mut self, query: String) -> (dispatch: SearchDispatch)
        requires
            old(self).ready(),
        ensures
            final(self).generation == old(self).generation + 1,
            final(self).pending_query@ == query@,
            final(self).search_disabled == old(self).search_disabled,
            final(self).timer_active == old(self).timer_active,
            dispatch.request.generation == final(self).generation,
            dispatch.request.query@ == query@,
            dispatch.cancel_previous,
            !dispatch.kill_timer,
    {
        self.generation = self.generation + 1;
        self.pending_query = query.clone();
        SearchDispatch {
            cancel_previous: true,
            kill_timer: false,
            request: SearchRequest { query, generation: self.generation },
        }
    }

    /// Whether a result that carries `generation` is applied: only if no
    /// search was submitted after the one it answers.
    pub fn accepts(&self, generation: u64) -> (current: bool)
        ensures
            current == self.accepts_spec(generation),
    {
        generation == self.generation
    }
}

/// Of the requests of any run of submissions, only the last one carries the
/// generation that is current afterwards: the request of submission number
/// `issued` (counted from one) is accepted after `submissions` of them if
/// and only if it is the last.
pub proof fn lemma_only_latest_generation_current(start: nat, submissions: nat, issued: nat)
    requires
        1 <= issued <= submissions,
    ensures
        generation_after(start, issued) == generation_after(start, submissions) <==> issued
            == submissions,
        issued < submissions ==> generation_after(start, issued) < generation_after(
            start,
            submissions,
        ),
{
}

/// A result whose generation lies before the current one is not accepted.
pub proof fn lemma_stale_generation_rejected(coordinator: SearchCoordinator, generation: u64)
    requires
        generation < coordinator.generation,
    ensures
        !coordinator.accepts_spec(generation),
{
}

/// How far the search worker has come with a request.
#[derive(Debug, Clone, Copy, PartialEq, Eq, Structural)]
pub enum WorkerStage {
    /// Taken from the channel.
    Received,
    /// The debounce pause is over.
    Debounced,
    /// The provider has answered.
    Queried,
}

/// What the search worker does next with a request.
#[derive(Debug, Clone, Copy, PartialEq, Eq, Structural)]
pub enum WorkerAction {
    /// Drop the request and deliver nothing.
    Abandon,
    /// Sleep for so many milliseconds.
    Sleep { ms: u64 },
    /// Call the provider.
    Query,
    /// Hand the result and its generation to the interface thread.
    Deliver,
}

/// The step of the worker at each of its three check points: a cancelled
/// request is abandoned, any other goes on to the pause, the query and the
/// delivery in turn.
pub open spec fn worker_action(stage: WorkerStage, cancelled: bool) -> WorkerAction {
    if cancelled {
        WorkerAction::Abandon
    } else {
        match stage {
            WorkerStage::Received => WorkerAction::Sleep { ms: WORKER_DEBOUNCE_MS },
            WorkerStage::Debounced => WorkerAction::Query,
            WorkerStage::Queried => WorkerAction::Deliver,
        }
    }
}

/// Decides the next step of the worker from the stage of the request and
/// the cancellation flag as just read.
pub fn worker_step(stage: WorkerStage, cancelled: bool) -> (action: WorkerAction)
    ensures
        action == worker_action(stage, cancelled),
{
    if cancelled {
        WorkerAction::Abandon
    } else {
        match stage {
            WorkerStage::Received => WorkerAction::Sleep { ms: WORKER_DEBOUNCE_MS },
            WorkerStage::Debounced => WorkerAction::Query,
            WorkerStage::Queried => WorkerAction::Deliver,
        }
    }
}

/// The query that stands for the default view.
pub open spec fn default_query() -> Seq<char> {
    "*.png"@
}

/// The query sent for a text whose trimmed form is given: the default query
/// where nothing is left of it, else the text as typed.
pub open spec fn query_for(query: Seq<char>, trimmed: Seq<char>) -> Seq<char> {
    if trimmed.len() == 0 {
        default_query()
    } else {
        query
    }
}

/// Chooses the query to send, given the text and what trimming left of it.
pub fn choose_query(query: &str, trimmed: &str) -> (sent: String)
    ensures
        sent@ == query_for(query@, trimmed@),
{
    if trimmed.is_empty() {
        "*.png".to_owned()
    } else {
        query.to_owned()
    }
}

/// The query the provider is asked for: a blank text stands for the default
/// view.
pub fn effective_query(query: &str) -> (sent: String)
    ensures
        sent@ == query_for(query@, trimmed_of(query@)),
{
    let rest = trimmed(query);
    choose_query(query, rest)
}

/// What the worker delivers.
pub struct SearchResults {
    pub entries: Vec<FileResult>,
    pub generation: u64,
}

/// Packages the answer of the provider for delivery. A failed query becomes
/// an empty result of the same generation; each path found becomes an entry
/// with unloaded metadata, in the order of the answer.
pub fn package_results(outcome: Option<Vec<String>>, generation: u64) -> (results: SearchResults)
    ensures
        results.generation == generation,
        outcome is None ==> results.entries@.len() == 0,
        outcome is Some ==> results.entries@.len() == outcome->0@.len(),
        outcome is Some ==> forall|i: int|
            0 <= i < results.entries@.len() ==> {
                let entry = #[trigger] results.entries@[i];
                &&& entry.path@ == outcome->0@[i]@
                &&& entry.file_type@ == type_label(entry.extension@)
                &&& entry.size == 0
                &&& entry.modified_time == 0
            },
{
    let mut entries: Vec<FileResult> = Vec::new();
    match outcome {
        None => {},
        Some(paths) => {
            let mut i: usize = 0;
            while i < paths.len()
                invariant
                    i <= paths@.len(),
                    entries@.len() == i,
                    forall|k: int|
                        0 <= k < i ==> {
                            let entry = #[trigger] entries@[k];
                            &&& entry.path@ == paths@[k]@
                            &&& entry.file_type@ == type_label(entry.extension@)
                            &&& entry.size == 0
                            &&& entry.modified_time == 0
                        },
                decreases paths@.len() - i,
            {
                entries.push(FileResult::from_path(paths[i].as_str()));
                i = i + 1;
            }
        },
    }
    SearchResults { entries, generation }
}

/// What can go wrong in the pipeline.
#[derive(Debug, Clone, Copy, PartialEq, Eq, Structural)]
pub enum PipelineError {
    /// The search provider could not be started.
    ProviderUnavailable,
    /// A query returned an error.
    QueryFailed,
    /// No thumbnail could be rendered for a file.
    RenderFailed,
    /// A background thread is gone.
    ChannelClosed,
}

/// How the pipeline goes on after an error.
#[derive(Debug, Clone, Copy, PartialEq, Eq, Structural)]
pub enum Recovery {
    /// Search the built-in sample data instead.
    UseSampleData,
    /// Deliver an empty result of the same generation.
    DeliverEmptyResult,
    /// Leave the placeholder of the item; do not try again.
    KeepPlaceholder,
    /// Disable searching and show that it is disabled.
    DisableSearch,
}

/// The recovery from each error. None of them ends the process; only a
/// closed channel is shown to the user.
pub open spec fn recovery_of(error: PipelineError) -> Recovery {
    match error {
        PipelineError::ProviderUnavailable => Recovery::UseSampleData,
        PipelineError::QueryFailed => Recovery::DeliverEmptyResult,
        PipelineError::RenderFailed => Recovery::KeepPlaceholder,
        PipelineError::ChannelClosed => Recovery::DisableSearch,
    }
}

/// Chooses the recovery from an error.
pub fn recovery_for(error: PipelineError) -> (recovery: Recovery)
    ensures
        recovery == recovery_of(error),
{
    match error {
        PipelineError::ProviderUnavailable => Recovery::UseSampleData,
        PipelineError::QueryFailed => Recovery::DeliverEmptyResult,
        PipelineError::RenderFailed => Recovery::KeepPlaceholder,
        PipelineError::ChannelClosed => Recovery::DisableSearch,
    }
}

/// Whether an error is shown to the user: only the loss of a background
/// thread is.
pub fn is_user_visible(error: PipelineError) -> (visible: bool)
    ensures
        visible == (error == PipelineError::ChannelClosed),
        visible == (recovery_of(error) == Recovery::DisableSearch),
{
    match error {
        PipelineError::ChannelClosed => true,
        _ => false,
    }
}

} // verus!
