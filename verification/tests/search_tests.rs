use everything_browser::search::{
    choose_query, effective_query, is_user_visible, package_results, recovery_for, worker_step,
    PipelineError, Recovery, SearchCoordinator, WorkerAction, WorkerStage, KEYSTROKE_DEBOUNCE_MS,
    MAX_RESULTS, WORKER_DEBOUNCE_MS,
};

#[test]
fn constants() {
    assert_eq!(WORKER_DEBOUNCE_MS, 150);
    assert_eq!(KEYSTROKE_DEBOUNCE_MS, 500);
    assert_eq!(MAX_RESULTS, 50_000);
}

#[test]
fn new_coordinator_has_dispatched_nothing() {
    let c = SearchCoordinator::new();
    assert_eq!(c.current_generation(), 0);
    assert_eq!(c.pending_query, "");
    assert!(!c.timer_active);
    assert!(c.can_submit());
}

#[test]
fn each_submission_gets_the_next_generation() {
    let mut c = SearchCoordinator::new();
    let a = c.start_async_search("a".to_string());
    assert_eq!(a.request.generation, 1);
    assert_eq!(a.request.query, "a");
    assert!(a.cancel_previous);
    assert!(!a.kill_timer);
    let b = c.start_async_search("ab".to_string());
    assert_eq!(b.request.generation, 2);
    assert_eq!(b.request.query, "ab");
    assert_eq!(c.current_generation(), 2);
    assert_eq!(c.pending_query, "ab");
}

#[test]
fn only_the_current_generation_is_accepted() {
    let mut c = SearchCoordinator::new();
    let a = c.start_async_search("a".to_string());
    let b = c.start_async_search("ab".to_string());
    assert!(a.request.generation < b.request.generation);
    assert!(!c.accepts(a.request.generation));
    assert!(c.accepts(b.request.generation));
    assert!(!c.accepts(0));
    assert!(!c.accepts(3));
}

#[test]
fn exhausted_counter_cannot_submit() {
    let mut c = SearchCoordinator::new();
    c.generation = u64::MAX;
    assert!(!c.can_submit());
    c.generation = u64::MAX - 1;
    assert!(c.can_submit());
    let d = c.start_async_search("x".to_string());
    assert_eq!(d.request.generation, u64::MAX);
}

#[test]
fn text_change_restarts_the_timer() {
    let mut c = SearchCoordinator::new();
    let plan = c.text_changed("ca");
    assert!(!plan.kill);
    assert_eq!(plan.start_ms, 500);
    assert_eq!(c.pending_query, "ca");
    assert_eq!(c.current_generation(), 0);
    assert!(c.timer_started(true).is_none());
    assert!(c.timer_active);
    let plan = c.text_changed("cat");
    assert!(plan.kill);
    assert_eq!(plan.start_ms, 500);
    assert_eq!(c.pending_query, "cat");
    assert!(!c.timer_active);
}

#[test]
fn failed_timer_submits_at_once() {
    let mut c = SearchCoordinator::new();
    let _ = c.text_changed("cat");
    let d = c.timer_started(false);
    assert!(d.is_some());
    let d = d.unwrap();
    assert_eq!(d.request.query, "cat");
    assert_eq!(d.request.generation, 1);
    assert!(d.cancel_previous);
    assert!(!c.timer_active);
    assert_eq!(c.current_generation(), 1);
}

#[test]
fn search_now_stops_the_timer() {
    let mut c = SearchCoordinator::new();
    let _ = c.text_changed("ca");
    let _ = c.timer_started(true);
    let d = c.search_now("cat".to_string());
    assert!(d.kill_timer);
    assert!(d.cancel_previous);
    assert_eq!(d.request.query, "cat");
    assert_eq!(d.request.generation, 1);
    assert!(!c.timer_active);
    let e = c.search_now("cats".to_string());
    assert!(!e.kill_timer);
    assert_eq!(e.request.generation, 2);
}

#[test]
fn worker_checks_the_flag_at_each_stage() {
    assert_eq!(worker_step(WorkerStage::Received, true), WorkerAction::Abandon);
    assert_eq!(worker_step(WorkerStage::Debounced, true), WorkerAction::Abandon);
    assert_eq!(worker_step(WorkerStage::Queried, true), WorkerAction::Abandon);
    assert_eq!(worker_step(WorkerStage::Received, false), WorkerAction::Sleep { ms: 150 });
    assert_eq!(worker_step(WorkerStage::Debounced, false), WorkerAction::Query);
    assert_eq!(worker_step(WorkerStage::Queried, false), WorkerAction::Deliver);
}

#[test]
fn blank_query_stands_for_the_default_view() {
    assert_eq!(effective_query(""), "*.png");
    assert_eq!(effective_query("   "), "*.png");
    assert_eq!(effective_query("\t\n"), "*.png");
}

#[test]
fn other_queries_are_sent_as_typed() {
    assert_eq!(effective_query("cat"), "cat");
    assert_eq!(effective_query(" cat "), " cat ");
}

#[test]
fn choose_query_goes_by_the_trimmed_text() {
    assert_eq!(choose_query("  ", ""), "*.png");
    assert_eq!(choose_query(" a ", "a"), " a ");
}

#[test]
fn failed_query_is_an_empty_result() {
    let r = package_results(None, 7);
    assert_eq!(r.generation, 7);
    assert!(r.entries.is_empty());
}

#[test]
fn found_paths_become_entries_in_order() {
    let paths = vec!["/a/one.txt".to_string(), "/a/two".to_string(), "/b/three.JPG".to_string()];
    let r = package_results(Some(paths), 3);
    assert_eq!(r.generation, 3);
    assert_eq!(r.entries.len(), 3);
    assert_eq!(r.entries[0].path, "/a/one.txt");
    assert_eq!(r.entries[0].file_type, "TXT File");
    assert_eq!(r.entries[1].path, "/a/two");
    assert_eq!(r.entries[1].file_type, "File");
    assert_eq!(r.entries[2].path, "/b/three.JPG");
    assert_eq!(r.entries[2].file_type, "JPG File");
    for e in &r.entries {
        assert_eq!(e.size, 0);
        assert_eq!(e.modified_time, 0);
    }
}

#[test]
fn closed_channel_disables_search() {
    let mut c = SearchCoordinator::new();
    let _ = c.start_async_search("a".to_string());
    assert!(c.can_submit());
    c.channel_closed();
    assert!(c.search_disabled);
    assert!(!c.can_submit());
    assert_eq!(c.current_generation(), 1);
    assert_eq!(c.pending_query, "a");
}

#[test]
fn every_error_has_its_recovery() {
    assert_eq!(recovery_for(PipelineError::ProviderUnavailable), Recovery::UseSampleData);
    assert_eq!(recovery_for(PipelineError::QueryFailed), Recovery::DeliverEmptyResult);
    assert_eq!(recovery_for(PipelineError::RenderFailed), Recovery::KeepPlaceholder);
    assert_eq!(recovery_for(PipelineError::ChannelClosed), Recovery::DisableSearch);
}

#[test]
fn only_a_closed_channel_is_shown() {
    assert!(!is_user_visible(PipelineError::ProviderUnavailable));
    assert!(!is_user_visible(PipelineError::QueryFailed));
    assert!(!is_user_visible(PipelineError::RenderFailed));
    assert!(is_user_visible(PipelineError::ChannelClosed));
}
