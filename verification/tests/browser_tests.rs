use everything_browser::browser::{Browser, THUMBNAIL_CACHE_CAPACITY};
use everything_browser::columns::{ColumnType, SortOrder, SortState};
use everything_browser::config::{AppConfig, ThumbnailBackground, ThumbnailStrategy};
use everything_browser::file_result::FileResult;
use everything_browser::viewport::{ScrollRequest, ViewMode};

fn list(n: usize) -> Vec<FileResult> {
    let mut v = Vec::new();
    for i in 0..n {
        v.push(FileResult::from_path(&format!("/pictures/img_{}.png", i)));
    }
    v
}

fn sorted(mut v: Vec<usize>) -> Vec<usize> {
    v.sort();
    v
}

fn range(lo: usize, hi: usize) -> Vec<usize> {
    let mut v = Vec::new();
    for i in lo..hi {
        v.push(i);
    }
    v
}

/// A browser showing `n` items in a window of 800 by 600.
fn loaded(n: usize) -> Browser {
    let mut b = Browser::new(AppConfig::default());
    let _ = b.on_resize(800, 600);
    let d = b.submit_search("png".to_string());
    let applied = b.handle_search_results(list(n), d.request.generation);
    assert!(applied.is_some());
    b
}

#[test]
fn new_browser_is_empty() {
    let b = Browser::new(AppConfig::default());
    assert_eq!(THUMBNAIL_CACHE_CAPACITY, 500);
    assert!(b.list_data.is_empty());
    assert_eq!(b.zoom_level, 0);
    assert_eq!(b.view_mode, ViewMode::Details);
    assert_eq!(b.selected_view_size, 0);
    assert_eq!(b.selected_index, None);
    assert_eq!(b.viewport.scroll_pos, 0);
    assert_eq!(b.viewport.visible_start, 0);
    assert_eq!(b.viewport.visible_count, 0);
    assert_eq!(b.search.current_generation(), 0);
    assert_eq!(b.thumbnail_cache.len(), 0);
    assert_eq!(b.thumbnail_task_manager.get_queued_count(), 0);
}

#[test]
fn stale_result_is_discarded() {
    let mut b = Browser::new(AppConfig::default());
    let _ = b.on_resize(800, 600);
    let a = b.submit_search("a".to_string());
    let ab = b.submit_search("ab".to_string());
    assert!(a.cancel_previous && ab.cancel_previous);
    assert_eq!(a.request.generation, 1);
    assert_eq!(ab.request.generation, 2);
    let late = b.handle_search_results(list(10), a.request.generation);
    assert!(late.is_none());
    assert!(b.list_data.is_empty());
    let current = b.handle_search_results(list(3), ab.request.generation);
    assert!(current.is_some());
    assert_eq!(b.list_data.len(), 3);
    assert_eq!(b.selected_index, Some(0));
}

#[test]
fn result_for_a_generation_never_issued_is_discarded() {
    let mut b = Browser::new(AppConfig::default());
    let _ = b.submit_search("a".to_string());
    assert!(b.handle_search_results(list(2), 5).is_none());
    assert!(b.list_data.is_empty());
}

#[test]
fn accepted_result_replaces_the_list_and_resets_thumbnails() {
    let mut b = loaded(100);
    let _ = b.set_zoom_level(5);
    let plan = b.recompute_thumbnail_queue();
    assert!(!plan.requests.is_empty());
    let _ = b.on_thumbnail_ready(0, 77);
    assert_eq!(b.thumbnail_cache.len(), 1);
    let queued = b.thumbnail_task_manager.get_queued_count();
    assert!(queued > 0);
    let _ = b.scroll_list(2);
    let d = b.submit_search("other".to_string());
    let effects = b.handle_search_results(list(7), d.request.generation).unwrap();
    assert_eq!(effects.cancelled_jobs.len(), queued);
    assert!(effects.recompute_thumbnails);
    assert!(effects.update_scrollbar);
    assert!(effects.repaint);
    assert_eq!(b.list_data.len(), 7);
    assert_eq!(b.viewport.scroll_pos, 0);
    assert_eq!(b.thumbnail_cache.len(), 0);
    assert_eq!(b.thumbnail_task_manager.get_queued_count(), 0);
}

#[test]
fn empty_result_clears_the_list() {
    let mut b = loaded(100);
    let d = b.submit_search("nothing".to_string());
    let effects = b.handle_search_results(Vec::new(), d.request.generation);
    assert!(effects.is_some());
    assert!(b.list_data.is_empty());
    assert_eq!(b.selected_index, None);
    assert_eq!(b.viewport.visible_count, 0);
}

#[test]
fn result_is_cut_to_the_most_shown() {
    let mut b = Browser::new(AppConfig::default());
    let d = b.submit_search("all".to_string());
    let mut many = Vec::new();
    let proto = FileResult::from_path("/x/y.png");
    for _ in 0..50_003 {
        many.push(proto.clone());
    }
    let _ = b.handle_search_results(many, d.request.generation);
    assert_eq!(b.list_data.len(), 50_000);
}

#[test]
fn scroll_position_is_kept_while_dragging() {
    let mut b = loaded(1000);
    let _ = b.handle_vertical_scroll(ScrollRequest::ThumbTrack { offset: 4000 });
    assert!(b.is_scrollbar_dragging);
    assert_eq!(b.viewport.scroll_pos, 4000);
    let d = b.submit_search("again".to_string());
    let _ = b.handle_search_results(list(1000), d.request.generation);
    assert_eq!(b.viewport.scroll_pos, 4000);
    assert_eq!(b.viewport.visible_start, 200);
    let _ = b.handle_vertical_scroll(ScrollRequest::ThumbPosition { offset: 4000 });
    assert!(!b.is_scrollbar_dragging);
    let d = b.submit_search("again".to_string());
    let _ = b.handle_search_results(list(1000), d.request.generation);
    assert_eq!(b.viewport.scroll_pos, 0);
}

#[test]
fn zoom_keeps_the_top_item() {
    let mut b = loaded(1000);
    let _ = b.handle_vertical_scroll(ScrollRequest::ThumbPosition { offset: 400 });
    assert_eq!(b.viewport.visible_start, 20);
    let changed = b.set_zoom_level(5);
    assert!(changed.is_some());
    assert_eq!(b.zoom_level, 5);
    assert_eq!(b.view_mode, ViewMode::MediumIcons);
    assert_eq!(b.selected_view_size, 64);
    assert_eq!(b.viewport.grid_columns, 6);
    assert_eq!(b.viewport.scroll_pos, 360);
    assert_eq!(b.viewport.visible_start, 18);
    assert!(b.viewport.visible_start <= 20);
    assert!(20 < b.viewport.visible_start + 6);
    let back = b.set_zoom_level(0);
    assert!(back.is_some());
    assert_eq!(b.viewport.visible_start, 18);
    assert_eq!(b.viewport.scroll_pos, 360);
}

#[test]
fn zoom_to_the_same_level_changes_nothing() {
    let mut b = loaded(1000);
    let _ = b.set_zoom_level(5);
    let _ = b.recompute_thumbnail_queue();
    let queued = b.thumbnail_task_manager.get_queued_count();
    assert!(b.set_zoom_level(5).is_none());
    assert_eq!(b.thumbnail_task_manager.get_queued_count(), queued);
    assert!(b.set_view_mode(ViewMode::MediumIcons).is_none());
}

#[test]
fn zoom_level_is_brought_into_range() {
    let mut b = loaded(10);
    assert!(b.set_zoom_level(99).is_some());
    assert_eq!(b.zoom_level, 14);
    assert_eq!(b.selected_view_size, 320);
    assert!(b.set_zoom_level(14).is_none());
    assert!(b.set_zoom_level(-3).is_some());
    assert_eq!(b.zoom_level, 0);
    assert!(b.set_zoom_level(0).is_none());
}

#[test]
fn zoom_at_the_end_of_the_list_is_clamped() {
    let mut b = loaded(1000);
    let _ = b.set_zoom_level(14);
    let _ = b.handle_vertical_scroll(ScrollRequest::Bottom);
    let top = b.viewport.visible_start;
    assert_eq!(b.viewport.grid_columns, 2);
    assert_eq!(top, 996);
    let _ = b.set_zoom_level(0);
    assert_eq!(b.viewport.scroll_pos, 19_400);
    assert_eq!(b.viewport.visible_start, 970);
}

#[test]
fn view_mode_sets_its_zoom_level() {
    let mut b = loaded(10);
    assert!(b.set_view_mode(ViewMode::LargeIcons).is_some());
    assert_eq!(b.zoom_level, 10);
    assert_eq!(b.selected_view_size, 128);
    assert!(b.set_view_mode(ViewMode::ExtraLargeIcons).is_some());
    assert_eq!(b.zoom_level, 13);
    assert!(b.set_view_mode(ViewMode::Details).is_some());
    assert_eq!(b.zoom_level, 0);
}

#[test]
fn changing_strategy_resets_thumbnails() {
    let mut b = loaded(1000);
    let _ = b.set_zoom_level(5);
    let plan = b.recompute_thumbnail_queue();
    let started = plan.requests.len();
    assert_eq!(started, 42);
    let _ = b.on_thumbnail_ready(3, 9);
    let effects = b.set_thumbnail_strategy(ThumbnailStrategy::LoadVisiblePlus500);
    assert_eq!(sorted(effects.cancelled_jobs), range(0, 42));
    assert!(effects.recompute_thumbnails);
    assert_eq!(b.config.thumbnail_strategy, ThumbnailStrategy::LoadVisiblePlus500);
    assert_eq!(b.thumbnail_cache.len(), 0);
    assert_eq!(b.thumbnail_task_manager.get_queued_count(), 0);
    let plan = b.recompute_thumbnail_queue();
    assert_eq!(plan.requests.len(), 542);
}

#[test]
fn changing_background_resets_thumbnails() {
    let mut b = loaded(1000);
    let _ = b.set_zoom_level(5);
    let _ = b.recompute_thumbnail_queue();
    let effects = b.set_thumbnail_background(ThumbnailBackground::Checkerboard);
    assert_eq!(effects.cancelled_jobs.len(), 42);
    assert_eq!(b.config.thumbnail_background, ThumbnailBackground::Checkerboard);
    assert_eq!(b.thumbnail_task_manager.get_queued_count(), 0);
    let plan = b.recompute_thumbnail_queue();
    assert_eq!(plan.requests[0].background, ThumbnailBackground::Checkerboard);
    assert_eq!(plan.requests[0].size, 64);
    assert_eq!(plan.requests[0].file_path, "/pictures/img_0.png");
}

#[test]
fn details_view_loads_no_thumbnails() {
    let mut b = loaded(1000);
    let plan = b.recompute_thumbnail_queue();
    assert!(plan.cancelled.is_empty());
    assert!(plan.requests.is_empty());
    assert_eq!(b.thumbnail_task_manager.get_queued_count(), 0);
}

#[test]
fn scrolling_reconciles_without_touching_the_cache() {
    let mut b = loaded(1000);
    let _ = b.set_zoom_level(5);
    let first = b.recompute_thumbnail_queue();
    assert_eq!(first.requests.len(), 42);
    let _ = b.on_thumbnail_ready(0, 100);
    let _ = b.on_thumbnail_ready(1, 101);
    b.finish_job(0);
    b.finish_job(1);
    let effects = b.handle_vertical_scroll(ScrollRequest::ThumbPosition { offset: 12_000 });
    assert!(effects.recompute_thumbnails);
    assert_eq!(b.viewport.visible_start, 600);
    let plan = b.recompute_thumbnail_queue();
    assert_eq!(sorted(plan.cancelled), range(2, 42));
    let mut started = Vec::new();
    for r in &plan.requests {
        started.push(r.item_index);
    }
    assert_eq!(started, range(600, 642));
    assert_eq!(b.thumbnail_cache.len(), 2);
    assert_eq!(b.thumbnail_for(0), Some(100));
    assert_eq!(b.thumbnail_for(1), Some(101));
    let again = b.recompute_thumbnail_queue();
    assert!(again.cancelled.is_empty());
    assert!(again.requests.is_empty());
}

#[test]
fn thumbnail_for_an_item_outside_the_list_is_ignored() {
    let mut b = loaded(5);
    let _ = b.set_zoom_level(5);
    assert_eq!(b.on_thumbnail_ready(5, 1), None);
    assert_eq!(b.thumbnail_cache.len(), 0);
    assert_eq!(b.on_thumbnail_ready(4, 2), Some(4));
    assert_eq!(b.thumbnail_for(4), Some(2));
    assert_eq!(b.thumbnail_for(3), None);
    assert_eq!(b.thumbnail_for(5), None);
}

#[test]
fn thumbnails_are_cached_by_pixel_size() {
    let mut b = loaded(5);
    let _ = b.set_zoom_level(5);
    let _ = b.on_thumbnail_ready(2, 7);
    assert_eq!(b.thumbnail_cache.peek("/pictures/img_2.png", 64), Some(7));
    assert_eq!(b.thumbnail_cache.peek("/pictures/img_2.png", 128), None);
}

#[test]
fn scroll_requests_move_the_viewport() {
    let mut b = loaded(1000);
    let e = b.handle_vertical_scroll(ScrollRequest::LineDown);
    assert_eq!(b.viewport.scroll_pos, 20);
    assert_eq!(b.viewport.visible_start, 1);
    assert!(e.repaint && e.update_scrollbar && e.recompute_thumbnails);
    let e = b.handle_vertical_scroll(ScrollRequest::PageDown);
    assert_eq!(b.viewport.scroll_pos, 620);
    assert!(e.repaint);
    let _ = b.handle_vertical_scroll(ScrollRequest::Bottom);
    assert_eq!(b.viewport.scroll_pos, 19_400);
    let e = b.handle_vertical_scroll(ScrollRequest::LineDown);
    assert_eq!(b.viewport.scroll_pos, 19_400);
    assert!(!e.repaint && !e.update_scrollbar && !e.recompute_thumbnails);
    let _ = b.handle_vertical_scroll(ScrollRequest::Top);
    assert_eq!(b.viewport.scroll_pos, 0);
}

#[test]
fn dragging_repaints_without_reconciling() {
    let mut b = loaded(1000);
    let e = b.handle_vertical_scroll(ScrollRequest::ThumbTrack { offset: 1000 });
    assert!(b.is_scrollbar_dragging);
    assert!(e.repaint);
    assert!(!e.update_scrollbar);
    assert!(!e.recompute_thumbnails);
    let e = b.handle_vertical_scroll(ScrollRequest::EndScroll);
    assert!(!b.is_scrollbar_dragging);
    assert!(e.update_scrollbar);
    assert!(!e.repaint);
    assert_eq!(b.viewport.scroll_pos, 1000);
}

#[test]
fn scroll_list_by_lines() {
    let mut b = loaded(1000);
    let e = b.scroll_list(3);
    assert_eq!(b.viewport.scroll_pos, 60);
    assert!(e.repaint);
    let e = b.scroll_list(-5);
    assert_eq!(b.viewport.scroll_pos, 0);
    assert!(e.repaint);
    let e = b.scroll_list(-1);
    assert_eq!(b.viewport.scroll_pos, 0);
    assert!(!e.repaint);
}

#[test]
fn resize_relayouts_and_clamps() {
    let mut b = loaded(100);
    let _ = b.handle_vertical_scroll(ScrollRequest::Bottom);
    assert_eq!(b.viewport.scroll_pos, 1400);
    let e = b.on_resize(800, 1000);
    assert!(e.update_scrollbar && e.repaint && e.recompute_thumbnails);
    assert_eq!(b.client_height, 1000);
    assert_eq!(b.viewport.scroll_pos, 1000);
    assert_eq!(b.viewport.visible_start, 50);
    let _ = b.on_resize(800, 5000);
    assert_eq!(b.viewport.scroll_pos, 0);
    assert_eq!(b.viewport.visible_count, 100);
}

#[test]
fn finished_job_leaves_the_queue() {
    let mut b = loaded(100);
    let _ = b.set_zoom_level(5);
    let _ = b.recompute_thumbnail_queue();
    assert!(b.thumbnail_task_manager.is_task_queued(3));
    b.finish_job(3);
    assert!(!b.thumbnail_task_manager.is_task_queued(3));
    let plan = b.recompute_thumbnail_queue();
    assert_eq!(plan.requests.len(), 1);
    assert_eq!(plan.requests[0].item_index, 3);
}

#[test]
fn replace_list_resets_thumbnails() {
    let mut b = loaded(1000);
    let _ = b.set_zoom_level(5);
    let _ = b.recompute_thumbnail_queue();
    let _ = b.on_thumbnail_ready(1, 5);
    let _ = b.handle_vertical_scroll(ScrollRequest::ThumbPosition { offset: 1200 });
    let queued = b.thumbnail_task_manager.get_queued_count();
    let effects = b.replace_list(list(20));
    assert_eq!(effects.cancelled_jobs.len(), queued);
    assert!(effects.recompute_thumbnails);
    assert_eq!(b.list_data.len(), 20);
    assert_eq!(b.selected_index, Some(0));
    assert_eq!(b.thumbnail_cache.len(), 0);
    assert_eq!(b.thumbnail_task_manager.get_queued_count(), 0);
    assert_eq!(b.viewport.scroll_pos, 0);
    let effects = b.replace_list(Vec::new());
    assert!(effects.cancelled_jobs.is_empty());
    assert_eq!(b.selected_index, None);
}

#[test]
fn selection_moves_by_items_in_details() {
    let mut b = loaded(100);
    assert_eq!(b.selected_index, Some(0));
    let _ = b.move_selection(1);
    assert_eq!(b.selected_index, Some(1));
    let _ = b.move_selection(10);
    assert_eq!(b.selected_index, Some(11));
    let _ = b.move_selection(-3);
    assert_eq!(b.selected_index, Some(8));
    let _ = b.move_selection(-50);
    assert_eq!(b.selected_index, Some(0));
    let _ = b.move_selection(500);
    assert_eq!(b.selected_index, Some(99));
    let _ = b.move_selection(1);
    assert_eq!(b.selected_index, Some(99));
}

#[test]
fn selection_moves_by_rows_in_the_grid() {
    let mut b = loaded(100);
    let _ = b.set_zoom_level(5);
    assert_eq!(b.viewport.grid_columns, 6);
    let _ = b.set_selection(10);
    let _ = b.move_selection(1);
    assert_eq!(b.selected_index, Some(11));
    let _ = b.move_selection(-1);
    assert_eq!(b.selected_index, Some(10));
    let _ = b.move_selection(2);
    assert_eq!(b.selected_index, Some(22));
    let _ = b.move_selection(-3);
    assert_eq!(b.selected_index, Some(4));
    let _ = b.move_selection(-2);
    assert_eq!(b.selected_index, Some(0));
    let _ = b.move_selection(-1);
    assert_eq!(b.selected_index, Some(0));
    let _ = b.set_selection(99);
    let _ = b.move_selection(1);
    assert_eq!(b.selected_index, Some(99));
    let _ = b.move_selection(0);
    assert_eq!(b.selected_index, Some(99));
}

#[test]
fn selection_starts_at_the_first_item() {
    let mut b = loaded(10);
    b.selected_index = None;
    let _ = b.move_selection(5);
    assert_eq!(b.selected_index, Some(0));
}

#[test]
fn selection_in_an_empty_list_does_nothing() {
    let mut b = loaded(0);
    assert!(!b.move_selection(1));
    assert_eq!(b.selected_index, None);
    assert!(!b.set_selection(0));
    assert_eq!(b.selected_index, None);
}

#[test]
fn selection_outside_the_list_is_ignored() {
    let mut b = loaded(10);
    let _ = b.set_selection(3);
    assert!(!b.set_selection(10));
    assert_eq!(b.selected_index, Some(3));
}

#[test]
fn selection_is_scrolled_into_view() {
    let mut b = loaded(1000);
    assert!(!b.set_selection(5));
    assert_eq!(b.viewport.scroll_pos, 0);
    assert!(b.set_selection(100));
    assert_eq!(b.viewport.scroll_pos, 100 * 20 - 600 + 20);
    assert!(b.set_selection(10));
    assert_eq!(b.viewport.scroll_pos, 200);
    assert_eq!(b.viewport.visible_start, 10);
    assert!(!b.set_selection(20));
    assert_eq!(b.viewport.scroll_pos, 200);
    assert!(!b.set_selection(39));
    assert_eq!(b.viewport.scroll_pos, 200);
    assert!(b.set_selection(40));
    assert_eq!(b.viewport.scroll_pos, 40 * 20 - 580);
}

#[test]
fn item_rect_in_details() {
    let mut b = loaded(1000);
    let _ = b.handle_vertical_scroll(ScrollRequest::ThumbPosition { offset: 50 });
    let r = b.get_item_rect(3).unwrap();
    assert_eq!((r.left, r.top, r.right, r.bottom), (0, 10, 800, 30));
    assert!(b.get_item_rect(1).is_none());
    let r = b.get_item_rect(2).unwrap();
    assert_eq!((r.left, r.top, r.right, r.bottom), (0, -10, 800, 10));
    assert!(b.get_item_rect(0).is_none());
    assert!(b.get_item_rect(33).is_some());
    assert!(b.get_item_rect(34).is_none());
    assert!(b.get_item_rect(1000).is_none());
}

#[test]
fn item_rect_in_the_grid() {
    let mut b = loaded(1000);
    let _ = b.set_zoom_level(5);
    let _ = b.handle_vertical_scroll(ScrollRequest::ThumbPosition { offset: 100 });
    let r = b.get_item_rect(8).unwrap();
    assert_eq!((r.left, r.top, r.right, r.bottom), (240, 20, 360, 140));
    let r = b.get_item_rect(0).unwrap();
    assert_eq!((r.left, r.top, r.right, r.bottom), (0, -100, 120, 20));
    assert!(b.get_item_rect(6 * 7).is_none());
    assert!(b.get_item_rect(6 * 6 + 5).is_some());
}

#[test]
fn hit_test_in_details() {
    let mut b = loaded(1000);
    assert_eq!(b.get_item_at_point(10, 0), None);
    assert_eq!(b.get_item_at_point(10, 24), None);
    assert_eq!(b.get_item_at_point(10, 25), Some(0));
    assert_eq!(b.get_item_at_point(10, 44), Some(0));
    assert_eq!(b.get_item_at_point(10, 45), Some(1));
    let _ = b.handle_vertical_scroll(ScrollRequest::ThumbPosition { offset: 400 });
    assert_eq!(b.get_item_at_point(10, 25), Some(20));
    assert_eq!(b.get_item_at_point(10, 65), Some(22));
}

#[test]
fn hit_test_past_the_end_of_a_short_list() {
    let b = loaded(3);
    assert_eq!(b.get_item_at_point(10, 25 + 59), Some(2));
    assert_eq!(b.get_item_at_point(10, 25 + 60), None);
    let e = loaded(0);
    assert_eq!(e.get_item_at_point(10, 30), None);
}

#[test]
fn hit_test_in_the_grid() {
    let mut b = loaded(1000);
    let _ = b.set_zoom_level(5);
    assert_eq!(b.get_item_at_point(0, 0), Some(0));
    assert_eq!(b.get_item_at_point(119, 119), Some(0));
    assert_eq!(b.get_item_at_point(120, 0), Some(1));
    assert_eq!(b.get_item_at_point(0, 120), Some(6));
    assert_eq!(b.get_item_at_point(719, 0), Some(5));
    assert_eq!(b.get_item_at_point(720, 0), None);
    let _ = b.handle_vertical_scroll(ScrollRequest::ThumbPosition { offset: 240 });
    assert_eq!(b.get_item_at_point(130, 10), Some(13));
    assert_eq!(b.get_item_at_point(-1, 10), Some(12));
    assert_eq!(b.get_item_at_point(-120, 10), None);
}

fn named(paths: &[&str]) -> Vec<FileResult> {
    let mut v = Vec::new();
    for p in paths {
        v.push(FileResult::from_path(p));
    }
    v
}

fn paths(b: &Browser) -> Vec<String> {
    b.list_data.iter().map(|e| e.path.clone()).collect()
}

fn showing(entries: Vec<FileResult>) -> Browser {
    let mut b = Browser::new(AppConfig::default());
    let _ = b.on_resize(800, 600);
    let d = b.submit_search("x".to_string());
    let _ = b.handle_search_results(entries, d.request.generation);
    b
}

#[test]
fn sort_by_name_ignores_letter_case() {
    let mut b = showing(named(&["/x/banana.txt", "/x/Apple.txt", "/x/cherry.txt", "/x/apple.png"]));
    let _ = b.sort_by_column(ColumnType::Name);
    assert_eq!(paths(&b), vec!["/x/apple.png", "/x/Apple.txt", "/x/banana.txt", "/x/cherry.txt"]);
    assert_eq!(b.sort_state, Some(SortState { column: ColumnType::Name, order: SortOrder::Ascending }));
    assert_eq!(b.selected_index, Some(0));
    let _ = b.sort_by_column(ColumnType::Name);
    assert_eq!(paths(&b), vec!["/x/cherry.txt", "/x/banana.txt", "/x/Apple.txt", "/x/apple.png"]);
    assert_eq!(b.sort_state, Some(SortState { column: ColumnType::Name, order: SortOrder::Descending }));
    let _ = b.sort_by_column(ColumnType::Name);
    assert_eq!(b.sort_state, Some(SortState { column: ColumnType::Name, order: SortOrder::Ascending }));
}

#[test]
fn sort_by_size_is_stable() {
    let mut entries = named(&["/a", "/b", "/c", "/d"]);
    entries[0].size = 30;
    entries[1].size = 10;
    entries[2].size = 30;
    entries[3].size = 10;
    let mut b = showing(entries);
    let _ = b.sort_by_column(ColumnType::Size);
    assert_eq!(paths(&b), vec!["/b", "/d", "/a", "/c"]);
    let _ = b.change_sort_order(SortOrder::Descending);
    assert_eq!(paths(&b), vec!["/a", "/c", "/b", "/d"]);
}

#[test]
fn sort_by_type_time_and_path() {
    let mut entries = named(&["/z/a.txt", "/y/b.PNG", "/x/c"]);
    entries[0].modified_time = 5;
    entries[1].modified_time = 9;
    entries[2].modified_time = 1;
    let mut b = showing(entries);
    let _ = b.sort_by_column(ColumnType::Type);
    assert_eq!(paths(&b), vec!["/x/c", "/y/b.PNG", "/z/a.txt"]);
    let _ = b.sort_by_column(ColumnType::Modified);
    assert_eq!(paths(&b), vec!["/x/c", "/z/a.txt", "/y/b.PNG"]);
    let _ = b.sort_by_column(ColumnType::Path);
    assert_eq!(paths(&b), vec!["/x/c", "/y/b.PNG", "/z/a.txt"]);
    let _ = b.sort_by_column(ColumnType::Path);
    assert_eq!(paths(&b), vec!["/z/a.txt", "/y/b.PNG", "/x/c"]);
}

#[test]
fn chosen_order_without_a_column_sorts_by_name() {
    let mut b = showing(named(&["/x/b", "/x/a"]));
    let _ = b.change_sort_order(SortOrder::Ascending);
    assert_eq!(paths(&b), vec!["/x/a", "/x/b"]);
    assert_eq!(b.sort_state, Some(SortState { column: ColumnType::Name, order: SortOrder::Ascending }));
}

#[test]
fn apply_sort_without_a_state_does_nothing() {
    let mut b = showing(named(&["/x/b", "/x/a"]));
    assert!(b.apply_sort().is_none());
    assert_eq!(paths(&b), vec!["/x/b", "/x/a"]);
}

#[test]
fn sorting_resets_the_thumbnails() {
    let mut b = loaded(100);
    let _ = b.set_zoom_level(5);
    let _ = b.recompute_thumbnail_queue();
    let _ = b.on_thumbnail_ready(1, 5);
    let queued = b.thumbnail_task_manager.get_queued_count();
    let effects = b.sort_by_column(ColumnType::Path);
    assert_eq!(effects.cancelled_jobs.len(), queued);
    assert!(effects.recompute_thumbnails);
    assert_eq!(b.thumbnail_cache.len(), 0);
    assert_eq!(b.thumbnail_task_manager.get_queued_count(), 0);
    assert_eq!(b.list_data.len(), 100);
}

#[test]
fn list_mode_shows_and_searches_the_loaded_list() {
    let mut b = loaded(50);
    let _ = b.handle_vertical_scroll(ScrollRequest::LineDown);
    let effects = b.load_file_list("mine.txt".to_string(), named(&["/a/Report.txt", "/b/cat.png", "/b/dog.png"]));
    assert!(effects.recompute_thumbnails);
    assert!(b.list_mode.is_list_mode);
    assert_eq!(b.list_mode.current_list_name, Some("mine.txt".to_string()));
    assert_eq!(b.list_mode.original_list_data.len(), 3);
    assert_eq!(paths(&b), vec!["/a/Report.txt", "/b/cat.png", "/b/dog.png"]);
    assert_eq!(b.viewport.scroll_pos, 0);
    assert_eq!(b.selected_index, Some(0));
    assert!(b.search_local_list("PNG").is_some());
    assert_eq!(paths(&b), vec!["/b/cat.png", "/b/dog.png"]);
    assert!(b.search_local_list("report").is_some());
    assert_eq!(paths(&b), vec!["/a/Report.txt"]);
    assert!(b.search_local_list("zebra").is_some());
    assert!(b.list_data.is_empty());
    assert_eq!(b.selected_index, None);
    assert!(b.search_local_list(" ").is_some());
    assert_eq!(b.list_data.len(), 3);
    assert_eq!(b.list_mode.original_list_data.len(), 3);
}

#[test]
fn local_search_outside_list_mode_does_nothing() {
    let mut b = loaded(5);
    assert!(b.search_local_list("img").is_none());
    assert_eq!(b.list_data.len(), 5);
    let _ = b.load_file_list("empty.txt".to_string(), Vec::new());
    assert!(b.list_mode.is_list_mode);
    assert!(b.search_local_list("img").is_none());
}

#[test]
fn closing_the_list_leaves_list_mode() {
    let mut b = loaded(5);
    let _ = b.load_file_list("mine.txt".to_string(), named(&["/a", "/b"]));
    let effects = b.close_file_list();
    assert!(effects.repaint);
    assert!(!b.list_mode.is_list_mode);
    assert_eq!(b.list_mode.current_list_name, None);
    assert!(b.list_mode.original_list_data.is_empty());
    assert!(b.list_data.is_empty());
    assert_eq!(b.selected_index, None);
}

#[test]
fn status_text_counts_and_names() {
    let mut b = loaded(3);
    assert_eq!(b.status_text("objects", "Selected", "(1.5 KB)"), "3 objects | Selected: img_0.png (1.5 KB)");
    b.selected_index = None;
    assert_eq!(b.status_text("objects", "Selected", "(1.5 KB)"), "3 objects");
    let _ = b.load_file_list("mine.txt".to_string(), named(&["/a/x.txt"]));
    assert_eq!(b.status_text("objects", "Selected", ""), "1 objects | Selected: x.txt  | List: mine.txt");
    b.list_mode.current_list_name = None;
    b.selected_index = None;
    assert_eq!(b.status_text("个对象", "已选择", ""), "1 个对象 | List Mode");
    let e = loaded(0);
    assert_eq!(e.status_text("objects", "Selected", ""), "0 objects");
}

#[test]
fn sorting_an_empty_list_is_fine() {
    let mut b = showing(Vec::new());
    let effects = b.sort_by_column(ColumnType::Size);
    assert!(effects.repaint);
    assert!(b.list_data.is_empty());
    assert_eq!(b.selected_index, None);
}
