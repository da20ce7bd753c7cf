use everything_browser::viewport::{
    cell_size_for, clamp_zoom_level, columns_for, compute_layout, get_icon_size_from_zoom_level,
    get_view_mode_from_zoom_level, get_zoom_level_from_view_mode, rezoom, scroll_by_lines,
    scroll_offset_for_item, scroll_target, total_height_for, window_rows_for, ScrollRequest,
    ViewMode,
};

#[test]
fn icon_sizes_by_zoom_level() {
    let expected = [0u32, 32, 40, 48, 56, 64, 72, 80, 96, 112, 128, 160, 192, 256, 320];
    for (level, size) in expected.iter().enumerate() {
        assert_eq!(get_icon_size_from_zoom_level(level as i32), *size);
    }
    assert_eq!(get_icon_size_from_zoom_level(15), 64);
    assert_eq!(get_icon_size_from_zoom_level(-1), 64);
}

#[test]
fn view_mode_by_zoom_level() {
    assert_eq!(get_view_mode_from_zoom_level(0), ViewMode::Details);
    assert_eq!(get_view_mode_from_zoom_level(1), ViewMode::MediumIcons);
    assert_eq!(get_view_mode_from_zoom_level(14), ViewMode::MediumIcons);
}

#[test]
fn zoom_level_by_view_mode() {
    assert_eq!(get_zoom_level_from_view_mode(ViewMode::Details), 0);
    assert_eq!(get_zoom_level_from_view_mode(ViewMode::MediumIcons), 5);
    assert_eq!(get_zoom_level_from_view_mode(ViewMode::LargeIcons), 10);
    assert_eq!(get_zoom_level_from_view_mode(ViewMode::ExtraLargeIcons), 13);
}

#[test]
fn zoom_level_is_clamped() {
    assert_eq!(clamp_zoom_level(-5), 0);
    assert_eq!(clamp_zoom_level(0), 0);
    assert_eq!(clamp_zoom_level(7), 7);
    assert_eq!(clamp_zoom_level(14), 14);
    assert_eq!(clamp_zoom_level(99), 14);
}

#[test]
fn cell_sizes() {
    assert_eq!(cell_size_for(0), 20);
    assert_eq!(cell_size_for(1), 88);
    assert_eq!(cell_size_for(5), 120);
    assert_eq!(cell_size_for(14), 376);
}

#[test]
fn columns_fit_the_width() {
    assert_eq!(columns_for(0, 800), 1);
    assert_eq!(columns_for(5, 800), 6);
    assert_eq!(columns_for(5, 120), 1);
    assert_eq!(columns_for(5, 119), 1);
    assert_eq!(columns_for(5, 0), 1);
    assert_eq!(columns_for(5, 240), 2);
}

#[test]
fn total_height_rounds_rows_up() {
    assert_eq!(total_height_for(0, 1000, 800), 20_000);
    assert_eq!(total_height_for(5, 1000, 800), 167 * 120);
    assert_eq!(total_height_for(5, 6, 800), 120);
    assert_eq!(total_height_for(5, 7, 800), 240);
    assert_eq!(total_height_for(5, 0, 800), 0);
}

#[test]
fn window_rows_round_up_and_add_slack() {
    assert_eq!(window_rows_for(0, 600), 31);
    assert_eq!(window_rows_for(0, 625), 32);
    assert_eq!(window_rows_for(0, 25), 2);
    assert_eq!(window_rows_for(0, 0), 2);
    assert_eq!(window_rows_for(5, 600), 7);
    assert_eq!(window_rows_for(5, 601), 8);
}

#[test]
fn layout_details_at_top() {
    let s = compute_layout(1000, 800, 600, 0, 0);
    assert_eq!(s.scroll_pos, 0);
    assert_eq!(s.visible_start, 0);
    assert_eq!(s.visible_count, 31);
    assert_eq!(s.cell_size, 20);
    assert_eq!(s.grid_columns, 1);
    assert_eq!(s.total_height, 20_000);
}

#[test]
fn layout_details_scrolled() {
    let s = compute_layout(1000, 800, 600, 0, 400);
    assert_eq!(s.scroll_pos, 400);
    assert_eq!(s.visible_start, 20);
    assert_eq!(s.visible_count, 31);
}

#[test]
fn layout_clamps_the_scroll_offset() {
    let s = compute_layout(1000, 800, 600, 0, 99_999);
    assert_eq!(s.scroll_pos, 19_400);
    assert_eq!(s.visible_start, 970);
    assert_eq!(s.visible_count, 30);
    assert!(s.visible_start + s.visible_count <= 1000);
}

#[test]
fn layout_of_a_short_list_does_not_scroll() {
    let s = compute_layout(5, 800, 600, 0, 300);
    assert_eq!(s.scroll_pos, 0);
    assert_eq!(s.visible_start, 0);
    assert_eq!(s.visible_count, 5);
    assert_eq!(s.total_height, 100);
}

#[test]
fn layout_of_an_empty_list() {
    let s = compute_layout(0, 800, 600, 5, 1234);
    assert_eq!(s.scroll_pos, 0);
    assert_eq!(s.visible_start, 0);
    assert_eq!(s.visible_count, 0);
    assert_eq!(s.total_height, 0);
}

#[test]
fn layout_grid() {
    let s = compute_layout(1000, 800, 600, 5, 240);
    assert_eq!(s.cell_size, 120);
    assert_eq!(s.grid_columns, 6);
    assert_eq!(s.total_height, 20_040);
    assert_eq!(s.scroll_pos, 240);
    assert_eq!(s.visible_start, 12);
    assert_eq!(s.visible_count, 42);
}

#[test]
fn layout_start_past_the_end_moves_to_the_last_item() {
    let s = compute_layout(5, 800, 0, 0, 100);
    assert_eq!(s.scroll_pos, 100);
    assert_eq!(s.visible_start, 4);
    assert_eq!(s.visible_count, 1);
}

#[test]
fn layout_is_stable_at_its_own_offset() {
    let a = compute_layout(1000, 800, 600, 7, 5_000_000);
    let b = compute_layout(1000, 800, 600, 7, a.scroll_pos);
    assert_eq!(a, b);
}

#[test]
fn scroll_offset_puts_the_row_on_top() {
    assert_eq!(scroll_offset_for_item(20, 800, 0), 400);
    assert_eq!(scroll_offset_for_item(20, 800, 5), 360);
    assert_eq!(scroll_offset_for_item(0, 800, 5), 0);
    assert_eq!(scroll_offset_for_item(5, 800, 5), 0);
    assert_eq!(scroll_offset_for_item(6, 800, 5), 120);
}

#[test]
fn rezoom_keeps_the_top_item_in_the_top_row() {
    let s = rezoom(1000, 800, 600, 20, 5);
    assert_eq!(s.scroll_pos, 360);
    assert_eq!(s.visible_start, 18);
    assert!(s.visible_start <= 20 && 20 < s.visible_start + s.grid_columns as usize);
    let d = rezoom(1000, 800, 600, 18, 0);
    assert_eq!(d.scroll_pos, 360);
    assert_eq!(d.visible_start, 18);
}

#[test]
fn rezoom_stops_at_the_end_of_the_list() {
    let s = rezoom(1000, 800, 600, 999, 0);
    assert_eq!(s.scroll_pos, 19_400);
    assert_eq!(s.visible_start, 970);
}

#[test]
fn scroll_target_lines_and_pages() {
    assert_eq!(scroll_target(ScrollRequest::LineDown, 100, 20, 600, 19_400), 120);
    assert_eq!(scroll_target(ScrollRequest::LineUp, 100, 20, 600, 19_400), 80);
    assert_eq!(scroll_target(ScrollRequest::LineUp, 10, 20, 600, 19_400), 0);
    assert_eq!(scroll_target(ScrollRequest::PageDown, 100, 20, 600, 19_400), 700);
    assert_eq!(scroll_target(ScrollRequest::PageDown, 19_000, 20, 600, 19_400), 19_400);
    assert_eq!(scroll_target(ScrollRequest::PageUp, 700, 20, 600, 19_400), 100);
    assert_eq!(scroll_target(ScrollRequest::PageUp, 500, 20, 600, 19_400), 0);
}

#[test]
fn scroll_target_thumb_and_ends() {
    assert_eq!(scroll_target(ScrollRequest::ThumbTrack { offset: 5_000 }, 0, 20, 600, 19_400), 5_000);
    assert_eq!(
        scroll_target(ScrollRequest::ThumbPosition { offset: 50_000 }, 0, 20, 600, 19_400),
        19_400
    );
    assert_eq!(scroll_target(ScrollRequest::Top, 700, 20, 600, 19_400), 0);
    assert_eq!(scroll_target(ScrollRequest::Bottom, 700, 20, 600, 19_400), 19_400);
    assert_eq!(scroll_target(ScrollRequest::EndScroll, 700, 20, 600, 19_400), 700);
    assert_eq!(scroll_target(ScrollRequest::LineDown, u64::MAX, 20, 600, u64::MAX), u64::MAX);
}

#[test]
fn scroll_by_lines_moves_and_clamps() {
    assert_eq!(scroll_by_lines(100, 3, 20, 19_400), 160);
    assert_eq!(scroll_by_lines(100, -3, 20, 19_400), 40);
    assert_eq!(scroll_by_lines(100, -6, 20, 19_400), 0);
    assert_eq!(scroll_by_lines(19_390, 3, 20, 19_400), 19_400);
    assert_eq!(scroll_by_lines(100, 0, 20, 19_400), 100);
    assert_eq!(scroll_by_lines(100, i32::MIN, 20, 19_400), 0);
    assert_eq!(scroll_by_lines(100, i32::MAX, u64::MAX, 19_400), 19_400);
    assert_eq!(scroll_by_lines(30_000, -1, 20, 19_400), 19_400);
}
