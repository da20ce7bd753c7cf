//! Viewport geometry: which part of a long list is on screen for a given
//! scroll offset, window size and zoom level.

use vstd::prelude::*;

verus! {

/// Height of a row in the details view, in pixels.
pub const ITEM_HEIGHT: u64 = 20;

/// Height of the column header above the rows of the details view.
pub const HEADER_HEIGHT: u64 = 25;

/// What a grid cell adds to the icon's edge: padding on both sides and room
/// for two lines of file name.
pub const CELL_EXTRA: u64 = 56;

/// Rows kept ready beyond the visible ones, so that no seam shows while
/// scrolling.
pub const SLACK_ROWS: u64 = 2;

/// The highest zoom level.
pub const MAX_ZOOM_LEVEL: i32 = 14;

/// The longest list a layout is computed for.
pub const MAX_LIST_LEN: usize = 0xFFFF_FFFF;

/// How the list is shown.
#[derive(Debug, Clone, Copy, PartialEq, Eq, Structural)]
pub enum ViewMode {
    Details,
    MediumIcons,
    LargeIcons,
    ExtraLargeIcons,
}

/// Edge length of the icons at a zoom level, in pixels. Level zero is the
/// details view, which has none.
pub open spec fn icon_size_at(zoom_level: int) -> int {
    if zoom_level == 0 {
        0
    } else if zoom_level == 1 {
        32
    } else if zoom_level == 2 {
        40
    } else if zoom_level == 3 {
        48
    } else if zoom_level == 4 {
        56
    } else if zoom_level == 5 {
        64
    } else if zoom_level == 6 {
        72
    } else if zoom_level == 7 {
        80
    } else if zoom_level == 8 {
        96
    } else if zoom_level == 9 {
        112
    } else if zoom_level == 10 {
        128
    } else if zoom_level == 11 {
        160
    } else if zoom_level == 12 {
        192
    } else if zoom_level == 13 {
        256
    } else if zoom_level == 14 {
        320
    } else {
        64
    }
}

pub fn get_icon_size_from_zoom_level(zoom_level: i32) -> (size: u32)
    ensures
        size == icon_size_at(zoom_level as int),
        size <= 320,
{
    match zoom_level {
        0 => 0,
        1 => 32,
        2 => 40,
        3 => 48,
        4 => 56,
        5 => 64,
        6 => 72,
        7 => 80,
        8 => 96,
        9 => 112,
        10 => 128,
        11 => 160,
        12 => 192,
        13 => 256,
        14 => 320,
        _ => 64,
    }
}

/// The view of a zoom level: details at zero, the icon grid elsewhere.
pub open spec fn view_mode_at(zoom_level: int) -> ViewMode {
    if zoom_level == 0 {
        ViewMode::Details
    } else {
        ViewMode::MediumIcons
    }
}

pub fn get_view_mode_from_zoom_level(zoom_level: i32) -> (mode: ViewMode)
    ensures
        mode == view_mode_at(zoom_level as int),
{
    if zoom_level == 0 {
        ViewMode::Details
    } else {
        ViewMode::MediumIcons
    }
}

/// The zoom level that a named view stands for.
pub open spec fn zoom_level_of(mode: ViewMode) -> int {
    match mode {
        ViewMode::Details => 0,
        ViewMode::MediumIcons => 5,
        ViewMode::LargeIcons => 10,
        ViewMode::ExtraLargeIcons => 13,
    }
}

pub fn get_zoom_level_from_view_mode(mode: ViewMode) -> (zoom_level: i32)
    ensures
        zoom_level == zoom_level_of(mode),
{
    match mode {
        ViewMode::Details => 0,
        ViewMode::MediumIcons => 5,
        ViewMode::LargeIcons => 10,
        ViewMode::ExtraLargeIcons => 13,
    }
}

/// A zoom level brought into the range from zero to the highest level.
pub open spec fn clamped_zoom(zoom_level: int) -> int {
    if zoom_level < 0 {
        0
    } else if zoom_level > 14 {
        14
    } else {
        zoom_level
    }
}

pub fn clamp_zoom_level(zoom_level: i32) -> (clamped: i32)
    ensures
        clamped == clamped_zoom(zoom_level as int),
        0 <= clamped <= MAX_ZOOM_LEVEL,
{
    if zoom_level < 0 {
        0
    } else if zoom_level > MAX_ZOOM_LEVEL {
        MAX_ZOOM_LEVEL
    } else {
        zoom_level
    }
}

/// Height of a row: fixed in the details view, the icon and its extra room
/// in the grid.
pub open spec fn cell_size_at(zoom_level: int) -> int {
    if zoom_level == 0 {
        20
    } else {
        icon_size_at(zoom_level) + 56
    }
}

/// Items per row: one in the details view, in the grid as many cells as fit
/// into the width, and at least one.
pub open spec fn columns_at(zoom_level: int, client_width: int) -> int {
    if zoom_level == 0 {
        1
    } else if client_width / cell_size_at(zoom_level) >= 1 {
        client_width / cell_size_at(zoom_level)
    } else {
        1
    }
}

/// Height left for rows: the details view loses its header.
pub open spec fn available_height_at(zoom_level: int, client_height: int) -> int {
    if zoom_level == 0 {
        if client_height >= 25 {
            client_height - 25
        } else {
            0
        }
    } else {
        client_height
    }
}

/// `a / b` rounded up, for `a >= 0` and `b > 0`.
pub open spec fn ceil_div(a: int, b: int) -> int {
    (a + b - 1) / b
}

/// Height of the whole list.
pub open spec fn total_height_at(zoom_level: int, list_len: int, client_width: int) -> int {
    ceil_div(list_len, columns_at(zoom_level, client_width)) * cell_size_at(zoom_level)
}

/// The largest scroll offset: what the list is taller than the window.
pub open spec fn max_scroll_at(
    zoom_level: int,
    list_len: int,
    client_width: int,
    client_height: int,
) -> int {
    let total = total_height_at(zoom_level, list_len, client_width);
    if total >= client_height {
        total - client_height
    } else {
        0
    }
}

/// A computed layout, in unbounded integers.
pub struct Layout {
    pub scroll_pos: int,
    pub visible_start: int,
    pub visible_count: int,
    pub cell_size: int,
    pub grid_columns: int,
    pub total_height: int,
}

/// The layout for a list, a window, a zoom level and a wanted scroll offset.
/// The offset is first brought into range. The visible window starts with
/// the row at the offset and spans the rows that fit, rounded up, plus the
/// slack; it is then cut to the list: a start past the end moves to the last
/// item, and the count ends with the list.
pub open spec fn layout_of(
    list_len: int,
    client_width: int,
    client_height: int,
    zoom_level: int,
    scroll_pos: int,
) -> Layout {
    let cell = cell_size_at(zoom_level);
    let cols = columns_at(zoom_level, client_width);
    let total = total_height_at(zoom_level, list_len, client_width);
    let max_scroll = max_scroll_at(zoom_level, list_len, client_width, client_height);
    let scroll = if scroll_pos > max_scroll {
        max_scroll
    } else {
        scroll_pos
    };
    let rows = ceil_div(available_height_at(zoom_level, client_height), cell) + 2;
    let raw_start = (scroll / cell) * cols;
    let raw_count = rows * cols;
    let start = if raw_start >= list_len {
        if list_len > 0 {
            list_len - 1
        } else {
            0
        }
    } else {
        raw_start
    };
    let count = if start + raw_count > list_len {
        list_len - start
    } else {
        raw_count
    };
    Layout {
        scroll_pos: scroll,
        visible_start: start,
        visible_count: count,
        cell_size: cell,
        grid_columns: cols,
        total_height: total,
    }
}

/// The part of the list that is on screen, and the geometry it follows from.
#[derive(Debug, Clone, Copy, PartialEq, Eq, Structural)]
pub struct ViewportState {
    pub scroll_pos: u64,
    pub visible_start: usize,
    pub visible_count: usize,
    pub cell_size: u64,
    pub grid_columns: u64,
    pub total_height: u64,
}

impl ViewportState {
    /// This state in unbounded integers.
    pub open spec fn model(&self) -> Layout {
        Layout {
            scroll_pos: self.scroll_pos as int,
            visible_start: self.visible_start as int,
            visible_count: self.visible_count as int,
            cell_size: self.cell_size as int,
            grid_columns: self.grid_columns as int,
            total_height: self.total_height as int,
        }
    }
}

/// Dividing a natural number by a positive one does not make it larger.
pub proof fn lemma_quotient_at_most(x: int, d: int)
    requires
        x >= 0,
        d >= 1,
    ensures
        0 <= x / d <= x,
{
    vstd::arithmetic::div_mod::lemma_div_pos_is_pos(x, d);
    vstd::arithmetic::div_mod::lemma_div_is_ordered_by_denominator(x, 1, d);
    vstd::arithmetic::div_mod::lemma_div_basics(x);
}

/// A product of bounded natural numbers is bounded by the product of the
/// bounds.
pub proof fn lemma_product_at_most(a: int, b: int, a_max: int, b_max: int)
    requires
        0 <= a <= a_max,
        0 <= b <= b_max,
    ensures
        0 <= a * b <= a_max * b_max,
{
    assert(0 <= a * b <= a_max * b_max) by (nonlinear_arith)
        requires
            0 <= a <= a_max,
            0 <= b <= b_max,
    ;
}

/// The height of a row at a zoom level.
pub fn cell_size_for(zoom_level: i32) -> (cell: u64)
    ensures
        cell == cell_size_at(zoom_level as int),
        20 <= cell <= 376,
{
    if zoom_level == 0 {
        ITEM_HEIGHT
    } else {
        let icon: u64 = get_icon_size_from_zoom_level(zoom_level) as u64;
        icon + CELL_EXTRA
    }
}

/// The number of items in a row at a zoom level in a window of the given
/// width.
pub fn columns_for(zoom_level: i32, client_width: u32) -> (cols: u64)
    ensures
        cols == columns_at(zoom_level as int, client_width as int),
        1 <= cols <= 0xFFFF_FFFF,
{
    if zoom_level == 0 {
        1
    } else {
        let cell = cell_size_for(zoom_level);
        let width: u64 = client_width as u64;
        proof {
            lemma_quotient_at_most(width as int, cell as int);
        }
        let fit: u64 = width / cell;
        if fit >= 1 {
            fit
        } else {
            1
        }
    }
}

/// The height of the whole list.
pub fn total_height_for(zoom_level: i32, list_len: usize, client_width: u32) -> (total: u64)
    requires
        list_len <= MAX_LIST_LEN,
    ensures
        total == total_height_at(zoom_level as int, list_len as int, client_width as int),
        total <= 0x2_0000_0000 * 376,
{
    let cell = cell_size_for(zoom_level);
    let cols = columns_for(zoom_level, client_width);
    let len: u64 = list_len as u64;
    proof {
        lemma_quotient_at_most(len + cols - 1, cols as int);
    }
    let total_rows: u64 = (len + cols - 1) / cols;
    proof {
        lemma_product_at_most(total_rows as int, cell as int, 0x2_0000_0000, 376);
    }
    total_rows * cell
}

/// The number of rows the visible window spans: those that fit into the
/// height left for rows, rounded up, and the slack.
pub fn window_rows_for(zoom_level: i32, client_height: u32) -> (rows: u64)
    ensures
        rows == ceil_div(
            available_height_at(zoom_level as int, client_height as int),
            cell_size_at(zoom_level as int),
        ) + 2,
        2 <= rows <= 0x1_0000_0200,
{
    let cell = cell_size_for(zoom_level);
    let height: u64 = client_height as u64;
    let available: u64 = if zoom_level == 0 {
        if height >= HEADER_HEIGHT {
            height - HEADER_HEIGHT
        } else {
            0
        }
    } else {
        height
    };
    proof {
        lemma_quotient_at_most(available + cell - 1, cell as int);
    }
    (available + cell - 1) / cell + SLACK_ROWS
}

/// Cuts a window of `raw_count` items from `raw_start` on to a list: a
/// start past the end moves to the last item, and the count ends with the
/// list.
fn cut_to_list(raw_start: u128, raw_count: u128, list_len: usize) -> (window: (usize, usize))
    ensures
        window.0 == (if raw_start >= list_len {
            if list_len > 0 {
                list_len - 1
            } else {
                0
            }
        } else {
            raw_start as int
        }),
        window.1 == (if window.0 + raw_count > list_len {
            list_len - window.0
        } else {
            raw_count as int
        }),
        window.0 + window.1 <= list_len,
{
    let len: u128 = list_len as u128;
    let start: usize = if raw_start >= len {
        if list_len > 0 {
            list_len - 1
        } else {
            0
        }
    } else {
        raw_start as usize
    };
    let count: usize = if raw_count > len - start as u128 {
        list_len - start
    } else {
        raw_count as usize
    };
    (start, count)
}

/// Computes the layout for a list, a window, a zoom level and a wanted
/// scroll offset.
pub fn compute_layout(
    list_len: usize,
    client_width: u32,
    client_height: u32,
    zoom_level: i32,
    scroll_pos: u64,
) -> (state: ViewportState)
    requires
        list_len <= MAX_LIST_LEN,
    ensures
        state.model() == layout_of(
            list_len as int,
            client_width as int,
            client_height as int,
            zoom_level as int,
            scroll_pos as int,
        ),
        state.visible_start + state.visible_count <= list_len,
        state.scroll_pos <= scroll_pos,
        state.scroll_pos <= max_scroll_at(
            zoom_level as int,
            list_len as int,
            client_width as int,
            client_height as int,
        ),
{
    let cell = cell_size_for(zoom_level);
    let cols = columns_for(zoom_level, client_width);
    let total = total_height_for(zoom_level, list_len, client_width);
    let rows = window_rows_for(zoom_level, client_height);
    let height: u64 = client_height as u64;
    let max_scroll: u64 = if total >= height {
        total - height
    } else {
        0
    };
    let scroll: u64 = if scroll_pos > max_scroll {
        max_scroll
    } else {
        scroll_pos
    };
    proof {
        lemma_quotient_at_most(scroll as int, cell as int);
    }
    let first_row: u64 = scroll / cell;
    proof {
        lemma_product_at_most(first_row as int, cols as int, 0xFFFF_FFFF_FFFF_FFFF, 0xFFFF_FFFF);
        lemma_product_at_most(rows as int, cols as int, 0x1_0000_0200, 0xFFFF_FFFF);
    }
    let raw_start: u128 = (first_row as u128) * (cols as u128);
    let raw_count: u128 = (rows as u128) * (cols as u128);
    let (start, count) = cut_to_list(raw_start, raw_count, list_len);
    ViewportState {
        scroll_pos: scroll,
        visible_start: start,
        visible_count: count,
        cell_size: cell,
        grid_columns: cols,
        total_height: total,
    }
}

/// The scroll offset at which the row of an item is the topmost one.
pub open spec fn scroll_for_item(item: int, zoom_level: int, client_width: int) -> int {
    (item / columns_at(zoom_level, client_width)) * cell_size_at(zoom_level)
}

/// Computes the scroll offset at which the row of an item is the topmost.
pub fn scroll_offset_for_item(item: usize, client_width: u32, zoom_level: i32) -> (offset: u64)
    requires
        item <= MAX_LIST_LEN,
    ensures
        offset == scroll_for_item(item as int, zoom_level as int, client_width as int),
        offset <= 0xFFFF_FFFF * 376,
{
    let cell = cell_size_for(zoom_level);
    let cols = columns_for(zoom_level, client_width);
    proof {
        lemma_quotient_at_most(item as int, cols as int);
    }
    let row: u64 = item as u64 / cols;
    proof {
        lemma_product_at_most(row as int, cell as int, 0xFFFF_FFFF, 376);
    }
    row * cell
}

/// The layout after a change of zoom level that keeps an item on top: the
/// layout of the new level at the offset of the item's row.
pub fn rezoom(
    list_len: usize,
    client_width: u32,
    client_height: u32,
    top_item: usize,
    zoom_level: i32,
) -> (state: ViewportState)
    requires
        list_len <= MAX_LIST_LEN,
        top_item <= MAX_LIST_LEN,
    ensures
        state.model() == layout_of(
            list_len as int,
            client_width as int,
            client_height as int,
            zoom_level as int,
            scroll_for_item(top_item as int, zoom_level as int, client_width as int),
        ),
        state.visible_start + state.visible_count <= list_len,
{
    let target = scroll_offset_for_item(top_item, client_width, zoom_level);
    compute_layout(list_len, client_width, client_height, zoom_level, target)
}

/// An item that is put on top by its scroll offset is in the topmost row of
/// the layout, unless the end of the list stops the scrolling before: the
/// window starts with the first item of that row, which is the item itself
/// where a row holds one item.
pub proof fn lemma_zoom_keeps_top_item(
    list_len: int,
    client_width: int,
    client_height: int,
    zoom_level: int,
    item: int,
)
    requires
        0 <= item < list_len,
        0 <= client_width,
        0 <= client_height,
        scroll_for_item(item, zoom_level, client_width) <= max_scroll_at(
            zoom_level,
            list_len,
            client_width,
            client_height,
        ),
    ensures
        ({
            let layout = layout_of(
                list_len,
                client_width,
                client_height,
                zoom_level,
                scroll_for_item(item, zoom_level, client_width),
            );
            let cols = columns_at(zoom_level, client_width);
            &&& layout.scroll_pos == scroll_for_item(item, zoom_level, client_width)
            &&& layout.visible_start == (item / cols) * cols
            &&& layout.visible_start <= item < layout.visible_start + cols
            &&& cols == 1 ==> layout.visible_start == item
            &&& layout.visible_count >= 1
        }),
{
    let cell = cell_size_at(zoom_level);
    let cols = columns_at(zoom_level, client_width);
    let row = item / cols;
    let scroll = scroll_for_item(item, zoom_level, client_width);
    assert(cell >= 20);
    assert(cols >= 1);
    vstd::arithmetic::div_mod::lemma_fundamental_div_mod(item, cols);
    vstd::arithmetic::div_mod::lemma_mod_bound(item, cols);
    assert(row * cols == cols * row) by (nonlinear_arith);
    assert(row * cols <= item < row * cols + cols);
    assert((row * cell) / cell == row) by (nonlinear_arith)
        requires
            cell > 0,
    ;
    let rows = ceil_div(available_height_at(zoom_level, client_height), cell) + 2;
    assert(ceil_div(available_height_at(zoom_level, client_height), cell) >= 0) by {
        lemma_quotient_at_most(available_height_at(zoom_level, client_height) + cell - 1, cell);
    }
    assert(rows * cols >= 1) by (nonlinear_arith)
        requires
            rows >= 2,
            cols >= 1,
    ;
}

/// Where the end of the list stops the scrolling before the wanted item is
/// on top, the layout rests at the largest scroll offset.
pub proof fn lemma_zoom_clamps_at_end(
    list_len: int,
    client_width: int,
    client_height: int,
    zoom_level: int,
    item: int,
)
    requires
        scroll_for_item(item, zoom_level, client_width) > max_scroll_at(
            zoom_level,
            list_len,
            client_width,
            client_height,
        ),
    ensures
        layout_of(
            list_len,
            client_width,
            client_height,
            zoom_level,
            scroll_for_item(item, zoom_level, client_width),
        ).scroll_pos == max_scroll_at(zoom_level, list_len, client_width, client_height),
{
}

/// A layout stays as it is when it is computed again at its own scroll
/// offset.
pub proof fn lemma_layout_is_stable(
    list_len: int,
    client_width: int,
    client_height: int,
    zoom_level: int,
    scroll_pos: int,
)
    ensures
        ({
            let layout = layout_of(list_len, client_width, client_height, zoom_level, scroll_pos);
            layout_of(list_len, client_width, client_height, zoom_level, layout.scroll_pos)
                == layout
        }),
{
}

/// The visible window of a layout lies inside the list, and its scroll
/// offset between zero and the largest offset.
pub proof fn lemma_layout_within_list(
    list_len: int,
    client_width: int,
    client_height: int,
    zoom_level: int,
    scroll_pos: int,
)
    requires
        0 <= list_len,
        0 <= client_width,
        0 <= client_height,
        0 <= scroll_pos,
    ensures
        ({
            let layout = layout_of(list_len, client_width, client_height, zoom_level, scroll_pos);
            &&& 0 <= layout.visible_start
            &&& 0 <= layout.visible_count
            &&& layout.visible_start + layout.visible_count <= list_len
            &&& 0 <= layout.scroll_pos <= max_scroll_at(
                zoom_level,
                list_len,
                client_width,
                client_height,
            )
            &&& layout.scroll_pos <= scroll_pos
        }),
{
    let cell = cell_size_at(zoom_level);
    let cols = columns_at(zoom_level, client_width);
    let layout = layout_of(list_len, client_width, client_height, zoom_level, scroll_pos);
    assert(cell >= 20);
    assert(cols >= 1);
    lemma_quotient_at_most(layout.scroll_pos, cell);
    lemma_quotient_at_most(available_height_at(zoom_level, client_height) + cell - 1, cell);
    let rows = ceil_div(available_height_at(zoom_level, client_height), cell) + 2;
    lemma_product_at_most(0, 0, layout.scroll_pos / cell, cols);
    lemma_product_at_most(0, 0, rows, cols);
}

/// What the scroll bar or the keyboard asks for.
#[derive(Debug, Clone, Copy, PartialEq, Eq, Structural)]
pub enum ScrollRequest {
    LineUp,
    LineDown,
    PageUp,
    PageDown,
    /// The thumb is being dragged to this offset.
    ThumbTrack { offset: u64 },
    /// The thumb was released at this offset.
    ThumbPosition { offset: u64 },
    Top,
    Bottom,
    /// The scroll bar was let go.
    EndScroll,
}

/// A value brought into the range from zero to `max`.
pub open spec fn clamp_offset(value: int, max: int) -> int {
    if value < 0 {
        0
    } else if value > max {
        max
    } else {
        value
    }
}

/// The offset a request asks for, before it is brought into range: a line
/// is one row, a page the height of the window.
pub open spec fn requested_offset(
    request: ScrollRequest,
    scroll_pos: int,
    unit: int,
    client_height: int,
    max_scroll: int,
) -> int {
    match request {
        ScrollRequest::LineUp => scroll_pos - unit,
        ScrollRequest::LineDown => scroll_pos + unit,
        ScrollRequest::PageUp => scroll_pos - client_height,
        ScrollRequest::PageDown => scroll_pos + client_height,
        ScrollRequest::ThumbTrack { offset } => offset as int,
        ScrollRequest::ThumbPosition { offset } => offset as int,
        ScrollRequest::Top => 0,
        ScrollRequest::Bottom => max_scroll,
        ScrollRequest::EndScroll => scroll_pos,
    }
}

/// The scroll offset after a request, between zero and the largest offset.
pub fn scroll_target(
    request: ScrollRequest,
    scroll_pos: u64,
    unit: u64,
    client_height: u32,
    max_scroll: u64,
) -> (target: u64)
    ensures
        target == clamp_offset(
            requested_offset(
                request,
                scroll_pos as int,
                unit as int,
                client_height as int,
                max_scroll as int,
            ),
            max_scroll as int,
        ),
        target <= max_scroll,
{
    let page: u64 = client_height as u64;
    let wanted: u64 = match request {
        ScrollRequest::LineUp => scroll_pos.saturating_sub(unit),
        ScrollRequest::LineDown => scroll_pos.saturating_add(unit),
        ScrollRequest::PageUp => scroll_pos.saturating_sub(page),
        ScrollRequest::PageDown => scroll_pos.saturating_add(page),
        ScrollRequest::ThumbTrack { offset } => offset,
        ScrollRequest::ThumbPosition { offset } => offset,
        ScrollRequest::Top => 0,
        ScrollRequest::Bottom => max_scroll,
        ScrollRequest::EndScroll => scroll_pos,
    };
    if wanted > max_scroll {
        max_scroll
    } else {
        wanted
    }
}

/// The scroll offset after moving by a number of lines, down for a positive
/// number, between zero and the largest offset.
pub fn scroll_by_lines(scroll_pos: u64, lines: i32, unit: u64, max_scroll: u64) -> (target: u64)
    ensures
        target == clamp_offset(scroll_pos + lines * unit, max_scroll as int),
        target <= max_scroll,
{
    if lines >= 0 {
        proof {
            lemma_product_at_most(lines as int, unit as int, 0x7FFF_FFFF, 0xFFFF_FFFF_FFFF_FFFF);
        }
        let delta: u128 = (lines as u128) * (unit as u128);
        let wanted: u128 = scroll_pos as u128 + delta;
        if wanted > max_scroll as u128 {
            max_scroll
        } else {
            wanted as u64
        }
    } else {
        let back: u128 = (-(lines as i64)) as u128;
        proof {
            lemma_product_at_most(back as int, unit as int, 0x8000_0000, 0xFFFF_FFFF_FFFF_FFFF);
            assert(lines * unit == -(back * unit)) by (nonlinear_arith)
                requires
                    back == -lines,
            ;
        }
        let delta: u128 = back * (unit as u128);
        if delta >= scroll_pos as u128 {
            0
        } else {
            let wanted: u64 = scroll_pos - (delta as u64);
            if wanted > max_scroll {
                max_scroll
            } else {
                wanted
            }
        }
    }
}

} // verus!
