//! The state of the browser and the operations of its interface thread.
//! Each operation changes the state and says what is left to do outside:
//! which jobs to cancel, what to repaint, whether the thumbnail queue is to
//! be reconciled.

use vstd::prelude::*;
use crate::cache::{entries_after_put, lookup, CacheKey, ThumbnailCache};
use crate::columns::{
    next_sort_order,
    order_after_click,
    state_with_order,
    with_sort_order,
    ColumnType,
    SortOrder,
    SortState,
};
use crate::config::{lowercase_of, AppConfig, ThumbnailBackground, ThumbnailStrategy};
use crate::file_result::FileResult;
use crate::list_file::{copy_entries, found_in, lemma_matching_is_shorter, search_entries};
use crate::order::{sort_entries, sorted_from};
use crate::text::{append, decimal_digits, decimal_text};
use crate::search::{SearchCoordinator, SearchDispatch, MAX_RESULTS};
use crate::thumbnail::{
    desired_set,
    reconciled,
    to_cancel,
    to_enqueue,
    ReconcilePlan,
    ThumbnailTaskManager,
};
use crate::viewport::{
    clamp_offset,
    clamp_zoom_level,
    clamped_zoom,
    compute_layout,
    get_icon_size_from_zoom_level,
    get_view_mode_from_zoom_level,
    get_zoom_level_from_view_mode,
    icon_size_at,
    layout_of,
    lemma_product_at_most,
    lemma_quotient_at_most,
    max_scroll_at,
    requested_offset,
    rezoom,
    scroll_by_lines,
    scroll_for_item,
    scroll_offset_for_item,
    scroll_target,
    view_mode_at,
    zoom_level_of,
    ScrollRequest,
    HEADER_HEIGHT,
    MAX_LIST_LEN,
    ViewMode,
    ViewportState,
};

verus! {

/// How many thumbnails the cache holds.
pub const THUMBNAIL_CACHE_CAPACITY: usize = 500;

/// What is left to do outside after an operation.
pub struct Effects {
    /// Jobs whose cancellation flag is to be set.
    pub cancelled_jobs: Vec<usize>,
    /// Ask for a reconciliation of the thumbnail queue.
    pub recompute_thumbnails: bool,
    /// Bring the scroll bar in line with the viewport.
    pub update_scrollbar: bool,
    /// Repaint the list.
    pub repaint: bool,
}

/// A rectangle in the coordinates of the list window.
#[derive(Debug, Clone, Copy, PartialEq, Eq, Structural)]
pub struct ItemRect {
    pub left: i64,
    pub top: i64,
    pub right: i64,
    pub bottom: i64,
}

/// A list that was loaded from a file, while it is shown in place of the
/// results of a search.
pub struct ListMode {
    pub is_list_mode: bool,
    /// The name of the file the list came from.
    pub current_list_name: Option<String>,
    /// The whole list, of which a search within it shows a part.
    pub original_list_data: Vec<FileResult>,
}

/// The state owned by the interface thread.
pub struct Browser {
    pub list_data: Vec<FileResult>,
    pub viewport: ViewportState,
    pub client_width: u32,
    pub client_height: u32,
    pub zoom_level: i32,
    pub view_mode: ViewMode,
    pub selected_view_size: u32,
    pub selected_index: Option<usize>,
    pub is_scrollbar_dragging: bool,
    pub config: AppConfig,
    pub sort_state: Option<SortState>,
    pub list_mode: ListMode,
    pub search: SearchCoordinator,
    pub thumbnail_cache: ThumbnailCache,
    pub thumbnail_task_manager: ThumbnailTaskManager,
}

impl Browser {
    /// The layout of the current list, window and zoom level at a scroll
    /// offset.
    pub open spec fn layout_at(&self, scroll_pos: int) -> crate::viewport::Layout {
        layout_of(
            self.list_data@.len() as int,
            self.client_width as int,
            self.client_height as int,
            self.zoom_level as int,
            scroll_pos,
        )
    }

    /// The largest scroll offset of the current layout.
    pub open spec fn max_scroll(&self) -> int {
        max_scroll_at(
            self.zoom_level as int,
            self.list_data@.len() as int,
            self.client_width as int,
            self.client_height as int,
        )
    }

    /// The state is consistent: the list is no longer than a layout can be
    /// computed for, view and icon
    /// size follow from the zoom level, the viewport is the layout at its
    /// own scroll offset, the selection lies in the list, and the cache is
    /// within its limit.
    pub open spec fn wf(&self) -> bool {
        &&& self.list_data@.len() <= MAX_LIST_LEN
        &&& 0 <= self.zoom_level <= 14
        &&& self.view_mode == view_mode_at(self.zoom_level as int)
        &&& self.selected_view_size == icon_size_at(self.zoom_level as int)
        &&& self.viewport.model() == self.layout_at(self.viewport.scroll_pos as int)
        &&& self.viewport.visible_start + self.viewport.visible_count <= self.list_data@.len()
        &&& (self.selected_index matches Some(i) ==> i < self.list_data@.len())
        &&& self.thumbnail_cache.wf()
        &&& self.list_mode.original_list_data@.len() <= MAX_LIST_LEN
    }

    /// The desired set of the current strategy and viewport.
    pub open spec fn desired(&self) -> Set<usize> {
        desired_set(
            self.config.thumbnail_strategy,
            self.viewport.visible_start,
            self.viewport.visible_count,
            self.list_data@.len() as usize,
        )
    }

    /// A browser with an empty list in the details view.
    pub fn new(config: AppConfig) -> (browser: Self)
        ensures
            browser.wf(),
            browser.config == config,
            browser.list_data@.len() == 0,
            browser.zoom_level == 0,
            browser.client_width == 0,
            browser.client_height == 0,
            browser.viewport.scroll_pos == 0,
            browser.selected_index is None,
            browser.sort_state is None,
            !browser.list_mode.is_list_mode,
            browser.list_mode.current_list_name is None,
            browser.list_mode.original_list_data@.len() == 0,
            !browser.is_scrollbar_dragging,
            browser.search.generation == 0,
            browser.thumbnail_cache.limit() == THUMBNAIL_CACHE_CAPACITY,
            browser.thumbnail_cache.entries() == Seq::<(CacheKey, isize)>::empty(),
            browser.thumbnail_task_manager.queued() == Set::<usize>::empty(),
    {
        Browser {
            list_data: Vec::new(),
            viewport: compute_layout(0, 0, 0, 0, 0),
            client_width: 0,
            client_height: 0,
            zoom_level: 0,
            view_mode: ViewMode::Details,
            selected_view_size: 0,
            selected_index: None,
            is_scrollbar_dragging: false,
            config,
            sort_state: None,
            list_mode: ListMode {
                is_list_mode: false,
                current_list_name: None,
                original_list_data: Vec::new(),
            },
            search: SearchCoordinator::new(),
            thumbnail_cache: ThumbnailCache::new(THUMBNAIL_CACHE_CAPACITY),
            thumbnail_task_manager: ThumbnailTaskManager::new(),
        }
    }

    /// Whether a search can be submitted.
    pub fn can_submit_search(&self) -> (ok: bool)
        ensures
            ok == self.search.ready(),
    {
        self.search.can_submit()
    }

    /// Submits a query: the request before it is cancelled and the new one
    /// carries the next generation. Nothing else changes.
    pub fn submit_search(&mut self, query: String) -> (dispatch: SearchDispatch)
        requires
            old(self).wf(),
            old(self).search.ready(),
        ensures
            final(self).wf(),
            final(self).search.generation == old(self).search.generation + 1,
            final(self).search.pending_query@ == query@,
            dispatch.request.generation == final(self).search.generation,
            dispatch.request.query@ == query@,
            dispatch.cancel_previous,
            dispatch.kill_timer == old(self).search.timer_active,
            !final(self).search.timer_active,
            final(self).search.search_disabled == old(self).search.search_disabled,
            final(self).list_data == old(self).list_data,
            final(self).viewport == old(self).viewport,
            final(self).client_width == old(self).client_width,
            final(self).client_height == old(self).client_height,
            final(self).zoom_level == old(self).zoom_level,
            final(self).selected_index == old(self).selected_index,
            final(self).is_scrollbar_dragging == old(self).is_scrollbar_dragging,
            final(self).config == old(self).config,
            final(self).sort_state == old(self).sort_state,
            final(self).list_mode == old(self).list_mode,
            final(self).thumbnail_cache == old(self).thumbnail_cache,
            final(self).thumbnail_task_manager == old(self).thumbnail_task_manager,
    {
        self.search.search_now(query)
    }

    /// Cancels every thumbnail job and drops every cached thumbnail: what
    /// is done whenever the list, the zoom level or the way thumbnails are
    /// made changes.
    fn reset_thumbnails(&mut self) -> (cancelled: Vec<usize>)
        requires
            old(self).thumbnail_cache.wf(),
        ensures
            final(self).thumbnail_cache.wf(),
            final(self).thumbnail_cache.limit() == old(self).thumbnail_cache.limit(),
            final(self).thumbnail_cache.entries() == Seq::<(CacheKey, isize)>::empty(),
            final(self).thumbnail_task_manager.queued() == Set::<usize>::empty(),
            cancelled@.no_duplicates(),
            forall|i: usize|
                cancelled@.contains(i) <==> old(self).thumbnail_task_manager.queued().contains(i),
            final(self).list_data == old(self).list_data,
            final(self).viewport == old(self).viewport,
            final(self).client_width == old(self).client_width,
            final(self).client_height == old(self).client_height,
            final(self).zoom_level == old(self).zoom_level,
            final(self).view_mode == old(self).view_mode,
            final(self).selected_view_size == old(self).selected_view_size,
            final(self).selected_index == old(self).selected_index,
            final(self).is_scrollbar_dragging == old(self).is_scrollbar_dragging,
            final(self).config == old(self).config,
            final(self).sort_state == old(self).sort_state,
            final(self).list_mode == old(self).list_mode,
            final(self).search == old(self).search,
    {
        let cancelled = self.thumbnail_task_manager.cancel_all_tasks();
        self.thumbnail_cache.clear();
        cancelled
    }

    /// Takes in a search result. A result of another generation than the
    /// current one is discarded and nothing changes. The current one
    /// replaces the list, cut to the most results shown; the first item is
    /// selected; the view returns to the top unless the scroll bar is being
    /// dragged; every thumbnail job is cancelled and the cache emptied.
    pub fn handle_search_results(&mut self, results: Vec<FileResult>, generation: u64) -> (applied:
        Option<Effects>)
        requires
            old(self).wf(),
        ensures
            final(self).wf(),
            applied is Some <==> generation == old(self).search.generation,
            applied is None ==> *final(self) == *old(self),
            applied is Some ==> {
                let effects = applied->0;
                let kept = if results@.len() > MAX_RESULTS {
                    MAX_RESULTS as int
                } else {
                    results@.len() as int
                };
                let base = if old(self).is_scrollbar_dragging {
                    old(self).viewport.scroll_pos as int
                } else {
                    0
                };
                &&& final(self).list_data@ == results@.subrange(0, kept)
                &&& final(self).selected_index == (if kept > 0 {
                    Some(0usize)
                } else {
                    None
                })
                &&& final(self).viewport.model() == final(self).layout_at(base)
                &&& final(self).thumbnail_cache.entries() == Seq::<(CacheKey, isize)>::empty()
                &&& final(self).thumbnail_task_manager.queued() == Set::<usize>::empty()
                &&& effects.cancelled_jobs@.no_duplicates()
                &&& forall|i: usize|
                    effects.cancelled_jobs@.contains(i) <==> old(
                        self,
                    ).thumbnail_task_manager.queued().contains(i)
                &&& effects.recompute_thumbnails
                &&& effects.update_scrollbar
                &&& effects.repaint
                &&& final(self).client_width == old(self).client_width
                &&& final(self).client_height == old(self).client_height
                &&& final(self).zoom_level == old(self).zoom_level
                &&& final(self).config == old(self).config
                &&& final(self).sort_state == old(self).sort_state
                &&& final(self).list_mode == old(self).list_mode
                &&& final(self).search == old(self).search
                &&& final(self).is_scrollbar_dragging == old(self).is_scrollbar_dragging
            },
    {
        if !self.search.accepts(generation) {
            return None;
        }
        let mut results = results;
        let ghost delivered = results@;
        if results.len() > MAX_RESULTS {
            results.truncate(MAX_RESULTS);
        } else {
            assert(delivered.subrange(0, delivered.len() as int) =~= delivered);
        }
        self.list_data = results;
        self.selected_index = if self.list_data.len() > 0 {
            Some(0)
        } else {
            None
        };
        let base: u64 = if self.is_scrollbar_dragging {
            self.viewport.scroll_pos
        } else {
            0
        };
        self.viewport = compute_layout(
            self.list_data.len(),
            self.client_width,
            self.client_height,
            self.zoom_level,
            base,
        );
        let cancelled_jobs = self.reset_thumbnails();
        Some(
            Effects {
                cancelled_jobs,
                recompute_thumbnails: true,
                update_scrollbar: true,
                repaint: true,
            },
        )
    }

    /// The item at the top of the visible window; zero for an empty list.
    pub open spec fn top_item(&self) -> int {
        if self.list_data@.len() == 0 {
            0
        } else {
            self.viewport.visible_start as int
        }
    }

    /// What a change to another zoom level does: view and icon size follow
    /// the level, every thumbnail job is cancelled and the cache emptied,
    /// and the list is laid out at the scroll offset that keeps the item
    /// that was on top in the topmost row. List, window, selection,
    /// settings and search stay as they were.
    pub open spec fn zoomed_from(&self, before: Browser, level: int, effects: Effects) -> bool {
        &&& self.zoom_level == level
        &&& self.view_mode == view_mode_at(level)
        &&& self.selected_view_size == icon_size_at(level)
        &&& self.viewport.model() == self.layout_at(
            scroll_for_item(before.top_item(), level, before.client_width as int),
        )
        &&& self.thumbnail_cache.entries() == Seq::<(CacheKey, isize)>::empty()
        &&& self.thumbnail_cache.limit() == before.thumbnail_cache.limit()
        &&& self.thumbnail_task_manager.queued() == Set::<usize>::empty()
        &&& effects.cancelled_jobs@.no_duplicates()
        &&& forall|i: usize|
            effects.cancelled_jobs@.contains(i) <==> before.thumbnail_task_manager.queued().contains(
                i,
            )
        &&& effects.recompute_thumbnails
        &&& effects.update_scrollbar
        &&& effects.repaint
        &&& self.list_data == before.list_data
        &&& self.client_width == before.client_width
        &&& self.client_height == before.client_height
        &&& self.selected_index == before.selected_index
        &&& self.config == before.config
        &&& self.sort_state == before.sort_state
        &&& self.list_mode == before.list_mode
        &&& self.search == before.search
        &&& self.is_scrollbar_dragging == before.is_scrollbar_dragging
    }

    /// Changes the zoom level, brought into its range first. The same level
    /// changes nothing. Another level changes view and icon size, cancels
    /// every thumbnail job, empties the cache and lays the list out at the
    /// scroll offset that keeps the topmost item on top.
    pub fn set_zoom_level(&mut self, zoom_level: i32) -> (changed: Option<Effects>)
        requires
            old(self).wf(),
        ensures
            final(self).wf(),
            changed is Some <==> clamped_zoom(zoom_level as int) != old(self).zoom_level,
            changed is None ==> *final(self) == *old(self),
            changed is Some ==> final(self).zoomed_from(
                *old(self),
                clamped_zoom(zoom_level as int),
                changed->0,
            ),
    {
        let level = clamp_zoom_level(zoom_level);
        if self.zoom_level == level {
            return None;
        }
        let top: usize = if self.list_data.len() == 0 {
            0
        } else {
            self.viewport.visible_start
        };
        self.zoom_level = level;
        self.view_mode = get_view_mode_from_zoom_level(level);
        self.selected_view_size = get_icon_size_from_zoom_level(level);
        let cancelled_jobs = self.reset_thumbnails();
        self.viewport = rezoom(
            self.list_data.len(),
            self.client_width,
            self.client_height,
            top,
            level,
        );
        Some(
            Effects {
                cancelled_jobs,
                recompute_thumbnails: true,
                update_scrollbar: true,
                repaint: true,
            },
        )
    }

    /// Switches to a named view by way of its zoom level.
    pub fn set_view_mode(&mut self, mode: ViewMode) -> (changed: Option<Effects>)
        requires
            old(self).wf(),
        ensures
            final(self).wf(),
            changed is Some <==> zoom_level_of(mode) != old(self).zoom_level,
            changed is None ==> *final(self) == *old(self),
            changed is Some ==> final(self).zoomed_from(*old(self), zoom_level_of(mode), changed->0),
    {
        self.set_zoom_level(get_zoom_level_from_view_mode(mode))
    }

    /// Chooses the thumbnail strategy. Every job is cancelled and the cache
    /// emptied, and a reconciliation is asked for.
    pub fn set_thumbnail_strategy(&mut self, strategy: ThumbnailStrategy) -> (effects: Effects)
        requires
            old(self).wf(),
        ensures
            final(self).wf(),
            final(self).config.thumbnail_strategy == strategy,
            final(self).config.thumbnail_background == old(self).config.thumbnail_background,
            final(self).config.language == old(self).config.language,
            final(self).sort_state == old(self).sort_state,
            final(self).list_mode == old(self).list_mode,
            final(self).thumbnail_cache.entries() == Seq::<(CacheKey, isize)>::empty(),
            final(self).thumbnail_task_manager.queued() == Set::<usize>::empty(),
            effects.cancelled_jobs@.no_duplicates(),
            forall|i: usize|
                effects.cancelled_jobs@.contains(i) <==> old(
                    self,
                ).thumbnail_task_manager.queued().contains(i),
            effects.recompute_thumbnails,
            effects.repaint,
            !effects.update_scrollbar,
            final(self).list_data == old(self).list_data,
            final(self).viewport == old(self).viewport,
            final(self).zoom_level == old(self).zoom_level,
            final(self).search == old(self).search,
            final(self).client_width == old(self).client_width,
            final(self).client_height == old(self).client_height,
            final(self).selected_index == old(self).selected_index,
            final(self).is_scrollbar_dragging == old(self).is_scrollbar_dragging,
            final(self).thumbnail_cache.limit() == old(self).thumbnail_cache.limit(),
    {
        self.config.thumbnail_strategy = strategy;
        let cancelled_jobs = self.reset_thumbnails();
        Effects {
            cancelled_jobs,
            recompute_thumbnails: true,
            update_scrollbar: false,
            repaint: true,
        }
    }

    /// Chooses the thumbnail background. Every job is cancelled and the
    /// cache emptied, and a reconciliation is asked for.
    pub fn set_thumbnail_background(&mut self, background: ThumbnailBackground) -> (effects:
        Effects)
        requires
            old(self).wf(),
        ensures
            final(self).wf(),
            final(self).config.thumbnail_background == background,
            final(self).config.thumbnail_strategy == old(self).config.thumbnail_strategy,
            final(self).config.language == old(self).config.language,
            final(self).sort_state == old(self).sort_state,
            final(self).list_mode == old(self).list_mode,
            final(self).thumbnail_cache.entries() == Seq::<(CacheKey, isize)>::empty(),
            final(self).thumbnail_task_manager.queued() == Set::<usize>::empty(),
            effects.cancelled_jobs@.no_duplicates(),
            forall|i: usize|
                effects.cancelled_jobs@.contains(i) <==> old(
                    self,
                ).thumbnail_task_manager.queued().contains(i),
            effects.recompute_thumbnails,
            effects.repaint,
            !effects.update_scrollbar,
            final(self).list_data == old(self).list_data,
            final(self).viewport == old(self).viewport,
            final(self).zoom_level == old(self).zoom_level,
            final(self).search == old(self).search,
            final(self).client_width == old(self).client_width,
            final(self).client_height == old(self).client_height,
            final(self).selected_index == old(self).selected_index,
            final(self).is_scrollbar_dragging == old(self).is_scrollbar_dragging,
            final(self).thumbnail_cache.limit() == old(self).thumbnail_cache.limit(),
    {
        self.config.thumbnail_background = background;
        let cancelled_jobs = self.reset_thumbnails();
        Effects {
            cancelled_jobs,
            recompute_thumbnails: true,
            update_scrollbar: false,
            repaint: true,
        }
    }

    /// Whether the scroll bar is being dragged after a request: dragging
    /// starts with a tracked thumb and ends when the thumb is released or
    /// the scroll bar let go.
    pub open spec fn dragging_after(was_dragging: bool, request: ScrollRequest) -> bool {
        match request {
            ScrollRequest::ThumbTrack { .. } => true,
            ScrollRequest::ThumbPosition { .. } => false,
            ScrollRequest::EndScroll => false,
            _ => was_dragging,
        }
    }

    /// The scroll offset a request leads to from the current state.
    pub open spec fn offset_after(&self, request: ScrollRequest) -> int {
        clamp_offset(
            requested_offset(
                request,
                self.viewport.scroll_pos as int,
                self.viewport.cell_size as int,
                self.client_height as int,
                self.max_scroll(),
            ),
            self.max_scroll(),
        )
    }

    /// Follows a request of the scroll bar. The list is laid out at the new
    /// offset. Where the offset moved, the list is repainted, and unless
    /// the thumb is being dragged the scroll bar is updated and a
    /// reconciliation asked for. Letting go of the scroll bar only updates
    /// it.
    pub fn handle_vertical_scroll(&mut self, request: ScrollRequest) -> (effects: Effects)
        requires
            old(self).wf(),
        ensures
            final(self).wf(),
            final(self).is_scrollbar_dragging == Self::dragging_after(
                old(self).is_scrollbar_dragging,
                request,
            ),
            final(self).viewport.scroll_pos == old(self).offset_after(request),
            final(self).viewport.model() == final(self).layout_at(old(self).offset_after(request)),
            effects.cancelled_jobs@.len() == 0,
            ({
                let moved = old(self).offset_after(request) != old(self).viewport.scroll_pos;
                let dragging = final(self).is_scrollbar_dragging;
                if request == ScrollRequest::EndScroll {
                    effects.update_scrollbar && !effects.repaint && !effects.recompute_thumbnails
                } else {
                    &&& effects.repaint == moved
                    &&& effects.update_scrollbar == (moved && !dragging)
                    &&& effects.recompute_thumbnails == (moved && !dragging)
                }
            }),
            final(self).list_data == old(self).list_data,
            final(self).client_width == old(self).client_width,
            final(self).client_height == old(self).client_height,
            final(self).zoom_level == old(self).zoom_level,
            final(self).selected_index == old(self).selected_index,
            final(self).config == old(self).config,
            final(self).sort_state == old(self).sort_state,
            final(self).list_mode == old(self).list_mode,
            final(self).search == old(self).search,
            final(self).thumbnail_cache == old(self).thumbnail_cache,
            final(self).thumbnail_task_manager == old(self).thumbnail_task_manager,
    {
        match request {
            ScrollRequest::ThumbTrack { .. } => {
                self.is_scrollbar_dragging = true;
            },
            ScrollRequest::ThumbPosition { .. } => {
                self.is_scrollbar_dragging = false;
            },
            ScrollRequest::EndScroll => {
                self.is_scrollbar_dragging = false;
                return Effects {
                    cancelled_jobs: Vec::new(),
                    recompute_thumbnails: false,
                    update_scrollbar: true,
                    repaint: false,
                };
            },
            _ => {},
        }
        let max_scroll: u64 = self.viewport.total_height.saturating_sub(self.client_height as u64);
        let target = scroll_target(
            request,
            self.viewport.scroll_pos,
            self.viewport.cell_size,
            self.client_height,
            max_scroll,
        );
        let moved = target != self.viewport.scroll_pos;
        if moved {
            self.viewport = compute_layout(
                self.list_data.len(),
                self.client_width,
                self.client_height,
                self.zoom_level,
                target,
            );
        }
        let settled = moved && !self.is_scrollbar_dragging;
        Effects {
            cancelled_jobs: Vec::new(),
            recompute_thumbnails: settled,
            update_scrollbar: settled,
            repaint: moved,
        }
    }

    /// Scrolls by a number of rows, down for a positive number. Where the
    /// offset moved, the list is laid out anew and repainted, the scroll
    /// bar updated and a reconciliation asked for.
    pub fn scroll_list(&mut self, lines: i32) -> (effects: Effects)
        requires
            old(self).wf(),
        ensures
            final(self).wf(),
            final(self).viewport.scroll_pos == clamp_offset(
                old(self).viewport.scroll_pos + lines * old(self).viewport.cell_size,
                old(self).max_scroll(),
            ),
            final(self).viewport.model() == final(self).layout_at(
                final(self).viewport.scroll_pos as int,
            ),
            effects.cancelled_jobs@.len() == 0,
            effects.repaint == (final(self).viewport.scroll_pos != old(self).viewport.scroll_pos),
            effects.update_scrollbar == effects.repaint,
            effects.recompute_thumbnails == effects.repaint,
            final(self).list_data == old(self).list_data,
            final(self).client_width == old(self).client_width,
            final(self).client_height == old(self).client_height,
            final(self).zoom_level == old(self).zoom_level,
            final(self).is_scrollbar_dragging == old(self).is_scrollbar_dragging,
            final(self).selected_index == old(self).selected_index,
            final(self).config == old(self).config,
            final(self).sort_state == old(self).sort_state,
            final(self).list_mode == old(self).list_mode,
            final(self).search == old(self).search,
            final(self).thumbnail_cache == old(self).thumbnail_cache,
            final(self).thumbnail_task_manager == old(self).thumbnail_task_manager,
    {
        let max_scroll: u64 = self.viewport.total_height.saturating_sub(self.client_height as u64);
        let target = scroll_by_lines(
            self.viewport.scroll_pos,
            lines,
            self.viewport.cell_size,
            max_scroll,
        );
        let moved = target != self.viewport.scroll_pos;
        if moved {
            self.viewport = compute_layout(
                self.list_data.len(),
                self.client_width,
                self.client_height,
                self.zoom_level,
                target,
            );
        }
        Effects {
            cancelled_jobs: Vec::new(),
            recompute_thumbnails: moved,
            update_scrollbar: moved,
            repaint: moved,
        }
    }

    /// Takes in a new size of the list window and lays the list out in it,
    /// at the scroll offset it had or the nearest one in range.
    pub fn on_resize(&mut self, client_width: u32, client_height: u32) -> (effects: Effects)
        requires
            old(self).wf(),
        ensures
            final(self).wf(),
            final(self).client_width == client_width,
            final(self).client_height == client_height,
            final(self).viewport.model() == final(self).layout_at(
                old(self).viewport.scroll_pos as int,
            ),
            effects.cancelled_jobs@.len() == 0,
            effects.update_scrollbar,
            effects.repaint,
            effects.recompute_thumbnails,
            final(self).list_data == old(self).list_data,
            final(self).zoom_level == old(self).zoom_level,
            final(self).is_scrollbar_dragging == old(self).is_scrollbar_dragging,
            final(self).selected_index == old(self).selected_index,
            final(self).config == old(self).config,
            final(self).sort_state == old(self).sort_state,
            final(self).list_mode == old(self).list_mode,
            final(self).search == old(self).search,
            final(self).thumbnail_cache == old(self).thumbnail_cache,
            final(self).thumbnail_task_manager == old(self).thumbnail_task_manager,
    {
        self.client_width = client_width;
        self.client_height = client_height;
        self.viewport = compute_layout(
            self.list_data.len(),
            client_width,
            client_height,
            self.zoom_level,
            self.viewport.scroll_pos,
        );
        Effects {
            cancelled_jobs: Vec::new(),
            recompute_thumbnails: true,
            update_scrollbar: true,
            repaint: true,
        }
    }

    /// Reconciles the thumbnail queue with the viewport. In the details
    /// view nothing is loaded and nothing changes. In the grid the queued
    /// set becomes the desired set of the strategy and the visible window;
    /// the plan names the jobs to cancel and the jobs to start. The cache
    /// is not touched.
    pub fn recompute_thumbnail_queue(&mut self) -> (plan: ReconcilePlan)
        requires
            old(self).wf(),
        ensures
            final(self).wf(),
            final(self).list_data == old(self).list_data,
            final(self).viewport == old(self).viewport,
            final(self).client_width == old(self).client_width,
            final(self).client_height == old(self).client_height,
            final(self).zoom_level == old(self).zoom_level,
            final(self).is_scrollbar_dragging == old(self).is_scrollbar_dragging,
            final(self).selected_index == old(self).selected_index,
            final(self).config == old(self).config,
            final(self).sort_state == old(self).sort_state,
            final(self).list_mode == old(self).list_mode,
            final(self).search == old(self).search,
            final(self).thumbnail_cache == old(self).thumbnail_cache,
            old(self).zoom_level == 0 ==> plan.cancelled@.len() == 0 && plan.requests@.len() == 0
                && final(self).thumbnail_task_manager == old(self).thumbnail_task_manager,
            old(self).zoom_level != 0 ==> {
                let queued = old(self).thumbnail_task_manager.queued();
                let desired = old(self).desired();
                let len = old(self).list_data@.len();
                &&& final(self).thumbnail_task_manager.queued() == desired
                &&& plan.cancelled@.no_duplicates()
                &&& forall|i: usize|
                    plan.cancelled@.contains(i) <==> to_cancel(queued, desired).contains(i)
                &&& forall|i: usize|
                    (exists|j: int|
                        0 <= j < plan.requests@.len() && (
                        #[trigger] plan.requests@[j]).item_index == i) <==> to_enqueue(
                        queued,
                        desired,
                        len,
                    ).contains(i)
                &&& forall|a: int, b: int|
                    0 <= a < b < plan.requests@.len() ==> (
                    #[trigger] plan.requests@[a]).item_index < (
                    #[trigger] plan.requests@[b]).item_index
                &&& forall|j: int|
                    0 <= j < plan.requests@.len() ==> {
                        let request = #[trigger] plan.requests@[j];
                        &&& request.item_index < len
                        &&& request.file_path@ == old(self).list_data@[request.item_index as int].path@
                        &&& request.size == old(self).selected_view_size
                        &&& request.background == old(self).config.thumbnail_background
                    }
            },
    {
        if self.zoom_level == 0 || self.selected_view_size == 0 {
            return ReconcilePlan { cancelled: Vec::new(), requests: Vec::new() };
        }
        proof {
            crate::thumbnail::lemma_reconciled_is_desired(
                self.thumbnail_task_manager.queued(),
                self.config.thumbnail_strategy,
                self.viewport.visible_start,
                self.viewport.visible_count,
                self.list_data@.len() as usize,
                self.list_data@.len(),
            );
        }
        self.thumbnail_task_manager.recompute_thumbnail_queue(
            self.config.thumbnail_strategy,
            self.config.thumbnail_background,
            self.viewport.visible_start,
            self.viewport.visible_count,
            self.list_data.len(),
            &self.list_data,
            self.selected_view_size,
        )
    }

    /// Takes in a rendered thumbnail. For an item of the list it is cached
    /// under the path of the item and the current pixel size, as the most
    /// recently used entry, and the item is returned for repainting. For an
    /// index outside the list nothing changes.
    pub fn on_thumbnail_ready(&mut self, item_index: usize, handle: isize) -> (repaint: Option<
        usize,
    >)
        requires
            old(self).wf(),
        ensures
            final(self).wf(),
            repaint is Some <==> item_index < old(self).list_data@.len(),
            repaint is None ==> *final(self) == *old(self),
            repaint is Some ==> repaint->0 == item_index,
            repaint is Some ==> final(self).thumbnail_cache.entries() == entries_after_put(
                old(self).thumbnail_cache.entries(),
                old(self).thumbnail_cache.limit(),
                (old(self).list_data@[item_index as int].path@, old(self).selected_view_size),
                handle,
            ),
            final(self).thumbnail_cache.limit() == old(self).thumbnail_cache.limit(),
            final(self).list_data == old(self).list_data,
            final(self).viewport == old(self).viewport,
            final(self).client_width == old(self).client_width,
            final(self).client_height == old(self).client_height,
            final(self).zoom_level == old(self).zoom_level,
            final(self).is_scrollbar_dragging == old(self).is_scrollbar_dragging,
            final(self).selected_index == old(self).selected_index,
            final(self).config == old(self).config,
            final(self).sort_state == old(self).sort_state,
            final(self).list_mode == old(self).list_mode,
            final(self).search == old(self).search,
            final(self).thumbnail_task_manager == old(self).thumbnail_task_manager,
    {
        if item_index < self.list_data.len() {
            let path = self.list_data[item_index].path.clone();
            self.thumbnail_cache.put(path, self.selected_view_size, handle);
            Some(item_index)
        } else {
            None
        }
    }

    /// The cached thumbnail of an item at the current pixel size, if any.
    /// Looking it up does not count as use.
    pub fn thumbnail_for(&self, item_index: usize) -> (found: Option<isize>)
        ensures
            item_index >= self.list_data@.len() ==> found is None,
            item_index < self.list_data@.len() ==> found == lookup(
                self.thumbnail_cache.entries(),
                (self.list_data@[item_index as int].path@, self.selected_view_size),
            ),
    {
        if item_index < self.list_data.len() {
            self.thumbnail_cache.peek(self.list_data[item_index].path.as_str(), self.selected_view_size)
        } else {
            None
        }
    }

    /// Notes that the job of an item has ended, however it ended: the item
    /// leaves the queued set.
    pub fn finish_job(&mut self, item_index: usize)
        requires
            old(self).wf(),
        ensures
            final(self).wf(),
            final(self).thumbnail_task_manager.queued() == old(
                self,
            ).thumbnail_task_manager.queued().remove(item_index),
            final(self).list_data == old(self).list_data,
            final(self).viewport == old(self).viewport,
            final(self).client_width == old(self).client_width,
            final(self).client_height == old(self).client_height,
            final(self).zoom_level == old(self).zoom_level,
            final(self).is_scrollbar_dragging == old(self).is_scrollbar_dragging,
            final(self).selected_index == old(self).selected_index,
            final(self).config == old(self).config,
            final(self).sort_state == old(self).sort_state,
            final(self).list_mode == old(self).list_mode,
            final(self).search == old(self).search,
            final(self).thumbnail_cache == old(self).thumbnail_cache,
    {
        self.thumbnail_task_manager.cleanup_task(item_index);
    }

    /// Replaces the list by one that did not come from a search, such as a
    /// sorted or a loaded one. The positions of the old list mean nothing
    /// in the new one: every thumbnail job is cancelled and the cache
    /// emptied. The first item is selected and the list laid out at the
    /// scroll offset it had, or the nearest one in range.
    pub fn replace_list(&mut self, entries: Vec<FileResult>) -> (effects: Effects)
        requires
            old(self).wf(),
            entries@.len() <= MAX_LIST_LEN,
        ensures
            final(self).wf(),
            final(self).list_data@ == entries@,
            final(self).selected_index == (if entries@.len() > 0 {
                Some(0usize)
            } else {
                None
            }),
            final(self).viewport.model() == final(self).layout_at(
                old(self).viewport.scroll_pos as int,
            ),
            final(self).thumbnail_cache.entries() == Seq::<(CacheKey, isize)>::empty(),
            final(self).thumbnail_task_manager.queued() == Set::<usize>::empty(),
            effects.cancelled_jobs@.no_duplicates(),
            forall|i: usize|
                effects.cancelled_jobs@.contains(i) <==> old(
                    self,
                ).thumbnail_task_manager.queued().contains(i),
            effects.recompute_thumbnails,
            effects.update_scrollbar,
            effects.repaint,
            final(self).client_width == old(self).client_width,
            final(self).client_height == old(self).client_height,
            final(self).zoom_level == old(self).zoom_level,
            final(self).config == old(self).config,
            final(self).sort_state == old(self).sort_state,
            final(self).list_mode == old(self).list_mode,
            final(self).search == old(self).search,
            final(self).is_scrollbar_dragging == old(self).is_scrollbar_dragging,
    {
        self.list_data = entries;
        self.selected_index = if self.list_data.len() > 0 {
            Some(0)
        } else {
            None
        };
        self.viewport = compute_layout(
            self.list_data.len(),
            self.client_width,
            self.client_height,
            self.zoom_level,
            self.viewport.scroll_pos,
        );
        let cancelled_jobs = self.reset_thumbnails();
        Effects {
            cancelled_jobs,
            recompute_thumbnails: true,
            update_scrollbar: true,
            repaint: true,
        }
    }

    /// The item that a move of the selection leads to. From no selection
    /// it is the first item. In the details view the selection moves by
    /// `direction` items and stops at the ends of the list. In the grid a
    /// step of one moves to the neighbour; any other move, and a step of
    /// one at an end of the list, goes by whole rows and stops at the ends.
    pub open spec fn selection_after(&self, direction: int) -> int {
        let len = self.list_data@.len() as int;
        let cols = self.viewport.grid_columns as int;
        match self.selected_index {
            None => 0,
            Some(current) => {
                if self.zoom_level == 0 {
                    clamp_offset(current + direction, len - 1)
                } else if direction == -1 && current > 0 {
                    current - 1
                } else if direction == 1 && current < len - 1 {
                    current + 1
                } else {
                    clamp_offset(current + direction * cols, len - 1)
                }
            },
        }
    }

    /// The scroll offset at which the selected item is in view: the offset
    /// of its row where the row lies above the window, the offset that
    /// shows the row at the bottom where it lies below, else the current
    /// one.
    pub open spec fn offset_showing(&self, item: int) -> int {
        let cell = self.viewport.cell_size as int;
        let top = (item / (self.viewport.grid_columns as int)) * cell;
        let scroll = self.viewport.scroll_pos as int;
        if top < scroll {
            top
        } else if top >= scroll + self.client_height - cell {
            top - self.client_height + cell
        } else {
            scroll
        }
    }

    /// Scrolls so that the selected item is in view. Returns whether the
    /// view moved.
    pub fn ensure_selection_visible(&mut self) -> (moved: bool)
        requires
            old(self).wf(),
        ensures
            final(self).wf(),
            old(self).selected_index is None ==> !moved && *final(self) == *old(self),
            old(self).selected_index matches Some(item) ==> final(self).viewport.model() == final(self).layout_at(old(self).offset_showing(item as int)),
            moved == (final(self).viewport != old(self).viewport),
            final(self).list_data == old(self).list_data,
            final(self).client_width == old(self).client_width,
            final(self).client_height == old(self).client_height,
            final(self).zoom_level == old(self).zoom_level,
            final(self).is_scrollbar_dragging == old(self).is_scrollbar_dragging,
            final(self).selected_index == old(self).selected_index,
            final(self).config == old(self).config,
            final(self).sort_state == old(self).sort_state,
            final(self).list_mode == old(self).list_mode,
            final(self).search == old(self).search,
            final(self).thumbnail_cache == old(self).thumbnail_cache,
            final(self).thumbnail_task_manager == old(self).thumbnail_task_manager,
    {
        match self.selected_index {
            None => false,
            Some(item) => {
                let cell: u64 = self.viewport.cell_size;
                let cols: u64 = self.viewport.grid_columns;
                let scroll: u64 = self.viewport.scroll_pos;
                let height: u64 = self.client_height as u64;
                let target = scroll_offset_for_item(item, self.client_width, self.zoom_level);
                let wanted: u64 = if target < scroll {
                    target
                } else if target as u128 + cell as u128 >= scroll as u128 + height as u128 {
                    target + cell - height
                } else {
                    scroll
                };
                let before = self.viewport;
                self.viewport = compute_layout(
                    self.list_data.len(),
                    self.client_width,
                    self.client_height,
                    self.zoom_level,
                    wanted,
                );
                self.viewport != before
            },
        }
    }

    /// Selects an item of the list and scrolls it into view. An index
    /// outside the list changes nothing.
    pub fn set_selection(&mut self, index: usize) -> (moved: bool)
        requires
            old(self).wf(),
        ensures
            final(self).wf(),
            index >= old(self).list_data@.len() ==> !moved && *final(self) == *old(self),
            index < old(self).list_data@.len() ==> final(self).selected_index == Some(index)
                && final(self).viewport.model() == final(self).layout_at(
                old(self).offset_showing(index as int),
            ),
            moved == (final(self).viewport != old(self).viewport),
            final(self).list_data == old(self).list_data,
            final(self).client_width == old(self).client_width,
            final(self).client_height == old(self).client_height,
            final(self).zoom_level == old(self).zoom_level,
            final(self).config == old(self).config,
            final(self).sort_state == old(self).sort_state,
            final(self).list_mode == old(self).list_mode,
            final(self).search == old(self).search,
            final(self).thumbnail_cache == old(self).thumbnail_cache,
            final(self).thumbnail_task_manager == old(self).thumbnail_task_manager,
    {
        if index < self.list_data.len() {
            self.selected_index = Some(index);
            self.ensure_selection_visible()
        } else {
            false
        }
    }

    /// Moves the selection and scrolls it into view. In an empty list
    /// nothing changes.
    pub fn move_selection(&mut self, direction: i32) -> (moved: bool)
        requires
            old(self).wf(),
        ensures
            final(self).wf(),
            old(self).list_data@.len() == 0 ==> !moved && *final(self) == *old(self),
            old(self).list_data@.len() > 0 ==> final(self).selected_index == Some(
                old(self).selection_after(direction as int) as usize,
            ) && final(self).viewport.model() == final(self).layout_at(
                old(self).offset_showing(old(self).selection_after(direction as int)),
            ),
            moved == (final(self).viewport != old(self).viewport),
            final(self).list_data == old(self).list_data,
            final(self).client_width == old(self).client_width,
            final(self).client_height == old(self).client_height,
            final(self).zoom_level == old(self).zoom_level,
            final(self).config == old(self).config,
            final(self).sort_state == old(self).sort_state,
            final(self).list_mode == old(self).list_mode,
            final(self).search == old(self).search,
            final(self).thumbnail_cache == old(self).thumbnail_cache,
            final(self).thumbnail_task_manager == old(self).thumbnail_task_manager,
    {
        let len: usize = self.list_data.len();
        if len == 0 {
            return false;
        }
        let last: u64 = (len - 1) as u64;
        let target: u64 = match self.selected_index {
            None => 0,
            Some(current) => {
                let here: u64 = current as u64;
                if self.zoom_level == 0 {
                    scroll_by_lines(here, direction, 1, last)
                } else if direction == -1 && current > 0 {
                    here - 1
                } else if direction == 1 && here < last {
                    here + 1
                } else {
                    scroll_by_lines(here, direction, self.viewport.grid_columns, last)
                }
            },
        };
        self.selected_index = Some(target as usize);
        self.ensure_selection_visible()
    }

    /// The rectangle of an item, where its row is in the window or within
    /// one row of it: the full width of the window in the details view, its
    /// cell in the grid.
    pub open spec fn item_rect_of(&self, item: int) -> Option<ItemRect> {
        let cell = self.viewport.cell_size as int;
        let cols = self.viewport.grid_columns as int;
        let top = (item / cols) * cell - self.viewport.scroll_pos;
        let left = (item % cols) * cell;
        if -cell <= top < self.client_height + cell {
            if self.zoom_level == 0 {
                Some(
                    ItemRect {
                        left: 0,
                        top: top as i64,
                        right: self.client_width as i64,
                        bottom: (top + cell) as i64,
                    },
                )
            } else {
                Some(
                    ItemRect {
                        left: left as i64,
                        top: top as i64,
                        right: (left + cell) as i64,
                        bottom: (top + cell) as i64,
                    },
                )
            }
        } else {
            None
        }
    }

    /// The rectangle to repaint for an item of the list, if it is near the
    /// window.
    pub fn get_item_rect(&self, item_index: usize) -> (rect: Option<ItemRect>)
        requires
            self.wf(),
        ensures
            item_index >= self.list_data@.len() ==> rect is None,
            item_index < self.list_data@.len() ==> rect == self.item_rect_of(item_index as int),
    {
        if item_index >= self.list_data.len() {
            return None;
        }
        let cell: u64 = self.viewport.cell_size;
        let cols: u64 = self.viewport.grid_columns;
        let row_top = scroll_offset_for_item(item_index, self.client_width, self.zoom_level);
        let column: u64 = item_index as u64 % cols;
        proof {
            lemma_product_at_most(column as int, cell as int, 0xFFFF_FFFF, 376);
        }
        let left: i64 = (column * cell) as i64;
        let size: i64 = cell as i64;
        let scroll: i128 = self.viewport.scroll_pos as i128;
        let top: i128 = row_top as i128 - scroll;
        if top >= -(size as i128) && top < self.client_height as i128 + size as i128 {
            let top: i64 = top as i64;
            if self.zoom_level == 0 {
                Some(ItemRect { left: 0, top, right: self.client_width as i64, bottom: top + size })
            } else {
                Some(ItemRect { left, top, right: left + size, bottom: top + size })
            }
        } else {
            None
        }
    }

    /// The item under a point of the list window. In the details view the
    /// header covers the first rows of pixels; below it the rows follow the
    /// scroll offset. In the grid the point falls into the cell of its row
    /// and column, if the grid has that column. A point that falls on no
    /// item of the list gives `None`.
    pub open spec fn item_at(&self, x: int, y: int) -> Option<usize> {
        let len = self.list_data@.len() as int;
        let cell = self.viewport.cell_size as int;
        let cols = self.viewport.grid_columns as int;
        let scroll = self.viewport.scroll_pos as int;
        if len == 0 {
            None
        } else if self.zoom_level == 0 {
            let index = (scroll + (y - 25 + scroll % cell)) / cell;
            if y >= 25 && index < len {
                Some(index as usize)
            } else {
                None
            }
        } else {
            let row = if y + scroll >= 0 {
                (y + scroll) / cell
            } else {
                0
            };
            let col = if x >= 0 {
                x / cell
            } else {
                0
            };
            if y + scroll > -cell && x > -cell && col < cols && row * cols + col < len {
                Some((row * cols + col) as usize)
            } else {
                None
            }
        }
    }

    /// Finds the item under a point of the list window.
    pub fn get_item_at_point(&self, x: i32, y: i32) -> (item: Option<usize>)
        requires
            self.wf(),
        ensures
            item == self.item_at(x as int, y as int),
            item matches Some(i) ==> i < self.list_data@.len(),
    {
        let len: u64 = self.list_data.len() as u64;
        if len == 0 {
            return None;
        }
        let cell: u64 = self.viewport.cell_size;
        let cols: u64 = self.viewport.grid_columns;
        let scroll: u64 = self.viewport.scroll_pos;
        if self.zoom_level == 0 {
            if y < HEADER_HEIGHT as i32 {
                return None;
            }
            let below: u128 = (y as i64 - HEADER_HEIGHT as i64) as u128;
            let index: u128 = (scroll as u128 + below + (scroll % cell) as u128) / (cell as u128);
            if index < len as u128 {
                Some(index as usize)
            } else {
                None
            }
        } else {
            let down: i128 = y as i128 + scroll as i128;
            if down <= -(cell as i128) || (x as i64) <= -(cell as i64) {
                return None;
            }
            let row: u128 = if down >= 0 {
                (down as u128) / (cell as u128)
            } else {
                0
            };
            let col: u128 = if x >= 0 {
                (x as u128) / (cell as u128)
            } else {
                0
            };
            if col >= cols as u128 {
                return None;
            }
            proof {
                if down >= 0 {
                    lemma_quotient_at_most(down as int, cell as int);
                }
                lemma_quotient_at_most(self.client_width as int, cell as int);
                lemma_product_at_most(
                    row as int,
                    cols as int,
                    0x2_0000_0000_0000_0000,
                    0xFFFF_FFFF,
                );
            }
            let index: u128 = row * (cols as u128) + col;
            if index < len as u128 {
                Some(index as usize)
            } else {
                None
            }
        }
    }

    /// What sorting by a sort state does: the list is sorted by the column,
    /// in rising order where the state says so and in falling order else;
    /// the first item is selected; every thumbnail job is cancelled and the
    /// cache emptied, as positions in the old order mean nothing in the new
    /// one; and the list is laid out at the scroll offset it had.
    pub open spec fn sorted_by(&self, before: Browser, state: SortState, effects: Effects) -> bool {
        &&& self.sort_state == Some(state)
        &&& sorted_from(
            self.list_data@,
            before.list_data@,
            state.column,
            state.order != SortOrder::Ascending,
        )
        &&& self.selected_index == (if before.list_data@.len() > 0 {
            Some(0usize)
        } else {
            None
        })
        &&& self.viewport.model() == self.layout_at(before.viewport.scroll_pos as int)
        &&& self.thumbnail_cache.entries() == Seq::<(CacheKey, isize)>::empty()
        &&& self.thumbnail_cache.limit() == before.thumbnail_cache.limit()
        &&& self.thumbnail_task_manager.queued() == Set::<usize>::empty()
        &&& effects.cancelled_jobs@.no_duplicates()
        &&& forall|i: usize|
            effects.cancelled_jobs@.contains(i) <==> before.thumbnail_task_manager.queued().contains(
                i,
            )
        &&& effects.recompute_thumbnails
        &&& effects.update_scrollbar
        &&& effects.repaint
        &&& self.client_width == before.client_width
        &&& self.client_height == before.client_height
        &&& self.zoom_level == before.zoom_level
        &&& self.config == before.config
        &&& self.search == before.search
        &&& self.list_mode == before.list_mode
        &&& self.is_scrollbar_dragging == before.is_scrollbar_dragging
    }

    /// Sorts the list by the current sort state. Without one nothing
    /// changes.
    pub fn apply_sort(&mut self) -> (sorted: Option<Effects>)
        requires
            old(self).wf(),
        ensures
            final(self).wf(),
            sorted is Some <==> old(self).sort_state is Some,
            sorted is None ==> *final(self) == *old(self),
            sorted is Some ==> final(self).sorted_by(
                *old(self),
                old(self).sort_state->0,
                sorted->0,
            ),
    {
        match self.sort_state {
            None => None,
            Some(state) => {
                let descending = match state.order {
                    SortOrder::Ascending => false,
                    _ => true,
                };
                let sorted_list = sort_entries(&self.list_data, state.column, descending);
                self.list_data = sorted_list;
                self.selected_index = if self.list_data.len() > 0 {
                    Some(0)
                } else {
                    None
                };
                self.viewport = compute_layout(
                    self.list_data.len(),
                    self.client_width,
                    self.client_height,
                    self.zoom_level,
                    self.viewport.scroll_pos,
                );
                let cancelled_jobs = self.reset_thumbnails();
                Some(
                    Effects {
                        cancelled_jobs,
                        recompute_thumbnails: true,
                        update_scrollbar: true,
                        repaint: true,
                    },
                )
            },
        }
    }

    /// Sorts the list by a column after a click on its heading: in rising
    /// order, or in falling order where the list was sorted by that column
    /// in rising order.
    pub fn sort_by_column(&mut self, column_type: ColumnType) -> (effects: Effects)
        requires
            old(self).wf(),
        ensures
            final(self).wf(),
            final(self).sorted_by(
                *old(self),
                SortState {
                    column: column_type,
                    order: order_after_click(old(self).sort_state, column_type),
                },
                effects,
            ),
    {
        let order = next_sort_order(self.sort_state, column_type);
        self.sort_state = Some(SortState { column: column_type, order });
        let sorted = self.apply_sort();
        sorted.unwrap()
    }

    /// Sorts the list anew in a chosen order, by the column it was sorted
    /// by, or by name where it was not sorted.
    pub fn change_sort_order(&mut self, new_order: SortOrder) -> (effects: Effects)
        requires
            old(self).wf(),
        ensures
            final(self).wf(),
            final(self).sorted_by(
                *old(self),
                state_with_order(old(self).sort_state, new_order),
                effects,
            ),
    {
        self.sort_state = Some(with_sort_order(self.sort_state, new_order));
        let sorted = self.apply_sort();
        sorted.unwrap()
    }

    /// What showing another list does: the list is shown from the top with
    /// its first item selected, and every thumbnail job is cancelled and
    /// the cache emptied. Window, zoom level, settings, search and sort
    /// state stay as they were.
    pub open spec fn shows_list(&self, before: Browser, list: Seq<FileResult>, effects: Effects) -> bool {
        &&& self.list_data@ == list
        &&& self.selected_index == (if list.len() > 0 {
            Some(0usize)
        } else {
            None
        })
        &&& self.viewport.model() == self.layout_at(0)
        &&& self.thumbnail_cache.entries() == Seq::<(CacheKey, isize)>::empty()
        &&& self.thumbnail_cache.limit() == before.thumbnail_cache.limit()
        &&& self.thumbnail_task_manager.queued() == Set::<usize>::empty()
        &&& effects.cancelled_jobs@.no_duplicates()
        &&& forall|i: usize|
            effects.cancelled_jobs@.contains(i) <==> before.thumbnail_task_manager.queued().contains(
                i,
            )
        &&& effects.recompute_thumbnails
        &&& effects.update_scrollbar
        &&& effects.repaint
        &&& self.client_width == before.client_width
        &&& self.client_height == before.client_height
        &&& self.zoom_level == before.zoom_level
        &&& self.config == before.config
        &&& self.search == before.search
        &&& self.sort_state == before.sort_state
        &&& self.is_scrollbar_dragging == before.is_scrollbar_dragging
    }

    /// Shows a list from the top and resets the thumbnails.
    fn show_list(&mut self, list: Vec<FileResult>) -> (effects: Effects)
        requires
            old(self).wf(),
            list@.len() <= MAX_LIST_LEN,
        ensures
            final(self).wf(),
            final(self).shows_list(*old(self), list@, effects),
            final(self).list_mode == old(self).list_mode,
    {
        self.list_data = list;
        self.selected_index = if self.list_data.len() > 0 {
            Some(0)
        } else {
            None
        };
        self.viewport = compute_layout(
            self.list_data.len(),
            self.client_width,
            self.client_height,
            self.zoom_level,
            0,
        );
        let cancelled_jobs = self.reset_thumbnails();
        Effects {
            cancelled_jobs,
            recompute_thumbnails: true,
            update_scrollbar: true,
            repaint: true,
        }
    }

    /// Takes over the entries of a list file and shows them in place of
    /// the search results: the browser is in list mode from now on.
    pub fn load_file_list(&mut self, list_name: String, entries: Vec<FileResult>) -> (effects:
        Effects)
        requires
            old(self).wf(),
            entries@.len() <= MAX_LIST_LEN,
        ensures
            final(self).wf(),
            final(self).shows_list(*old(self), entries@, effects),
            final(self).list_mode.is_list_mode,
            final(self).list_mode.current_list_name == Some(list_name),
            final(self).list_mode.original_list_data@ == entries@,
    {
        let shown = copy_entries(&entries);
        self.list_mode = ListMode {
            is_list_mode: true,
            current_list_name: Some(list_name),
            original_list_data: entries,
        };
        self.show_list(shown)
    }

    /// Searches within the loaded list and shows what is found. Outside
    /// list mode, and with an empty list loaded, nothing changes.
    pub fn search_local_list(&mut self, query: &str) -> (searched: Option<Effects>)
        requires
            old(self).wf(),
        ensures
            final(self).wf(),
            searched is Some <==> old(self).list_mode.is_list_mode && old(
                self,
            ).list_mode.original_list_data@.len() > 0,
            searched is None ==> *final(self) == *old(self),
            searched is Some ==> final(self).shows_list(
                *old(self),
                found_in(old(self).list_mode.original_list_data@, query@),
                searched->0,
            ),
            final(self).list_mode == old(self).list_mode,
    {
        if !self.list_mode.is_list_mode || self.list_mode.original_list_data.len() == 0 {
            return None;
        }
        proof {
            lemma_matching_is_shorter(self.list_mode.original_list_data@, lowercase_of(query@));
        }
        let found = search_entries(&self.list_mode.original_list_data, query);
        Some(self.show_list(found))
    }

    /// Leaves list mode: the list is emptied and the loaded list forgotten.
    pub fn close_file_list(&mut self) -> (effects: Effects)
        requires
            old(self).wf(),
        ensures
            final(self).wf(),
            final(self).shows_list(*old(self), Seq::<FileResult>::empty(), effects),
            !final(self).list_mode.is_list_mode,
            final(self).list_mode.current_list_name is None,
            final(self).list_mode.original_list_data@.len() == 0,
    {
        self.list_mode = ListMode {
            is_list_mode: false,
            current_list_name: None,
            original_list_data: Vec::new(),
        };
        self.show_list(Vec::new())
    }

    /// The text of the status bar: the number of items and the word for
    /// them; then, where an item is selected, the word for the selection,
    /// the name of the item and what is known of its file; then, in list
    /// mode, the name of the list.
    pub open spec fn status_of(
        &self,
        objects_label: Seq<char>,
        selected_label: Seq<char>,
        file_info: Seq<char>,
    ) -> Seq<char> {
        let count = decimal_digits(self.list_data@.len() as nat) + " "@ + objects_label;
        let status = match self.selected_index {
            Some(i) => if i < self.list_data@.len() {
                count + " | "@ + selected_label + ": "@ + self.list_data@[i as int].name@ + " "@
                    + file_info
            } else {
                count
            },
            None => count,
        };
        if self.list_mode.is_list_mode {
            match self.list_mode.current_list_name {
                Some(name) => status + " | List: "@ + name@,
                None => status + " | List Mode"@,
            }
        } else {
            status
        }
    }

    /// Writes the text of the status bar. `file_info` is what is known of
    /// the file of the selected item.
    pub fn status_text(&self, objects_label: &str, selected_label: &str, file_info: &str) -> (text:
        String)
        ensures
            text@ == self.status_of(objects_label@, selected_label@, file_info@),
    {
        let number = decimal_text(self.list_data.len() as u64);
        let count = append(append(number.as_str(), " ").as_str(), objects_label);
        let selected: Option<usize> = match self.selected_index {
            Some(i) => if i < self.list_data.len() {
                Some(i)
            } else {
                None
            },
            None => None,
        };
        let status = match selected {
            Some(i) => {
                let a = append(count.as_str(), " | ");
                let b = append(a.as_str(), selected_label);
                let c = append(b.as_str(), ": ");
                let d = append(c.as_str(), self.list_data[i].name.as_str());
                let e = append(d.as_str(), " ");
                append(e.as_str(), file_info)
            },
            None => count,
        };
        if self.list_mode.is_list_mode {
            match &self.list_mode.current_list_name {
                Some(name) => {
                    let a = append(status.as_str(), " | List: ");
                    append(a.as_str(), name.as_str())
                },
                None => append(status.as_str(), " | List Mode"),
            }
        } else {
            status
        }
    }
}

} // verus!