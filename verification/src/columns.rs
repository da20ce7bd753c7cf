//! The columns of the details view and the order the list is sorted in.

use vstd::prelude::*;

verus! {

/// Pixels on either side of a column's right edge that grab it for
/// resizing.
pub const RESIZE_MARGIN: i32 = 3;

/// What a column shows.
#[derive(Debug, Clone, Copy, PartialEq, Eq, Structural)]
pub enum ColumnType {
    Name,
    Size,
    Type,
    Modified,
    Path,
}

impl ColumnType {
    /// The English heading of the column.
    pub open spec fn spec_display_name(self) -> Seq<char> {
        match self {
            ColumnType::Name => "Name"@,
            ColumnType::Size => "Size"@,
            ColumnType::Type => "Type"@,
            ColumnType::Modified => "Date Modified"@,
            ColumnType::Path => "Path"@,
        }
    }

    pub fn display_name(&self) -> (name: &'static str)
        ensures
            name@ == self.spec_display_name(),
    {
        match self {
            ColumnType::Name => "Name",
            ColumnType::Size => "Size",
            ColumnType::Type => "Type",
            ColumnType::Modified => "Date Modified",
            ColumnType::Path => "Path",
        }
    }

    /// The width a column starts with, in pixels.
    pub open spec fn spec_default_width(self) -> i32 {
        match self {
            ColumnType::Name => 200i32,
            ColumnType::Size => 80i32,
            ColumnType::Type => 100i32,
            ColumnType::Modified => 120i32,
            ColumnType::Path => 300i32,
        }
    }

    pub fn default_width(&self) -> (width: i32)
        ensures
            width == self.spec_default_width(),
    {
        match self {
            ColumnType::Name => 200,
            ColumnType::Size => 80,
            ColumnType::Type => 100,
            ColumnType::Modified => 120,
            ColumnType::Path => 300,
        }
    }
}

/// One column: what it shows, how wide it is, and whether it is shown.
#[derive(Debug, Clone, Copy, PartialEq, Eq, Structural)]
pub struct ColumnInfo {
    pub column_type: ColumnType,
    pub width: i32,
    pub visible: bool,
}

impl ColumnInfo {
    /// A visible column of the default width.
    pub fn new(column_type: ColumnType) -> (column: Self)
        ensures
            column.column_type == column_type,
            column.width == column_type.spec_default_width(),
            column.visible,
    {
        ColumnInfo { column_type, width: column_type.default_width(), visible: true }
    }
}

/// The direction of a sort.
#[derive(Debug, Clone, Copy, PartialEq, Eq, Structural)]
pub enum SortOrder {
    Unsorted,
    Ascending,
    Descending,
}

/// The column the list is sorted by, and the direction.
#[derive(Debug, Clone, Copy, PartialEq, Eq, Structural)]
pub struct SortState {
    pub column: ColumnType,
    pub order: SortOrder,
}

/// The order a click on a column heading leads to: ascending, unless the
/// list is sorted by that column in ascending order already, which turns
/// it around.
pub open spec fn order_after_click(current: Option<SortState>, column: ColumnType) -> SortOrder {
    match current {
        Some(state) => if state.column == column && state.order == SortOrder::Ascending {
            SortOrder::Descending
        } else {
            SortOrder::Ascending
        },
        None => SortOrder::Ascending,
    }
}

/// Chooses the order for a click on a column heading.
pub fn next_sort_order(current: Option<SortState>, column: ColumnType) -> (order: SortOrder)
    ensures
        order == order_after_click(current, column),
{
    match current {
        Some(state) => {
            if state.column == column && state.order == SortOrder::Ascending {
                SortOrder::Descending
            } else {
                SortOrder::Ascending
            }
        },
        None => SortOrder::Ascending,
    }
}

/// The sort state after the order alone is chosen: the column stays, and
/// is the name column where the list was not sorted before.
pub open spec fn state_with_order(current: Option<SortState>, order: SortOrder) -> SortState {
    match current {
        Some(state) => SortState { column: state.column, order },
        None => SortState { column: ColumnType::Name, order },
    }
}

/// Chooses the sort state for a newly chosen order.
pub fn with_sort_order(current: Option<SortState>, order: SortOrder) -> (state: SortState)
    ensures
        state == state_with_order(current, order),
{
    match current {
        Some(state) => SortState { column: state.column, order },
        None => SortState { column: ColumnType::Name, order },
    }
}

/// The visible ones among some columns, in their order.
pub open spec fn visible_of(columns: Seq<ColumnInfo>) -> Seq<ColumnInfo>
    decreases columns.len(),
{
    if columns.len() == 0 {
        Seq::<ColumnInfo>::empty()
    } else if columns.last().visible {
        visible_of(columns.drop_last()).push(columns.last())
    } else {
        visible_of(columns.drop_last())
    }
}

/// The left edge of the column at a position: the widths of the columns
/// before it.
pub open spec fn left_edge(columns: Seq<ColumnInfo>, position: int) -> int
    decreases position,
{
    if position <= 0 {
        0
    } else {
        left_edge(columns, position - 1) + columns[position - 1].width
    }
}

/// Whether a point lies within the column at a position.
pub open spec fn covers(columns: Seq<ColumnInfo>, position: int, x: int) -> bool {
    left_edge(columns, position) <= x < left_edge(columns, position + 1)
}

/// Whether a point lies on the right edge of the column at a position, or
/// within the margin on either side of it.
pub open spec fn grabs(columns: Seq<ColumnInfo>, position: int, x: int) -> bool {
    left_edge(columns, position + 1) - 3 <= x <= left_edge(columns, position + 1) + 3
}

/// The position of the first column of a type at or after `from`, or the
/// number of columns where there is none.
pub open spec fn first_of_type(columns: Seq<ColumnInfo>, column_type: ColumnType, from: int) -> int
    decreases columns.len() - from,
{
    if from < 0 || from >= columns.len() {
        columns.len() as int
    } else if columns[from].column_type == column_type {
        from
    } else {
        first_of_type(columns, column_type, from + 1)
    }
}

/// The columns after the first one of a type changed its visibility, and
/// no other. Without a column of the type nothing changes.
pub open spec fn toggled(columns: Seq<ColumnInfo>, column_type: ColumnType) -> Seq<ColumnInfo> {
    let at = first_of_type(columns, column_type, 0);
    if at < columns.len() {
        columns.update(
            at,
            ColumnInfo {
                column_type: columns[at].column_type,
                width: columns[at].width,
                visible: !columns[at].visible,
            },
        )
    } else {
        columns
    }
}

/// The columns of the details view.
pub struct ColumnSet {
    pub columns: Vec<ColumnInfo>,
}

impl ColumnSet {
    /// Name, size, type, date and path, of which type and date are hidden.
    pub fn new() -> (set: Self)
        ensures
            set.columns@ == seq![
                ColumnInfo { column_type: ColumnType::Name, width: 200, visible: true },
                ColumnInfo { column_type: ColumnType::Size, width: 80, visible: true },
                ColumnInfo { column_type: ColumnType::Type, width: 100, visible: false },
                ColumnInfo { column_type: ColumnType::Modified, width: 120, visible: false },
                ColumnInfo { column_type: ColumnType::Path, width: 300, visible: true },
            ],
    {
        let mut columns: Vec<ColumnInfo> = Vec::new();
        columns.push(ColumnInfo::new(ColumnType::Name));
        columns.push(ColumnInfo::new(ColumnType::Size));
        let mut kind = ColumnInfo::new(ColumnType::Type);
        kind.visible = false;
        columns.push(kind);
        let mut modified = ColumnInfo::new(ColumnType::Modified);
        modified.visible = false;
        columns.push(modified);
        columns.push(ColumnInfo::new(ColumnType::Path));
        proof {
            assert(columns@ =~= seq![
                ColumnInfo { column_type: ColumnType::Name, width: 200, visible: true },
                ColumnInfo { column_type: ColumnType::Size, width: 80, visible: true },
                ColumnInfo { column_type: ColumnType::Type, width: 100, visible: false },
                ColumnInfo { column_type: ColumnType::Modified, width: 120, visible: false },
                ColumnInfo { column_type: ColumnType::Path, width: 300, visible: true },
            ]);
        }
        ColumnSet { columns }
    }

    /// Shows the first column of a type if it is hidden, and hides it if it
    /// is shown.
    pub fn toggle_column(&mut self, column_type: ColumnType)
        ensures
            final(self).columns@ == toggled(old(self).columns@, column_type),
    {
        let mut i: usize = 0;
        while i < self.columns.len()
            invariant
                i <= self.columns@.len(),
                self.columns@ == old(self).columns@,
                first_of_type(self.columns@, column_type, 0) == first_of_type(
                    self.columns@,
                    column_type,
                    i as int,
                ),
            decreases self.columns@.len() - i,
        {
            let column = self.columns[i];
            if column.column_type == column_type {
                self.columns.set(
                    i,
                    ColumnInfo {
                        column_type: column.column_type,
                        width: column.width,
                        visible: !column.visible,
                    },
                );
                return ;
            }
            i = i + 1;
        }
    }

    /// The columns that are shown, in their order.
    pub fn get_visible_columns(&self) -> (shown: Vec<ColumnInfo>)
        ensures
            shown@ == visible_of(self.columns@),
    {
        let mut shown: Vec<ColumnInfo> = Vec::new();
        let mut i: usize = 0;
        while i < self.columns.len()
            invariant
                i <= self.columns@.len(),
                shown@ == visible_of(self.columns@.subrange(0, i as int)),
            decreases self.columns@.len() - i,
        {
            proof {
                let next = self.columns@.subrange(0, i + 1);
                assert(next.drop_last() =~= self.columns@.subrange(0, i as int));
                assert(next.last() == self.columns@[i as int]);
            }
            if self.columns[i].visible {
                shown.push(self.columns[i]);
            }
            i = i + 1;
        }
        proof {
            assert(self.columns@.subrange(0, i as int) =~= self.columns@);
        }
        shown
    }

    /// The position, among the visible columns, of the first one that a
    /// point lies in.
    pub fn get_column_at_x(&self, x: i32) -> (position: Option<usize>)
        ensures
            match position {
                Some(p) => p < visible_of(self.columns@).len() && covers(
                    visible_of(self.columns@),
                    p as int,
                    x as int,
                ) && forall|q: int| 0 <= q < p ==> !covers(visible_of(self.columns@), q, x as int),
                None => forall|q: int|
                    0 <= q < visible_of(self.columns@).len() ==> !covers(
                        visible_of(self.columns@),
                        q,
                        x as int,
                    ),
            },
    {
        let shown = self.get_visible_columns();
        let mut current_x: i128 = 0;
        let mut i: usize = 0;
        while i < shown.len()
            invariant
                i <= shown@.len(),
                shown@ == visible_of(self.columns@),
                current_x == left_edge(shown@, i as int),
                -0x8000_0000 * i <= current_x <= 0x8000_0000 * i,
                forall|q: int| 0 <= q < i ==> !covers(shown@, q, x as int),
            decreases shown@.len() - i,
        {
            let width: i128 = shown[i].width as i128;
            if x as i128 >= current_x && (x as i128) < current_x + width {
                return Some(i);
            }
            current_x = current_x + width;
            i = i + 1;
        }
        None
    }

    /// The position, among the visible columns, of the first one whose
    /// right edge a point grabs.
    pub fn get_column_resize_cursor_x(&self, x: i32) -> (position: Option<usize>)
        ensures
            match position {
                Some(p) => p < visible_of(self.columns@).len() && grabs(
                    visible_of(self.columns@),
                    p as int,
                    x as int,
                ) && forall|q: int| 0 <= q < p ==> !grabs(visible_of(self.columns@), q, x as int),
                None => forall|q: int|
                    0 <= q < visible_of(self.columns@).len() ==> !grabs(
                        visible_of(self.columns@),
                        q,
                        x as int,
                    ),
            },
    {
        let shown = self.get_visible_columns();
        let mut current_x: i128 = 0;
        let mut i: usize = 0;
        while i < shown.len()
            invariant
                i <= shown@.len(),
                shown@ == visible_of(self.columns@),
                current_x == left_edge(shown@, i as int),
                -0x8000_0000 * i <= current_x <= 0x8000_0000 * i,
                forall|q: int| 0 <= q < i ==> !grabs(shown@, q, x as int),
            decreases shown@.len() - i,
        {
            current_x = current_x + shown[i].width as i128;
            if x as i128 >= current_x - RESIZE_MARGIN as i128 && x as i128 <= current_x
                + RESIZE_MARGIN as i128 {
                return Some(i);
            }
            i = i + 1;
        }
        None
    }
}

} // verus!
