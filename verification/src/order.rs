//! Sorting by keys: texts in the order of their code points, numbers by
//! size, and what ties in the order it had.

use vstd::prelude::*;
use std::cmp::Ordering;
use crate::columns::ColumnType;
use crate::config::{lowercase, lowercase_of};
use crate::file_result::FileResult;
use crate::list_file::copy_entry;
use crate::text::{text_before, text_precedes};

verus! {

/// What an item is sorted by.
#[derive(Debug)]
pub enum SortKey {
    Text(String),
    Number(u64),
}

/// A sort key as a value.
pub enum KeyView {
    Text(Seq<char>),
    Number(u64),
}

impl View for SortKey {
    type V = KeyView;

    open spec fn view(&self) -> KeyView {
        match self {
            SortKey::Text(text) => KeyView::Text(text@),
            SortKey::Number(number) => KeyView::Number(*number),
        }
    }
}

/// Whether a key comes before another: a text before a text that follows
/// it in the order of texts, a number before a larger number, and any
/// number before any text.
pub open spec fn key_before(a: KeyView, b: KeyView) -> bool {
    match (a, b) {
        (KeyView::Text(x), KeyView::Text(y)) => text_before(x, y),
        (KeyView::Number(x), KeyView::Number(y)) => x < y,
        (KeyView::Number(_), KeyView::Text(_)) => true,
        (KeyView::Text(_), KeyView::Number(_)) => false,
    }
}

/// Whether a key comes before another in rising or in falling order.
pub open spec fn goes_before(a: KeyView, b: KeyView, descending: bool) -> bool {
    if descending {
        key_before(b, a)
    } else {
        key_before(a, b)
    }
}

/// Tells whether a key comes before another.
pub fn key_precedes(a: &SortKey, b: &SortKey) -> (before: bool)
    ensures
        before == key_before(a@, b@),
{
    match a {
        SortKey::Text(x) => match b {
            SortKey::Text(y) => text_precedes(x.as_str(), y.as_str()),
            SortKey::Number(_) => false,
        },
        SortKey::Number(x) => match b {
            SortKey::Text(_) => true,
            SortKey::Number(y) => *x < *y,
        },
    }
}

/// The key at a position.
pub open spec fn key_at(keys: Seq<SortKey>, position: usize) -> KeyView {
    keys[position as int]@
}

/// Compares the keys at two positions for a sort in rising or in falling
/// order.
pub fn index_ordering(keys: &Vec<SortKey>, a: usize, b: usize, descending: bool) -> (r: Ordering)
    requires
        a < keys@.len(),
        b < keys@.len(),
    ensures
        (r == Ordering::Less) == goes_before(key_at(keys@, a), key_at(keys@, b), descending),
        (r == Ordering::Greater) == (!goes_before(key_at(keys@, a), key_at(keys@, b), descending)
            && goes_before(key_at(keys@, b), key_at(keys@, a), descending)),
{
    let forward = key_precedes(&keys[a], &keys[b]);
    let backward = key_precedes(&keys[b], &keys[a]);
    let less = if descending {
        backward
    } else {
        forward
    };
    let greater = if descending {
        forward
    } else {
        backward
    };
    if less {
        Ordering::Less
    } else if greater {
        Ordering::Greater
    } else {
        Ordering::Equal
    }
}

/// Whether `order` lists the positions of some keys in sorted order: every
/// position once; no position after one whose key it goes before; and of
/// two positions whose keys tie the lower one first.
pub open spec fn is_stable_order(order: Seq<usize>, keys: Seq<SortKey>, descending: bool) -> bool {
    &&& order.len() == keys.len()
    &&& order.no_duplicates()
    &&& forall|i: int| 0 <= i < order.len() ==> (#[trigger] order[i]) < keys.len()
    &&& forall|i: int, j: int|
        0 <= i < j < order.len() ==> {
            let first = keys[(#[trigger] order[i]) as int]@;
            let second = keys[(#[trigger] order[j]) as int]@;
            &&& !goes_before(second, first, descending)
            &&& !goes_before(first, second, descending) ==> order[i] < order[j]
        }
}

/// Calls the slice method `sort_by` on the positions with `index_ordering`
/// as the comparison. The sort is stable, so the positions come out in the
/// order of their keys, and those whose keys tie in rising order.
#[verifier::external_body]
pub(crate) fn sort_indices(order: &mut Vec<usize>, keys: &Vec<SortKey>, descending: bool)
    requires
        old(order)@.len() == keys@.len(),
        forall|i: int| 0 <= i < old(order)@.len() ==> old(order)@[i] == i,
    ensures
        is_stable_order(final(order)@, keys@, descending),
{
    order.sort_by(|a, b| index_ordering(keys, *a, *b, descending))
}

/// Sorts the positions of some keys.
pub fn stable_order(keys: &Vec<SortKey>, descending: bool) -> (order: Vec<usize>)
    ensures
        is_stable_order(order@, keys@, descending),
{
    let mut order: Vec<usize> = Vec::new();
    let mut i: usize = 0;
    while i < keys.len()
        invariant
            i <= keys@.len(),
            order@.len() == i,
            forall|k: int| 0 <= k < i ==> order@[k] == k,
        decreases keys@.len() - i,
    {
        order.push(i);
        i = i + 1;
    }
    sort_indices(&mut order, keys, descending);
    order
}

/// The key an entry is sorted by under a column: name and path regardless
/// of letter case, the type as written, size and time of modification as
/// numbers.
pub open spec fn entry_key_of(entry: FileResult, column: ColumnType) -> KeyView {
    match column {
        ColumnType::Name => KeyView::Text(lowercase_of(entry.name@)),
        ColumnType::Size => KeyView::Number(entry.size),
        ColumnType::Type => KeyView::Text(entry.file_type@),
        ColumnType::Modified => KeyView::Number(entry.modified_time),
        ColumnType::Path => KeyView::Text(lowercase_of(entry.path@)),
    }
}

/// Works out the key an entry is sorted by under a column.
pub fn entry_key(entry: &FileResult, column: ColumnType) -> (key: SortKey)
    ensures
        key@ == entry_key_of(*entry, column),
{
    match column {
        ColumnType::Name => SortKey::Text(lowercase(entry.name.as_str())),
        ColumnType::Size => SortKey::Number(entry.size),
        ColumnType::Type => SortKey::Text(entry.file_type.clone()),
        ColumnType::Modified => SortKey::Number(entry.modified_time),
        ColumnType::Path => SortKey::Text(lowercase(entry.path.as_str())),
    }
}

/// Whether a list is another one sorted by a column: its entries are those
/// of the other list, taken in the sorted order of their keys.
pub open spec fn sorted_from(
    after: Seq<FileResult>,
    before: Seq<FileResult>,
    column: ColumnType,
    descending: bool,
) -> bool {
    exists|order: Seq<usize>, keys: Seq<SortKey>|
        {
            &&& keys.len() == before.len()
            &&& forall|i: int|
                0 <= i < keys.len() ==> (#[trigger] keys[i])@ == entry_key_of(before[i], column)
            &&& #[trigger] is_stable_order(order, keys, descending)
            &&& after.len() == before.len()
            &&& forall|i: int|
                0 <= i < after.len() ==> #[trigger] after[i] == before[order[i] as int]
        }
}

/// Sorts a list by a column, in rising or in falling order.
pub fn sort_entries(list: &Vec<FileResult>, column: ColumnType, descending: bool) -> (sorted: Vec<
    FileResult,
>)
    ensures
        sorted_from(sorted@, list@, column, descending),
{
    let mut keys: Vec<SortKey> = Vec::new();
    let mut i: usize = 0;
    while i < list.len()
        invariant
            i <= list@.len(),
            keys@.len() == i,
            forall|k: int| 0 <= k < i ==> (#[trigger] keys@[k])@ == entry_key_of(list@[k], column),
        decreases list@.len() - i,
    {
        keys.push(entry_key(&list[i], column));
        i = i + 1;
    }
    let order = stable_order(&keys, descending);
    let mut sorted: Vec<FileResult> = Vec::new();
    let mut j: usize = 0;
    while j < order.len()
        invariant
            j <= order@.len(),
            order@.len() == list@.len(),
            forall|k: int| 0 <= k < order@.len() ==> (#[trigger] order@[k]) < list@.len(),
            sorted@.len() == j,
            forall|k: int| 0 <= k < j ==> #[trigger] sorted@[k] == list@[order@[k] as int],
        decreases order@.len() - j,
    {
        sorted.push(copy_entry(&list[order[j]]));
        j = j + 1;
    }
    proof {
        assert(is_stable_order(order@, keys@, descending));
    }
    sorted
}

/// Whether a list of pairs is another one sorted by key: its pairs are
/// those of the other list, taken in the rising order of their keys.
pub open spec fn pairs_sorted_from(after: Seq<(String, String)>, before: Seq<(String, String)>) -> bool {
    exists|order: Seq<usize>, keys: Seq<SortKey>|
        {
            &&& keys.len() == before.len()
            &&& forall|i: int|
                0 <= i < keys.len() ==> (#[trigger] keys[i])@ == KeyView::Text(before[i].0@)
            &&& #[trigger] is_stable_order(order, keys, false)
            &&& after.len() == before.len()
            &&& forall|i: int|
                0 <= i < after.len() ==> #[trigger] after[i] == before[order[i] as int]
        }
}

/// Sorts pairs by their keys.
pub fn sort_pairs(list: &Vec<(String, String)>) -> (sorted: Vec<(String, String)>)
    ensures
        pairs_sorted_from(sorted@, list@),
{
    let mut keys: Vec<SortKey> = Vec::new();
    let mut i: usize = 0;
    while i < list.len()
        invariant
            i <= list@.len(),
            keys@.len() == i,
            forall|k: int| 0 <= k < i ==> (#[trigger] keys@[k])@ == KeyView::Text(list@[k].0@),
        decreases list@.len() - i,
    {
        keys.push(SortKey::Text(list[i].0.clone()));
        i = i + 1;
    }
    let order = stable_order(&keys, false);
    let mut sorted: Vec<(String, String)> = Vec::new();
    let mut j: usize = 0;
    while j < order.len()
        invariant
            j <= order@.len(),
            order@.len() == list@.len(),
            forall|k: int| 0 <= k < order@.len() ==> (#[trigger] order@[k]) < list@.len(),
            sorted@.len() == j,
            forall|k: int| 0 <= k < j ==> #[trigger] sorted@[k] == list@[order@[k] as int],
        decreases order@.len() - j,
    {
        let pair = &list[order[j]];
        sorted.push((pair.0.clone(), pair.1.clone()));
        j = j + 1;
    }
    proof {
        assert(is_stable_order(order@, keys@, false));
    }
    sorted
}

} // verus!
