//! The orders of the process list, its entries, and moving through them.

use crate::api::{ServiceRow, ServiceRowView};
use crate::model::SortMode;
use crate::rows::{ProcessCategory, ProcessRow, ProcessRowView};
use crate::sorting::{
    is_sorted, is_total_preorder, order_of, sort_rows, stable_sort, stable_sort_is_permutation,
    stable_sort_is_sorted, views, RowOrder,
};
use crate::text::{lowered, to_chars, to_lower};
use crate::window::{adjusted_offset, max_usize, window_offset};
use std::collections::HashMap;
use vstd::prelude::*;

verus! {

/// Whether one text comes before another or is the same: by the first character in which
/// they differ, a text before its continuations.
pub open spec fn text_le(a: Seq<char>, b: Seq<char>) -> bool
    decreases a.len(),
{
    if a.len() == 0 {
        true
    } else if b.len() == 0 {
        false
    } else if a[0] != b[0] {
        a[0] < b[0]
    } else {
        text_le(a.drop_first(), b.drop_first())
    }
}

/// Whether one text comes before another or is the same.
pub fn text_precedes(a: &str, b: &str) -> (r: bool)
    ensures
        r == text_le(a@, b@),
{
    let left = to_chars(a);
    let right = to_chars(b);
    let mut i: usize = 0;
    assert(a@.skip(0) == a@ && b@.skip(0) == b@);
    while i < left.len() && i < right.len() && left[i] == right[i]
        invariant
            left@ == a@,
            right@ == b@,
            i <= left.len(),
            i <= right.len(),
            text_le(a@, b@) == text_le(a@.skip(i as int), b@.skip(i as int)),
        decreases left.len() - i,
    {
        assert(a@.skip(i as int).drop_first() == a@.skip(i + 1));
        assert(b@.skip(i as int).drop_first() == b@.skip(i + 1));
        i = i + 1;
    }
    if i == left.len() {
        true
    } else if i == right.len() {
        false
    } else {
        left[i] < right[i]
    }
}

/// Any two texts can be compared, and only a text and itself both ways.
proof fn lemma_text_le_total(a: Seq<char>, b: Seq<char>)
    ensures
        text_le(a, b) || text_le(b, a),
        text_le(a, b) && text_le(b, a) ==> a == b,
    decreases a.len(),
{
    if a.len() > 0 && b.len() > 0 && a[0] == b[0] {
        lemma_text_le_total(a.drop_first(), b.drop_first());
        if text_le(a, b) && text_le(b, a) {
            assert(a =~= seq![a[0]] + a.drop_first());
            assert(b =~= seq![b[0]] + b.drop_first());
        }
    } else if a.len() == 0 && b.len() == 0 {
        assert(a =~= b);
    }
}

/// The order of texts chains.
proof fn lemma_text_le_transitive(a: Seq<char>, b: Seq<char>, c: Seq<char>)
    requires
        text_le(a, b),
        text_le(b, c),
    ensures
        text_le(a, c),
    decreases a.len(),
{
    if a.len() > 0 && b.len() > 0 && c.len() > 0 && a[0] == b[0] && b[0] == c[0] {
        lemma_text_le_transitive(a.drop_first(), b.drop_first(), c.drop_first());
    }
}

/// Whether a process may stand before another in a sorted list: the heavier one first, or
/// the one with the lower number or the earlier name; the process number breaks ties.
pub open spec fn sort_mode_le(mode: SortMode, a: ProcessRowView, b: ProcessRowView) -> bool {
    match mode {
        SortMode::CpuDesc => a.cpu_percent.bits > b.cpu_percent.bits || (a.cpu_percent.bits
            == b.cpu_percent.bits && a.pid <= b.pid),
        SortMode::MemoryDesc => a.memory_bytes > b.memory_bytes || (a.memory_bytes
            == b.memory_bytes && a.pid <= b.pid),
        SortMode::PidAsc => a.pid <= b.pid,
        SortMode::NameAsc => text_le(lowered(a.name), lowered(b.name)) && (lowered(a.name)
            == lowered(b.name) ==> a.pid <= b.pid),
    }
}

/// The order of a sort mode.
pub struct BySortMode {
    pub mode: SortMode,
}

impl RowOrder<ProcessRow> for BySortMode {
    open spec fn le(&self, a: ProcessRowView, b: ProcessRowView) -> bool {
        sort_mode_le(self.mode, a, b)
    }

    fn may_precede(&self, a: &ProcessRow, b: &ProcessRow) -> (r: bool) {
        match self.mode {
            SortMode::CpuDesc => a.cpu_percent.bits > b.cpu_percent.bits || (a.cpu_percent.bits
                == b.cpu_percent.bits && a.pid <= b.pid),
            SortMode::MemoryDesc => a.memory_bytes > b.memory_bytes || (a.memory_bytes
                == b.memory_bytes && a.pid <= b.pid),
            SortMode::PidAsc => a.pid <= b.pid,
            SortMode::NameAsc => {
                let left = to_lower(a.name.as_str());
                let right = to_lower(b.name.as_str());
                text_precedes(left.as_str(), right.as_str()) && (left != right || a.pid <= b.pid)
            },
        }
    }
}

/// The place of a process in the order of first appearance; unknown ones come last.
pub open spec fn first_seen(order: Map<u32, usize>, pid: u32) -> usize {
    if order.contains_key(pid) {
        order[pid]
    } else {
        usize::MAX
    }
}

/// Whether a process may stand before another in the grouped list: apps first, then by
/// first appearance, then by number.
pub open spec fn group_le(
    order: Map<u32, usize>,
    a: ProcessRowView,
    b: ProcessRowView,
) -> bool {
    if a.category.rank() != b.category.rank() {
        a.category.rank() < b.category.rank()
    } else if first_seen(order, a.pid) != first_seen(order, b.pid) {
        first_seen(order, a.pid) < first_seen(order, b.pid)
    } else {
        a.pid <= b.pid
    }
}

/// The place of a process in the order of first appearance.
pub fn first_seen_place(order: &HashMap<u32, usize>, pid: u32) -> (place: usize)
    ensures
        place == first_seen(order@, pid),
{
    broadcast use vstd::std_specs::hash::group_hash_axioms;

    match order.get(&pid) {
        Some(place) => *place,
        None => usize::MAX,
    }
}

/// The order of the grouped list.
pub struct ByGroup<'a> {
    pub order: &'a HashMap<u32, usize>,
}

impl<'a> RowOrder<ProcessRow> for ByGroup<'a> {
    open spec fn le(&self, a: ProcessRowView, b: ProcessRowView) -> bool {
        group_le(self.order@, a, b)
    }

    fn may_precede(&self, a: &ProcessRow, b: &ProcessRow) -> (r: bool) {
        if a.category != b.category {
            return a.category == ProcessCategory::App;
        }
        let left: usize = first_seen_place(self.order, a.pid);
        let right: usize = first_seen_place(self.order, b.pid);
        if left != right {
            left < right
        } else {
            a.pid <= b.pid
        }
    }
}

/// The processes in the order of a sort mode.
pub open spec fn sorted_by_mode(rows: Seq<ProcessRowView>, mode: SortMode) -> Seq<
    ProcessRowView,
> {
    stable_sort(rows, |a: ProcessRowView, b: ProcessRowView| sort_mode_le(mode, a, b))
}

/// The processes in the order of the grouped list.
pub open spec fn sorted_by_group(rows: Seq<ProcessRowView>, order: Map<u32, usize>) -> Seq<
    ProcessRowView,
> {
    stable_sort(rows, |a: ProcessRowView, b: ProcessRowView| group_le(order, a, b))
}

/// Puts processes in the order of a sort mode.
pub fn sort_by_mode(rows: Vec<ProcessRow>, mode: SortMode) -> (sorted: Vec<ProcessRow>)
    ensures
        views(sorted@) == sorted_by_mode(views(rows@), mode),
{
    let order = BySortMode { mode };
    let sorted = sort_rows(rows, &order);
    assert(order_of::<ProcessRow, BySortMode>(order) =~= (|
        a: ProcessRowView,
        b: ProcessRowView,
    | sort_mode_le(mode, a, b)));
    sorted
}

/// Puts processes in the order of the grouped list.
pub fn sort_by_group(rows: Vec<ProcessRow>, order: &HashMap<u32, usize>) -> (sorted: Vec<
    ProcessRow,
>)
    ensures
        views(sorted@) == sorted_by_group(views(rows@), order@),
{
    let by_group = ByGroup { order };
    let sorted = sort_rows(rows, &by_group);
    assert(order_of::<ProcessRow, ByGroup<'_>>(by_group) =~= (|
        a: ProcessRowView,
        b: ProcessRowView,
    | group_le(order@, a, b)));
    sorted
}

/// Every sort mode orders any two processes, and chains.
proof fn lemma_sort_mode_is_preorder(mode: SortMode)
    ensures
        is_total_preorder(|a: ProcessRowView, b: ProcessRowView| sort_mode_le(mode, a, b)),
{
    let le = |a: ProcessRowView, b: ProcessRowView| sort_mode_le(mode, a, b);
    assert forall|a: ProcessRowView, b: ProcessRowView| #[trigger] le(a, b) || le(b, a) by {
        lemma_text_le_total(lowered(a.name), lowered(b.name));
    }
    assert forall|a: ProcessRowView, b: ProcessRowView, c: ProcessRowView| #[trigger]
        le(a, b) && #[trigger] le(b, c) implies le(a, c) by {
        if mode == SortMode::NameAsc {
            lemma_text_le_transitive(lowered(a.name), lowered(b.name), lowered(c.name));
            lemma_text_le_total(lowered(a.name), lowered(b.name));
            lemma_text_le_total(lowered(b.name), lowered(c.name));
        }
    }
}

/// Sorting by a mode keeps every process and puts them in the order of the mode.
pub proof fn sorting_by_mode_orders(rows: Seq<ProcessRowView>, mode: SortMode)
    ensures
        is_sorted(
            sorted_by_mode(rows, mode),
            |a: ProcessRowView, b: ProcessRowView| sort_mode_le(mode, a, b),
        ),
        sorted_by_mode(rows, mode).to_multiset() == rows.to_multiset(),
{
    let le = |a: ProcessRowView, b: ProcessRowView| sort_mode_le(mode, a, b);
    lemma_sort_mode_is_preorder(mode);
    stable_sort_is_sorted(rows, le);
    stable_sort_is_permutation(rows, le);
}

/// The grouped list holds every process, apps before background processes.
pub proof fn grouping_orders(rows: Seq<ProcessRowView>, order: Map<u32, usize>)
    ensures
        is_sorted(
            sorted_by_group(rows, order),
            |a: ProcessRowView, b: ProcessRowView| group_le(order, a, b),
        ),
        forall|i: int, j: int|
            0 <= i < j < rows.len() && (#[trigger] sorted_by_group(rows, order)[j]).category
                == ProcessCategory::App ==> (#[trigger] sorted_by_group(rows, order)[i]).category
                == ProcessCategory::App,
        sorted_by_group(rows, order).to_multiset() == rows.to_multiset(),
{
    let le = |a: ProcessRowView, b: ProcessRowView| group_le(order, a, b);
    assert(is_total_preorder(le));
    stable_sort_is_sorted(rows, le);
    stable_sort_is_permutation(rows, le);
    let sorted = sorted_by_group(rows, order);
    assert(sorted.to_multiset().len() == rows.to_multiset().len());
    broadcast use vstd::seq_lib::group_to_multiset_ensures;

    assert(sorted.len() == rows.len());
    assert forall|i: int, j: int|
        0 <= i < j < rows.len() && (#[trigger] sorted[j]).category
            == ProcessCategory::App implies (#[trigger] sorted[i]).category
        == ProcessCategory::App by {
        assert(le(sorted[i], sorted[j]));
    }
}

/// Whether a service may stand before another: by the lower case of its display name, then
/// by its service name.
pub open spec fn service_le(a: ServiceRowView, b: ServiceRowView) -> bool {
    text_le(lowered(a.display_name), lowered(b.display_name)) && (lowered(a.display_name)
        == lowered(b.display_name) ==> text_le(a.service_name, b.service_name))
}

/// The order of the service list.
pub struct ByDisplayName;

impl RowOrder<ServiceRow> for ByDisplayName {
    open spec fn le(&self, a: ServiceRowView, b: ServiceRowView) -> bool {
        service_le(a, b)
    }

    fn may_precede(&self, a: &ServiceRow, b: &ServiceRow) -> (r: bool) {
        let left = to_lower(a.display_name.as_str());
        let right = to_lower(b.display_name.as_str());
        text_precedes(left.as_str(), right.as_str()) && (left != right || text_precedes(
            a.service_name.as_str(),
            b.service_name.as_str(),
        ))
    }
}

/// Puts services in the order of the service list.
pub fn sort_services(rows: Vec<ServiceRow>) -> (sorted: Vec<ServiceRow>)
    ensures
        views(sorted@) == stable_sort(
            views(rows@),
            |a: ServiceRowView, b: ServiceRowView| service_le(a, b),
        ),
{
    let order = ByDisplayName;
    let sorted = sort_rows(rows, &order);
    assert(order_of::<ServiceRow, ByDisplayName>(order) =~= (|
        a: ServiceRowView,
        b: ServiceRowView,
    | service_le(a, b)));
    sorted
}

/// The service list holds every service, in the order of display names.
pub proof fn sorting_services_orders(rows: Seq<ServiceRowView>)
    ensures
        ({
            let le = |a: ServiceRowView, b: ServiceRowView| service_le(a, b);
            &&& is_sorted(stable_sort(rows, le), le)
            &&& stable_sort(rows, le).to_multiset() == rows.to_multiset()
        }),
{
    let le = |a: ServiceRowView, b: ServiceRowView| service_le(a, b);
    assert forall|a: ServiceRowView, b: ServiceRowView| #[trigger] le(a, b) || le(b, a) by {
        lemma_text_le_total(lowered(a.display_name), lowered(b.display_name));
        lemma_text_le_total(a.service_name, b.service_name);
    }
    assert forall|a: ServiceRowView, b: ServiceRowView, c: ServiceRowView| #[trigger]
        le(a, b) && #[trigger] le(b, c) implies le(a, c) by {
        lemma_text_le_transitive(
            lowered(a.display_name),
            lowered(b.display_name),
            lowered(c.display_name),
        );
        lemma_text_le_total(lowered(a.display_name), lowered(b.display_name));
        lemma_text_le_total(lowered(b.display_name), lowered(c.display_name));
        if lowered(a.display_name) == lowered(c.display_name) {
            lemma_text_le_transitive(a.service_name, b.service_name, c.service_name);
        }
    }
    stable_sort_is_sorted(rows, le);
    stable_sort_is_permutation(rows, le);
}

/// An entry of the process list: a row, by its index among the filtered rows.
#[derive(Debug, Clone, Copy, PartialEq, Eq, Structural)]
pub enum ProcessListEntry {
    Row(usize),
}

/// The indexes of the processes of a category, ascending.
pub open spec fn indexes_of(rows: Seq<ProcessRowView>, category: ProcessCategory) -> Seq<usize>
    decreases rows.len(),
{
    if rows.len() == 0 {
        Seq::empty()
    } else {
        let before = indexes_of(rows.drop_last(), category);
        if rows.last().category == category {
            before.push((rows.len() - 1) as usize)
        } else {
            before
        }
    }
}

/// The indexes of the apps and of the background processes, each ascending.
pub fn grouped_process_indexes(rows: &[ProcessRow]) -> (r: (Vec<usize>, Vec<usize>))
    ensures
        r.0@ == indexes_of(views(rows@), ProcessCategory::App),
        r.1@ == indexes_of(views(rows@), ProcessCategory::Background),
{
    let ghost models = views(rows@);
    let mut apps: Vec<usize> = Vec::new();
    let mut background: Vec<usize> = Vec::new();
    let mut i: usize = 0;
    while i < rows.len()
        invariant
            i <= rows.len(),
            models == views(rows@),
            apps@ == indexes_of(models.take(i as int), ProcessCategory::App),
            background@ == indexes_of(models.take(i as int), ProcessCategory::Background),
        decreases rows.len() - i,
    {
        assert(models.take(i + 1).drop_last() =~= models.take(i as int));
        assert(models.take(i + 1).last() == rows@[i as int]@);
        match rows[i].category {
            ProcessCategory::App => {
                apps.push(i);
            },
            ProcessCategory::Background => {
                background.push(i);
            },
        }
        i = i + 1;
    }
    assert(models.take(i as int) =~= models);
    (apps, background)
}

/// The indexes of a category are those of its processes, ascending.
pub proof fn indexes_are_the_category(rows: Seq<ProcessRowView>, category: ProcessCategory)
    requires
        rows.len() <= usize::MAX,
    ensures
        forall|i: usize|
            #![trigger indexes_of(rows, category).contains(i)]
            indexes_of(rows, category).contains(i) <==> i < rows.len() && rows[i as int].category
                == category,
        forall|i: int, j: int|
            0 <= i < j < indexes_of(rows, category).len() ==> #[trigger] indexes_of(
                rows,
                category,
            )[i] < #[trigger] indexes_of(rows, category)[j],
        indexes_of(rows, category).len() <= rows.len(),
    decreases rows.len(),
{
    let all = indexes_of(rows, category);
    if rows.len() > 0 {
        let front = rows.drop_last();
        let before = indexes_of(front, category);
        indexes_are_the_category(front, category);
        let last = (rows.len() - 1) as usize;
        assert forall|i: usize| #![trigger all.contains(i)]
            all.contains(i) <==> i < rows.len() && rows[i as int].category == category by {
            if before.contains(i) {
                let k = choose|k: int| 0 <= k < before.len() && before[k] == i;
                assert(all[k] == i);
            }
            if all.contains(i) && !before.contains(i) {
                let k = choose|k: int| 0 <= k < all.len() && all[k] == i;
                assert(k == before.len());
            }
            if i == last && rows.last().category == category {
                assert(all[before.len() as int] == last);
            }
        }
        assert forall|i: int, j: int| 0 <= i < j < all.len() implies #[trigger] all[i]
            < #[trigger] all[j] by {
            if j == before.len() {
                assert(before.contains(before[i]));
            }
        }
    }
}

/// The rows of the process list from top to bottom: in the order of the rows, or, without a
/// sort, the apps and then the background processes.
pub open spec fn listed_indexes(rows: Seq<ProcessRowView>, sorted: bool) -> Seq<usize> {
    if sorted {
        Seq::new(rows.len(), |i: int| i as usize)
    } else {
        indexes_of(rows, ProcessCategory::App) + indexes_of(rows, ProcessCategory::Background)
    }
}

/// The entries for a sequence of row indexes.
pub open spec fn entries_of(indexes: Seq<usize>) -> Seq<ProcessListEntry> {
    Seq::new(indexes.len(), |i: int| ProcessListEntry::Row(indexes[i]))
}

/// The entries of the process list from top to bottom.
pub fn list_entries(rows: &[ProcessRow], sorted: bool) -> (entries: Vec<ProcessListEntry>)
    ensures
        entries@ == entries_of(listed_indexes(views(rows@), sorted)),
{
    let mut entries: Vec<ProcessListEntry> = Vec::new();
    let mut i: usize = 0;
    if sorted {
        while i < rows.len()
            invariant
                i <= rows.len(),
                entries@.len() == i,
                forall|k: int|
                    0 <= k < i ==> #[trigger] entries@[k] == ProcessListEntry::Row(k as usize),
            decreases rows.len() - i,
        {
            entries.push(ProcessListEntry::Row(i));
            i = i + 1;
        }
        assert(entries@ =~= entries_of(listed_indexes(views(rows@), sorted)));
        return entries;
    }
    let (apps, background) = grouped_process_indexes(rows);
    while i < apps.len()
        invariant
            i <= apps.len(),
            entries@ == entries_of(apps@.take(i as int)),
        decreases apps.len() - i,
    {
        entries.push(ProcessListEntry::Row(apps[i]));
        i = i + 1;
        assert(entries@ =~= entries_of(apps@.take(i as int)));
    }
    i = 0;
    while i < background.len()
        invariant
            i <= background.len(),
            entries@ == entries_of(apps@ + background@.take(i as int)),
        decreases background.len() - i,
    {
        entries.push(ProcessListEntry::Row(background[i]));
        i = i + 1;
        assert(entries@ =~= entries_of(apps@ + background@.take(i as int)));
    }
    assert(background@.take(i as int) =~= background@);
    entries
}

/// Every filtered row has exactly one entry in the list, sorted or grouped.
pub proof fn every_row_is_listed_once(rows: Seq<ProcessRowView>, sorted: bool)
    requires
        rows.len() <= usize::MAX,
    ensures
        listed_indexes(rows, sorted).no_duplicates(),
        forall|i: usize|
            #![trigger listed_indexes(rows, sorted).contains(i)]
            listed_indexes(rows, sorted).contains(i) <==> i < rows.len(),
{
    let all = listed_indexes(rows, sorted);
    let apps = indexes_of(rows, ProcessCategory::App);
    let background = indexes_of(rows, ProcessCategory::Background);
    indexes_are_the_category(rows, ProcessCategory::App);
    indexes_are_the_category(rows, ProcessCategory::Background);
    if sorted {
        assert forall|i: usize| #![trigger all.contains(i)] all.contains(i) <==> i
            < rows.len() by {
            if i < rows.len() {
                assert(all[i as int] == i);
            }
        }
    } else {
        assert forall|i: int, j: int| 0 <= i < all.len() && 0 <= j < all.len() && i != j implies
            all[i] != all[j] by {
            if i < apps.len() {
                assert(apps.contains(all[i]));
            } else {
                assert(all[i] == background[i - apps.len()]);
                assert(background.contains(all[i]));
            }
            if j < apps.len() {
                assert(apps.contains(all[j]));
            } else {
                assert(all[j] == background[j - apps.len()]);
                assert(background.contains(all[j]));
            }
        }
        assert forall|i: usize| #![trigger all.contains(i)] all.contains(i) <==> i
            < rows.len() by {
            if all.contains(i) {
                let k = choose|k: int| 0 <= k < all.len() && all[k] == i;
                if k < apps.len() {
                    assert(apps[k] == i);
                    assert(apps.contains(i));
                } else {
                    assert(background[k - apps.len()] == i);
                    assert(background.contains(i));
                }
            }
            if i < rows.len() {
                match rows[i as int].category {
                    ProcessCategory::App => {
                        assert(apps.contains(i));
                        let k = choose|k: int| 0 <= k < apps.len() && apps[k] == i;
                        assert(all[k] == i);
                    },
                    ProcessCategory::Background => {
                        assert(background.contains(i));
                        let k = choose|k: int| 0 <= k < background.len() && background[k] == i;
                        assert(all[apps.len() + k] == i);
                    },
                }
            }
        }
    }
}

/// The place of a row in the list, from the top.
pub open spec fn place_in(entries: Seq<ProcessListEntry>, row: usize) -> Option<int> {
    entries.index_of_first(ProcessListEntry::Row(row))
}

/// The place of a row in the list, from the top.
pub fn selected_display_index(
    entries: &[ProcessListEntry],
    selected_process_index: usize,
) -> (place: Option<usize>)
    ensures
        match place {
            Some(i) => place_in(entries@, selected_process_index) == Some(i as int),
            None => place_in(entries@, selected_process_index) is None,
        },
        place matches Some(i) ==> i < entries.len(),
{
    let ghost wanted = ProcessListEntry::Row(selected_process_index);
    proof {
        entries@.index_of_first_ensures(wanted);
    }
    let mut i: usize = 0;
    while i < entries.len()
        invariant
            i <= entries.len(),
            wanted == ProcessListEntry::Row(selected_process_index),
            forall|k: int| 0 <= k < i ==> #[trigger] entries@[k] != wanted,
            match entries@.index_of_first(wanted) {
                Some(index) => {
                    &&& entries@.contains(wanted)
                    &&& 0 <= index < entries@.len()
                    &&& entries@[index] == wanted
                    &&& forall|j: int| 0 <= j < index < entries@.len() ==> entries@[j] != wanted
                },
                None => !entries@.contains(wanted),
            },
        decreases entries.len() - i,
    {
        let ProcessListEntry::Row(index) = entries[i];
        if index == selected_process_index {
            assert(entries@[i as int] == wanted);
            assert(entries@.contains(wanted));
            return Some(i);
        }
        i = i + 1;
    }
    None
}

/// The first entry to show so that the selected row shows.
pub open spec fn process_offset(
    entries: Seq<ProcessListEntry>,
    selected: usize,
    offset: int,
    visible: int,
) -> int {
    let place = match place_in(entries, selected) {
        Some(i) => i,
        None => 0,
    };
    window_offset(
        entries.len() as int,
        place,
        offset,
        if visible < 1 {
            1
        } else {
            visible
        },
    )
}

/// The first entry to show so that the selected row shows.
pub fn adjusted_process_offset(
    entries: &[ProcessListEntry],
    selected_process_index: usize,
    offset: usize,
    visible_rows: usize,
) -> (r: usize)
    ensures
        r == process_offset(entries@, selected_process_index, offset as int, visible_rows as int),
{
    let place: usize = match selected_display_index(entries, selected_process_index) {
        Some(i) => i,
        None => 0,
    };
    adjusted_offset(entries.len(), place, offset, max_usize(visible_rows, 1))
}

/// The row of an entry.
pub open spec fn row_at(entries: Seq<ProcessListEntry>, place: int) -> Option<usize> {
    if 0 <= place < entries.len() {
        let ProcessListEntry::Row(index) = entries[place];
        Some(index)
    } else {
        None
    }
}

/// The row of the entry at a place in the list.
pub fn display_to_process_index(entries: &[ProcessListEntry], display_index: usize) -> (r: Option<
    usize,
>)
    ensures
        r == row_at(entries@, display_index as int),
{
    if display_index < entries.len() {
        let ProcessListEntry::Row(index) = entries[display_index];
        Some(index)
    } else {
        None
    }
}

/// The row below another in the list; the last one is followed by itself.
pub open spec fn row_below(entries: Seq<ProcessListEntry>, current: usize) -> Option<usize> {
    match place_in(entries, current) {
        None => None,
        Some(place) => if place + 1 < entries.len() {
            row_at(entries, place + 1)
        } else {
            Some(current)
        },
    }
}

/// The row above another in the list; the first one is preceded by itself.
pub open spec fn row_above(entries: Seq<ProcessListEntry>, current: usize) -> Option<usize> {
    match place_in(entries, current) {
        None => None,
        Some(place) => if place > 0 {
            row_at(entries, place - 1)
        } else {
            Some(current)
        },
    }
}

/// The row below another in the list.
pub fn next_process_index(entries: &[ProcessListEntry], current_process_index: usize) -> (r: Option<
    usize,
>)
    ensures
        r == row_below(entries@, current_process_index),
{
    match selected_display_index(entries, current_process_index) {
        None => None,
        Some(place) => {
            if place + 1 < entries.len() {
                display_to_process_index(entries, place + 1)
            } else {
                Some(current_process_index)
            }
        },
    }
}

/// The row above another in the list.
pub fn prev_process_index(entries: &[ProcessListEntry], current_process_index: usize) -> (r: Option<
    usize,
>)
    ensures
        r == row_above(entries@, current_process_index),
{
    match selected_display_index(entries, current_process_index) {
        None => None,
        Some(place) => {
            if place > 0 {
                display_to_process_index(entries, place - 1)
            } else {
                Some(current_process_index)
            }
        },
    }
}

/// In a list without repetitions, going down and up again returns to the row, unless it is
/// the last one.
pub proof fn down_then_up_returns(entries: Seq<ProcessListEntry>, current: usize)
    requires
        entries.no_duplicates(),
        entries.contains(ProcessListEntry::Row(current)),
        entries.last() != ProcessListEntry::Row(current),
    ensures
        row_below(entries, current) matches Some(below) && row_above(entries, below) == Some(
            current,
        ),
{
    entries.index_of_first_ensures(ProcessListEntry::Row(current));
    let place = place_in(entries, current).unwrap();
    let ProcessListEntry::Row(below) = entries[place + 1];
    entries.index_of_first_ensures(ProcessListEntry::Row(below));
    assert(entries.contains(entries[place + 1]));
}

/// Whether one text comes strictly before another: at the first place where they differ, its
/// character is the smaller one, or it has none there.
pub open spec fn comes_before(a: Seq<char>, b: Seq<char>) -> bool {
    exists|k: int|
        0 <= k <= a.len() && k < b.len() && #[trigger] a.take(k) == b.take(k) && (k == a.len() || (
        a[k] as int) < b[k] as int)
}

/// A text stands before another in the order of texts exactly if it is the same or comes before
/// it.
pub proof fn texts_stand_by_their_first_difference(a: Seq<char>, b: Seq<char>)
    ensures
        text_le(a, b) <==> a == b || comes_before(a, b),
    decreases a.len(),
{
    if a.len() == 0 {
        if b.len() == 0 {
            assert(a =~= b);
        } else {
            assert(a.take(0) =~= b.take(0));
            assert(comes_before(a, b));
        }
    } else if b.len() > 0 {
        if a[0] == b[0] {
            let (x, y) = (a.drop_first(), b.drop_first());
            texts_stand_by_their_first_difference(x, y);
            assert(a =~= seq![a[0]] + x);
            assert(b =~= seq![b[0]] + y);
            if comes_before(x, y) {
                let k = choose|k: int|
                    0 <= k <= x.len() && k < y.len() && #[trigger] x.take(k) == y.take(k) && (k
                        == x.len() || (x[k] as int) < y[k] as int);
                assert(a.take(k + 1) =~= seq![a[0]] + x.take(k));
                assert(b.take(k + 1) =~= seq![b[0]] + y.take(k));
                assert(comes_before(a, b));
            }
            if comes_before(a, b) {
                let k = choose|k: int|
                    0 <= k <= a.len() && k < b.len() && #[trigger] a.take(k) == b.take(k) && (k
                        == a.len() || (a[k] as int) < b[k] as int);
                assert(k > 0);
                assert(x.take(k - 1) =~= a.take(k).drop_first());
                assert(y.take(k - 1) =~= b.take(k).drop_first());
                assert(comes_before(x, y));
            }
        } else {
            if a[0] < b[0] {
                assert(a.take(0) =~= b.take(0));
                assert(comes_before(a, b));
            }
            if comes_before(a, b) {
                let k = choose|k: int|
                    0 <= k <= a.len() && k < b.len() && #[trigger] a.take(k) == b.take(k) && (k
                        == a.len() || (a[k] as int) < b[k] as int);
                if k > 0 {
                    assert(a.take(k)[0] == b.take(k)[0]);
                }
            }
        }
    } else {
        assert(!comes_before(a, b));
        assert(a.len() != b.len());
    }
}

/// In a sorted list the processes with more CPU load, more memory, a lower number, or an earlier
/// name stand above the others, by what the list is sorted by; among equals the lower number
/// stands above. Names are compared in lower case.
pub proof fn sorted_processes_descend(rows: Seq<ProcessRowView>, mode: SortMode, i: int, j: int)
    requires
        0 <= i < j < sorted_by_mode(rows, mode).len(),
    ensures
        ({
            let above = sorted_by_mode(rows, mode)[i];
            let below = sorted_by_mode(rows, mode)[j];
            &&& mode == SortMode::CpuDesc ==> above.cpu_percent.bits >= below.cpu_percent.bits && (
            above.cpu_percent.bits == below.cpu_percent.bits ==> above.pid <= below.pid)
            &&& mode == SortMode::MemoryDesc ==> above.memory_bytes >= below.memory_bytes && (
            above.memory_bytes == below.memory_bytes ==> above.pid <= below.pid)
            &&& mode == SortMode::PidAsc ==> above.pid <= below.pid
            &&& mode == SortMode::NameAsc ==> comes_before(lowered(above.name), lowered(below.name))
                || (lowered(above.name) == lowered(below.name) && above.pid <= below.pid)
        }),
        sorted_by_mode(rows, mode).to_multiset() == rows.to_multiset(),
        sorted_by_mode(rows, mode).len() == rows.len(),
{
    let le = |a: ProcessRowView, b: ProcessRowView| sort_mode_le(mode, a, b);
    let above = sorted_by_mode(rows, mode)[i];
    let below = sorted_by_mode(rows, mode)[j];
    sorting_by_mode_orders(rows, mode);
    stable_sort_is_permutation(rows, le);
    assert(le(above, below));
    texts_stand_by_their_first_difference(lowered(above.name), lowered(below.name));
}

/// In the grouped list every app stands above every background process. Within a group the
/// process that appeared first stands above, one that has no rank stands below those that have
/// one, and among equals the lower number stands above.
pub proof fn grouped_processes_keep_their_places(
    rows: Seq<ProcessRowView>,
    order: Map<u32, usize>,
    i: int,
    j: int,
)
    requires
        0 <= i < j < sorted_by_group(rows, order).len(),
    ensures
        ({
            let above = sorted_by_group(rows, order)[i];
            let below = sorted_by_group(rows, order)[j];
            let known = order.contains_key(above.pid) && order.contains_key(below.pid);
            &&& below.category == ProcessCategory::App ==> above.category == ProcessCategory::App
            &&& above.category == below.category ==> {
                &&& known ==> order[above.pid] <= order[below.pid] && (order[above.pid]
                    == order[below.pid] ==> above.pid <= below.pid)
                &&& !order.contains_key(above.pid) && order.contains_key(below.pid)
                    ==> order[below.pid] == usize::MAX && above.pid <= below.pid
                &&& !order.contains_key(above.pid) && !order.contains_key(below.pid) ==> above.pid
                    <= below.pid
            }
        }),
        sorted_by_group(rows, order).to_multiset() == rows.to_multiset(),
        sorted_by_group(rows, order).len() == rows.len(),
{
    let le = |a: ProcessRowView, b: ProcessRowView| group_le(order, a, b);
    grouping_orders(rows, order);
    stable_sort_is_permutation(rows, le);
    assert(le(sorted_by_group(rows, order)[i], sorted_by_group(rows, order)[j]));
}

/// The services stand by their display names in lower case; those that share one stand by their
/// service names.
pub proof fn sorted_services_ascend(rows: Seq<ServiceRowView>, i: int, j: int)
    requires
        0 <= i < j < rows.len(),
    ensures
        ({
            let sorted = stable_sort(rows, |a: ServiceRowView, b: ServiceRowView| service_le(a, b));
            let above = sorted[i];
            let below = sorted[j];
            &&& sorted.to_multiset() == rows.to_multiset() && sorted.len() == rows.len()
            &&& comes_before(lowered(above.display_name), lowered(below.display_name)) || (lowered(
                above.display_name,
            ) == lowered(below.display_name) && (above.service_name == below.service_name
                || comes_before(above.service_name, below.service_name)))
        }),
{
    let le = |a: ServiceRowView, b: ServiceRowView| service_le(a, b);
    let sorted = stable_sort(rows, le);
    sorting_services_orders(rows);
    stable_sort_is_permutation(rows, le);
    assert(le(sorted[i], sorted[j]));
    texts_stand_by_their_first_difference(
        lowered(sorted[i].display_name),
        lowered(sorted[j].display_name),
    );
    texts_stand_by_their_first_difference(sorted[i].service_name, sorted[j].service_name);
}

/// From top to bottom the sorted list holds the rows as they are; the other list holds all apps
/// before all background processes, and each group in the order of the rows.
pub proof fn entries_stand_by_group(rows: Seq<ProcessRowView>, sorted: bool, i: int, j: int)
    requires
        rows.len() <= usize::MAX,
        0 <= i < j < listed_indexes(rows, sorted).len(),
    ensures
        listed_indexes(rows, sorted).len() == rows.len(),
        sorted ==> listed_indexes(rows, sorted)[i] == i && listed_indexes(rows, sorted)[j] == j,
        ({
            let upper = listed_indexes(rows, sorted)[i] as int;
            let lower = listed_indexes(rows, sorted)[j] as int;
            &&& 0 <= upper < rows.len() && 0 <= lower < rows.len()
            &&& !sorted && rows[lower].category == ProcessCategory::App ==> rows[upper].category
                == ProcessCategory::App
            &&& !sorted && rows[lower].category == rows[upper].category ==> upper < lower
            &&& entries_of(listed_indexes(rows, sorted))[i] == ProcessListEntry::Row(
                listed_indexes(rows, sorted)[i],
            )
        }),
{
    let all = listed_indexes(rows, sorted);
    let apps = indexes_of(rows, ProcessCategory::App);
    let background = indexes_of(rows, ProcessCategory::Background);
    indexes_are_the_category(rows, ProcessCategory::App);
    indexes_are_the_category(rows, ProcessCategory::Background);
    lemma_groups_count_all(rows);
    if !sorted {
        assert forall|k: int| 0 <= k < all.len() implies (#[trigger] all[k]) < rows.len()
            && rows[all[k] as int].category == (if k < apps.len() {
            ProcessCategory::App
        } else {
            ProcessCategory::Background
        }) by {
            if k < apps.len() {
                assert(apps.contains(apps[k]));
            } else {
                assert(background.contains(background[k - apps.len()]));
            }
        }
        assert(all[i] < rows.len() && all[j] < rows.len());
        if j < apps.len() {
            assert(apps[i] < apps[j]);
        } else if i >= apps.len() {
            assert(background[i - apps.len()] < background[j - apps.len()]);
        }
    }
}

/// The two groups make up all processes.
proof fn lemma_groups_count_all(rows: Seq<ProcessRowView>)
    ensures
        indexes_of(rows, ProcessCategory::App).len() + indexes_of(
            rows,
            ProcessCategory::Background,
        ).len() == rows.len(),
    decreases rows.len(),
{
    if rows.len() > 0 {
        lemma_groups_count_all(rows.drop_last());
    }
}

/// Below an entry of the list stands the next one, and above it the one before; the last and the
/// first stay where they are. A row that is not in the list has no neighbours.
pub proof fn neighbours_are_next_in_the_list(
    entries: Seq<ProcessListEntry>,
    place: int,
    current: usize,
)
    ensures
        0 <= place < entries.len() && entries[place] == ProcessListEntry::Row(current) && (forall|
            k: int,
        |
            0 <= k < place ==> #[trigger] entries[k] != ProcessListEntry::Row(current)) ==> {
            &&& place_in(entries, current) == Some(place)
            &&& row_at(entries, place) == Some(current)
            &&& if place + 1 < entries.len() {
                row_below(entries, current) matches Some(below) && ProcessListEntry::Row(below)
                    == entries[place + 1]
            } else {
                row_below(entries, current) == Some(current)
            }
            &&& if place > 0 {
                row_above(entries, current) matches Some(above) && ProcessListEntry::Row(above)
                    == entries[place - 1]
            } else {
                row_above(entries, current) == Some(current)
            }
        },
        !entries.contains(ProcessListEntry::Row(current)) ==> place_in(entries, current) is None
            && row_below(entries, current) is None && row_above(entries, current) is None,
        !(0 <= place < entries.len()) ==> row_at(entries, place) is None,
{
    entries.index_of_first_ensures(ProcessListEntry::Row(current));
    if 0 <= place < entries.len() && entries[place] == ProcessListEntry::Row(current) {
        assert(entries.contains(entries[place]));
        let first = entries.index_of_first(ProcessListEntry::Row(current)).unwrap();
        if forall|k: int| 0 <= k < place ==> #[trigger] entries[k] != ProcessListEntry::Row(
            current,
        ) {
            assert(entries[first] == ProcessListEntry::Row(current));
            assert(first == place);
        }
    }
}

} // verus!
