//! The process tree, flattened into a list of indented rows.

use crate::rows::{ProcessRow, ProcessRowView};
use crate::sorting::{order_of, sort_rows, stable_sort, views, RowOrder};
use vstd::prelude::*;

verus! {

/// Rows in ascending order of their process identifiers.
pub struct ByPid;

/// Whether `a` has the smaller process identifier, or the same.
pub open spec fn pid_le(a: ProcessRowView, b: ProcessRowView) -> bool {
    a.pid <= b.pid
}

impl RowOrder<ProcessRow> for ByPid {
    open spec fn le(&self, a: ProcessRowView, b: ProcessRowView) -> bool {
        pid_le(a, b)
    }

    fn may_precede(&self, a: &ProcessRow, b: &ProcessRow) -> (r: bool) {
        a.pid <= b.pid
    }
}

/// The rank of a parent among all parents: having none comes before any identifier.
pub open spec fn parent_rank(parent: Option<u32>) -> int {
    match parent {
        Some(pid) => pid as int,
        None => -1,
    }
}

/// Rows in ascending order of their parents, and below one parent of their own identifiers.
pub struct ByParent;

/// Whether `a` comes first by parent, or by identifier under the same parent.
pub open spec fn parent_le(a: ProcessRowView, b: ProcessRowView) -> bool {
    if a.parent_pid == b.parent_pid {
        a.pid <= b.pid
    } else {
        parent_rank(a.parent_pid) < parent_rank(b.parent_pid)
    }
}

impl RowOrder<ProcessRow> for ByParent {
    open spec fn le(&self, a: ProcessRowView, b: ProcessRowView) -> bool {
        parent_le(a, b)
    }

    fn may_precede(&self, a: &ProcessRow, b: &ProcessRow) -> (r: bool) {
        match (a.parent_pid, b.parent_pid) {
            (None, None) => a.pid <= b.pid,
            (None, Some(_)) => true,
            (Some(_), None) => false,
            (Some(p), Some(q)) => if p == q {
                a.pid <= b.pid
            } else {
                p < q
            },
        }
    }
}

/// A row moved to another depth of the tree.
pub open spec fn at_depth(row: ProcessRowView, depth: nat) -> ProcessRowView {
    ProcessRowView { depth, ..row }
}

/// The rows whose parent is `parent`, in the order of the list, moved to a depth.
pub open spec fn rows_below(
    rows: Seq<ProcessRowView>,
    parent: Option<u32>,
    depth: nat,
) -> Seq<ProcessRowView> {
    rows.filter(|r: ProcessRowView| r.parent_pid == parent).map_values(
        |r: ProcessRowView| at_depth(r, depth),
    )
}

/// The children of `parent` as they stand in the tree: by identifier.
pub open spec fn children(
    rows: Seq<ProcessRowView>,
    parent: Option<u32>,
    depth: nat,
) -> Seq<ProcessRowView> {
    stable_sort(rows_below(rows, parent, depth), order_of::<ProcessRow, ByPid>(ByPid))
}

/// Everything that some row names as its parent.
pub open spec fn parents(rows: Seq<ProcessRowView>) -> Set<Option<u32>> {
    rows.map_values(|r: ProcessRowView| r.parent_pid).to_set()
}

/// The parents whose children have not been listed yet.
pub open spec fn open_parents(rows: Seq<ProcessRowView>, listed: Set<Option<u32>>) -> Set<
    Option<u32>,
> {
    parents(rows).difference(listed)
}

/// Listing the children of a parent leaves one open parent less.
pub proof fn lemma_open_parents_shrink(
    rows: Seq<ProcessRowView>,
    listed: Set<Option<u32>>,
    parent: Option<u32>,
)
    ensures
        open_parents(rows, listed).finite(),
        open_parents(rows, listed).contains(parent) ==> open_parents(
            rows,
            listed.insert(parent),
        ).len() == open_parents(rows, listed).len() - 1,
{
    assert(parents(rows).finite()) by {
        vstd::seq_lib::seq_to_set_is_finite(rows.map_values(|r: ProcessRowView| r.parent_pid));
    }
    assert(open_parents(rows, listed.insert(parent)) =~= open_parents(rows, listed).remove(parent));
}

/// Lists the rows in `next`, each followed by all that is below it.
///
/// The children of a parent are listed once, below the first row with its identifier. The
/// second part of the result is the parents whose children have been listed.
pub open spec fn walk(
    rows: Seq<ProcessRowView>,
    next: Seq<ProcessRowView>,
    listed: Set<Option<u32>>,
) -> (Seq<ProcessRowView>, Set<Option<u32>>)
    decreases open_parents(rows, listed).len(), next.len(),
{
    if next.len() == 0 {
        (Seq::empty(), listed)
    } else {
        let row = next[0];
        let key = Some(row.pid);
        proof {
            lemma_open_parents_shrink(rows, listed, key);
        }
        let rest = if open_parents(rows, listed).contains(key) {
            walk(rows, children(rows, key, row.depth + 1) + next.drop_first(), listed.insert(key))
        } else {
            walk(rows, next.drop_first(), listed)
        };
        (seq![row] + rest.0, rest.1)
    }
}

/// What the walk from the rows without a parent gives.
pub open spec fn walk_from_roots(rows: Seq<ProcessRowView>) -> (
    Seq<ProcessRowView>,
    Set<Option<u32>>,
) {
    walk(rows, children(rows, None, 0), set![None])
}

/// The rows that no walk from the roots reaches, at depth zero, by parent and identifier.
pub open spec fn orphans(rows: Seq<ProcessRowView>, listed: Set<Option<u32>>) -> Seq<
    ProcessRowView,
> {
    stable_sort(
        rows.filter(|r: ProcessRowView| !listed.contains(r.parent_pid)).map_values(
            |r: ProcessRowView| at_depth(r, 0),
        ),
        order_of::<ProcessRow, ByParent>(ByParent),
    )
}

/// The flattened process tree: first what the roots lead to, then the orphans.
pub open spec fn flattened(rows: Seq<ProcessRowView>) -> Seq<ProcessRowView> {
    let walked = walk_from_roots(rows);
    walked.0 + orphans(rows, walked.1)
}

/// The rows that satisfy a test, moved to a depth, as one pass over the list gives them.
proof fn lemma_filter_map_step(
    rows: Seq<ProcessRowView>,
    keep: spec_fn(ProcessRowView) -> bool,
    depth: nat,
    i: int,
)
    requires
        0 <= i < rows.len(),
    ensures
        rows.take(i + 1).filter(keep).map_values(|r: ProcessRowView| at_depth(r, depth)) == (
        if keep(rows[i]) {
            rows.take(i).filter(keep).map_values(|r: ProcessRowView| at_depth(r, depth)).push(
                at_depth(rows[i], depth),
            )
        } else {
            rows.take(i).filter(keep).map_values(|r: ProcessRowView| at_depth(r, depth))
        }),
{
    assert(rows.take(i + 1) =~= rows.take(i).push(rows[i]));
    rows.take(i).lemma_filter_push(rows[i], keep);
    let move_to = |r: ProcessRowView| at_depth(r, depth);
    assert(rows.take(i).filter(keep).push(rows[i]).map_values(move_to) =~= rows.take(i).filter(
        keep,
    ).map_values(move_to).push(at_depth(rows[i], depth)));
}

/// The children of `parent`, at the given depth and by identifier.
fn collect_children(rows: &[ProcessRow], parent: Option<u32>, depth: usize) -> (found: Vec<
    ProcessRow,
>)
    ensures
        views(found@) == children(views(rows@), parent, depth as nat),
{
    let ghost models = views(rows@);
    let ghost keep = |r: ProcessRowView| r.parent_pid == parent;
    let mut found: Vec<ProcessRow> = Vec::new();
    let mut i: usize = 0;
    proof {
        reveal(Seq::filter);
        assert(views(found@) =~= rows_below(models.take(0), parent, depth as nat));
    }
    while i < rows.len()
        invariant
            i <= rows.len(),
            models == views(rows@),
            keep == (|r: ProcessRowView| r.parent_pid == parent),
            views(found@) == rows_below(models.take(i as int), parent, depth as nat),
        decreases rows.len() - i,
    {
        let ghost before = found@;
        proof {
            lemma_filter_map_step(models, keep, depth as nat, i as int);
        }
        if rows[i].parent_pid == parent {
            let mut row = rows[i].clone();
            row.depth = depth;
            found.push(row);
            assert(views(found@) =~= views(before).push(at_depth(models[i as int], depth as nat)));
        }
        i = i + 1;
    }
    assert(models.take(i as int) =~= models);
    sort_rows(found, &ByPid)
}

/// A parent has children exactly if some row names it.
proof fn lemma_children_exist(rows: Seq<ProcessRowView>, parent: Option<u32>, depth: nat)
    ensures
        parents(rows).contains(parent) <==> children(rows, parent, depth).len() > 0,
        forall|i: int|
            0 <= i < children(rows, parent, depth).len() ==> (#[trigger] children(
                rows,
                parent,
                depth,
            )[i]).depth == depth && children(rows, parent, depth)[i].parent_pid == parent,
{
    let keep = |r: ProcessRowView| r.parent_pid == parent;
    let keys = rows.map_values(|r: ProcessRowView| r.parent_pid);
    let below = rows_below(rows, parent, depth);
    let sorted = children(rows, parent, depth);
    broadcast use {Seq::lemma_filter_pred, Seq::lemma_filter_contains};
    crate::sorting::stable_sort_is_permutation(below, order_of::<ProcessRow, ByPid>(ByPid));
    assert(below.len() == rows.filter(keep).len());
    if parents(rows).contains(parent) {
        let i = choose|i: int| 0 <= i < keys.len() && keys[i] == parent;
        assert(keep(rows[i]));
        assert(rows.filter(keep).contains(rows[i]));
    }
    if rows.filter(keep).len() > 0 {
        let first = rows.filter(keep)[0];
        assert(keep(first));
        rows.lemma_filter_contains_rev(keep, first);
        let i = choose|i: int| 0 <= i < rows.len() && rows[i] == first;
        assert(keys[i] == parent);
    }
    assert forall|i: int| 0 <= i < sorted.len() implies (#[trigger] sorted[i]).depth == depth
        && sorted[i].parent_pid == parent by {
        broadcast use vstd::seq_lib::group_to_multiset_ensures;

        assert(sorted.to_multiset().count(sorted[i]) > 0);
        assert(below.contains(sorted[i]));
        let k = choose|k: int| 0 <= k < below.len() && below[k] == sorted[i];
        assert(keep(rows.filter(keep)[k]));
    }
}

/// There are no more parents than rows.
proof fn lemma_parents_are_few(rows: Seq<ProcessRowView>)
    ensures
        parents(rows).finite(),
        parents(rows).len() <= rows.len(),
{
    let keys = rows.map_values(|r: ProcessRowView| r.parent_pid);
    keys.lemma_cardinality_of_set();
    vstd::seq_lib::seq_to_set_is_finite(keys);
}

/// Whether `key` stands in `keys`.
fn has_key(keys: &Vec<Option<u32>>, key: Option<u32>) -> (found: bool)
    ensures
        found == keys@.to_set().contains(key),
{
    let mut i: usize = 0;
    while i < keys.len()
        invariant
            i <= keys.len(),
            forall|k: int| 0 <= k < i ==> keys@[k] != key,
        decreases keys.len() - i,
    {
        if keys[i] == key {
            assert(keys@.contains(key));
            return true;
        }
        i = i + 1;
    }
    assert(!keys@.contains(key));
    false
}

/// Whether some row names `parent` as its parent.
fn has_child(rows: &[ProcessRow], parent: Option<u32>) -> (found: bool)
    ensures
        found == parents(views(rows@)).contains(parent),
{
    let ghost keys = views(rows@).map_values(|r: ProcessRowView| r.parent_pid);
    let mut i: usize = 0;
    while i < rows.len()
        invariant
            i <= rows.len(),
            keys == views(rows@).map_values(|r: ProcessRowView| r.parent_pid),
            forall|k: int| 0 <= k < i ==> keys[k] != parent,
        decreases rows.len() - i,
    {
        if rows[i].parent_pid == parent {
            assert(keys[i as int] == parent);
            assert(keys.contains(parent));
            return true;
        }
        i = i + 1;
    }
    assert(!keys.contains(parent));
    false
}

/// Turns the order of the rows round.
fn reverse_rows(rows: &mut Vec<ProcessRow>)
    ensures
        final(rows)@ == old(rows)@.reverse(),
{
    let mut turned: Vec<ProcessRow> = Vec::new();
    let ghost input = rows@;
    while rows.len() > 0
        invariant
            rows@ == input.take(rows.len() as int),
            turned@.len() + rows@.len() == input.len(),
            forall|k: int|
                0 <= k < turned@.len() ==> #[trigger] turned@[k] == input[input.len() - 1 - k],
        decreases rows.len(),
    {
        if let Some(row) = rows.pop() {
            turned.push(row);
        }
    }
    rows.append(&mut turned);
    assert(rows@ =~= input.reverse());
}

/// The rows that no walk from the roots reaches.
fn collect_orphans(rows: &[ProcessRow], listed: &Vec<Option<u32>>) -> (found: Vec<ProcessRow>)
    ensures
        views(found@) == orphans(views(rows@), listed@.to_set()),
{
    let ghost models = views(rows@);
    let ghost keep = |r: ProcessRowView| !listed@.to_set().contains(r.parent_pid);
    let ghost move_to = |r: ProcessRowView| at_depth(r, 0);
    let mut found: Vec<ProcessRow> = Vec::new();
    let mut i: usize = 0;
    proof {
        reveal(Seq::filter);
        assert(views(found@) =~= models.take(0).filter(keep).map_values(move_to));
    }
    while i < rows.len()
        invariant
            i <= rows.len(),
            models == views(rows@),
            keep == (|r: ProcessRowView| !listed@.to_set().contains(r.parent_pid)),
            move_to == (|r: ProcessRowView| at_depth(r, 0)),
            views(found@) == models.take(i as int).filter(keep).map_values(move_to),
        decreases rows.len() - i,
    {
        let ghost before = found@;
        proof {
            lemma_filter_map_step(models, keep, 0, i as int);
        }
        if !has_key(listed, rows[i].parent_pid) {
            let mut row = rows[i].clone();
            row.depth = 0;
            found.push(row);
            assert(views(found@) =~= views(before).push(at_depth(models[i as int], 0)));
        }
        i = i + 1;
    }
    assert(models.take(i as int) =~= models);
    sort_rows(found, &ByParent)
}

/// Flattens the process tree.
///
/// Rows without a parent come first, each followed by its descendants one level deeper per
/// generation; siblings stand by identifier. Rows that are not reached this way, because
/// their parent is not listed or they are their own ancestors, follow at depth zero.
pub fn flatten_process_tree(rows: &[ProcessRow]) -> (flat: Vec<ProcessRow>)
    ensures
        views(flat@) == flattened(views(rows@)),
{
    let ghost models = views(rows@);
    let count: usize = rows.len();
    let mut output: Vec<ProcessRow> = Vec::new();
    let mut listed: Vec<Option<u32>> = Vec::new();
    listed.push(None);
    // The rows that are next stand at the end.
    let mut next: Vec<ProcessRow> = collect_children(rows, None, 0);
    let ghost roots = views(next@);
    reverse_rows(&mut next);
    proof {
        lemma_parents_are_few(models);
        lemma_children_exist(models, None, 0);
        lemma_open_parents_shrink(models, set![None], None);
        vstd::set_lib::lemma_len_subset(open_parents(models, set![None]), parents(models));
        assert(listed@ =~= Seq::<Option<u32>>::empty().push(None));
        Seq::<Option<u32>>::empty().lemma_push_to_set_commute(None);
        assert(Seq::<Option<u32>>::empty().to_set() =~= Set::empty());
        assert(listed@.to_set() =~= set![None]);
        assert forall|k: int| 0 <= k < next@.len() implies (#[trigger] next@[k]).depth == 0 by {
            assert(next@[k]@ == roots[roots.len() - 1 - k]);
        }
        assert(views(next@).reverse() =~= roots);
        assert(views(output@) =~= Seq::empty());
        assert(views(output@) + walk(models, roots, set![None]).0 =~= walk_from_roots(models).0);
    }
    while next.len() > 0
        invariant
            models == views(rows@),
            count == rows@.len(),
            views(output@) + walk(models, views(next@).reverse(), listed@.to_set()).0
                == walk_from_roots(models).0,
            walk(models, views(next@).reverse(), listed@.to_set()).1 == walk_from_roots(models).1,
            forall|k: int|
                0 <= k < next@.len() ==> (#[trigger] next@[k]).depth + open_parents(
                    models,
                    listed@.to_set(),
                ).len() <= count,
        decreases open_parents(models, listed@.to_set()).len(), next.len(),
    {
        let ghost before = next@;
        let ghost listed_seq = listed@;
        let ghost listed_before = listed@.to_set();
        let ghost line = views(before).reverse();
        if let Some(row) = next.pop() {
            let key: Option<u32> = Some(row.pid);
            let ghost model = row@;
            assert(line[0] == model);
            assert(line.drop_first() =~= views(next@).reverse());
            proof {
                lemma_open_parents_shrink(models, listed_before, key);
                assert(row == before[before.len() - 1]);
            }
            if !has_key(&listed, key) {
                if has_child(rows, key) {
                    proof {
                        lemma_children_exist(models, key, model.depth + 1);
                        assert(open_parents(models, listed_before).contains(key));
                        assert(open_parents(models, listed_before).len() > 0);
                    }
                    let mut below: Vec<ProcessRow> = collect_children(rows, key, row.depth + 1);
                    let ghost kids = views(below@);
                    reverse_rows(&mut below);
                    let ghost rest = next@;
                    next.append(&mut below);
                    listed.push(key);
                    proof {
                        listed_seq.lemma_push_to_set_commute(key);
                        assert(views(next@).reverse() =~= kids + line.drop_first());
                        assert forall|k: int| 0 <= k < next@.len() implies (
                        #[trigger] next@[k]).depth + open_parents(models, listed@.to_set()).len()
                            <= count by {
                            if k < rest.len() {
                                assert(next@[k] == before[k]);
                            } else {
                                assert(next@[k]@ == kids[kids.len() - 1 - (k - rest.len())]);
                            }
                        }
                    }
                } else {
                    proof {
                        assert(!open_parents(models, listed_before).contains(key));
                    }
                }
            }
            output.push(row);
            proof {
                let tail = walk(models, views(next@).reverse(), listed@.to_set()).0;
                assert(views(output@) =~= views(output@.drop_last()).push(model));
                assert(views(output@) + tail =~= views(output@.drop_last()) + (seq![model] + tail));
            }
        }
    }
    let mut rest: Vec<ProcessRow> = collect_orphans(rows, &listed);
    let ghost walked = views(output@);
    let ghost lost = views(rest@);
    output.append(&mut rest);
    proof {
        assert(views(next@).reverse() =~= Seq::empty());
        assert(walked =~= walk_from_roots(models).0);
        assert(views(output@) =~= walked + lost);
    }
    output
}

/// The rows as they stand in the list, whatever their depths.
pub open spec fn depthless(rows: Seq<ProcessRowView>) -> Seq<ProcessRowView> {
    rows.map_values(|r: ProcessRowView| at_depth(r, 0))
}

/// The rows whose parents have not been listed.
pub open spec fn unlisted(rows: Seq<ProcessRowView>, listed: Set<Option<u32>>) -> Seq<
    ProcessRowView,
> {
    rows.filter(|r: ProcessRowView| !listed.contains(r.parent_pid))
}

/// Splitting the rows by a test loses none and doubles none.
proof fn lemma_filter_splits(
    rows: Seq<ProcessRowView>,
    whole: spec_fn(ProcessRowView) -> bool,
    left: spec_fn(ProcessRowView) -> bool,
    right: spec_fn(ProcessRowView) -> bool,
)
    requires
        forall|r: ProcessRowView| #[trigger] whole(r) <==> left(r) || right(r),
        forall|r: ProcessRowView| !(#[trigger] left(r) && right(r)),
    ensures
        depthless(rows.filter(whole)).to_multiset() == depthless(
            rows.filter(left),
        ).to_multiset().add(depthless(rows.filter(right)).to_multiset()),
    decreases rows.len(),
{
    broadcast use vstd::seq_lib::group_to_multiset_ensures;

    let move_to = |r: ProcessRowView| at_depth(r, 0);
    if rows.len() == 0 {
        reveal(Seq::filter);
        assert(depthless(rows.filter(whole)) =~= Seq::empty());
        assert(depthless(rows.filter(left)) =~= Seq::empty());
        assert(depthless(rows.filter(right)) =~= Seq::empty());
        assert(depthless(rows.filter(whole)).to_multiset() =~= depthless(
            rows.filter(left),
        ).to_multiset().add(depthless(rows.filter(right)).to_multiset()));
    } else {
        let t = rows.drop_last();
        let x = rows.last();
        lemma_filter_splits(t, whole, left, right);
        assert(t.push(x) =~= rows);
        t.lemma_filter_push(x, whole);
        t.lemma_filter_push(x, left);
        t.lemma_filter_push(x, right);
        assert(whole(x) <==> left(x) || right(x));
        assert(!(left(x) && right(x)));
        assert forall|s: Seq<ProcessRowView>| #[trigger]
            depthless(s.push(x)) == depthless(s).push(at_depth(x, 0)) by {
            assert(depthless(s.push(x)) =~= depthless(s).push(at_depth(x, 0)));
        }
        let l = depthless(t.filter(left)).to_multiset();
        let r = depthless(t.filter(right)).to_multiset();
        assert(l.add(r).insert(at_depth(x, 0)) =~= l.insert(at_depth(x, 0)).add(r));
        assert(l.add(r).insert(at_depth(x, 0)) =~= l.add(r.insert(at_depth(x, 0))));
    }
}

/// Listing the children of one more parent moves them out of the rows still to be listed.
proof fn lemma_children_leave_unlisted(
    rows: Seq<ProcessRowView>,
    listed: Set<Option<u32>>,
    parent: Option<u32>,
    depth: nat,
)
    requires
        !listed.contains(parent),
    ensures
        depthless(unlisted(rows, listed)).to_multiset() == depthless(
            children(rows, parent, depth),
        ).to_multiset().add(depthless(unlisted(rows, listed.insert(parent))).to_multiset()),
{
    let below = |r: ProcessRowView| r.parent_pid == parent;
    lemma_filter_splits(
        rows,
        |r: ProcessRowView| !listed.contains(r.parent_pid),
        below,
        |r: ProcessRowView| !listed.insert(parent).contains(r.parent_pid),
    );
    crate::sorting::stable_sort_keeps_images(
        rows_below(rows, parent, depth),
        order_of::<ProcessRow, ByPid>(ByPid),
        |r: ProcessRowView| at_depth(r, 0),
    );
    assert(depthless(rows_below(rows, parent, depth)) =~= depthless(rows.filter(below)));
}

/// Joined lists hold what their parts hold.
proof fn lemma_depthless_joins(left: Seq<ProcessRowView>, right: Seq<ProcessRowView>)
    ensures
        depthless(left + right).to_multiset() == depthless(left).to_multiset().add(
            depthless(right).to_multiset(),
        ),
{
    assert(depthless(left + right) =~= depthless(left) + depthless(right));
    vstd::seq_lib::lemma_multiset_commutative(depthless(left), depthless(right));
}

/// A walk lists the rows that it was given and those whose parents it lists on the way.
proof fn lemma_walk_conserves(
    rows: Seq<ProcessRowView>,
    next: Seq<ProcessRowView>,
    listed: Set<Option<u32>>,
)
    ensures
        depthless(walk(rows, next, listed).0).to_multiset().add(
            depthless(unlisted(rows, walk(rows, next, listed).1)).to_multiset(),
        ) == depthless(next).to_multiset().add(depthless(unlisted(rows, listed)).to_multiset()),
    decreases open_parents(rows, listed).len(), next.len(),
{
    if next.len() > 0 {
        let row = next[0];
        let key = Some(row.pid);
        let rest = next.drop_first();
        lemma_open_parents_shrink(rows, listed, key);
        assert(next =~= seq![row] + rest);
        lemma_depthless_joins(seq![row], rest);
        let a = depthless(seq![row]).to_multiset();
        let r = depthless(rest).to_multiset();
        if open_parents(rows, listed).contains(key) {
            let kids = children(rows, key, row.depth + 1);
            let after = walk(rows, kids + rest, listed.insert(key));
            lemma_walk_conserves(rows, kids + rest, listed.insert(key));
            lemma_depthless_joins(kids, rest);
            lemma_depthless_joins(seq![row], after.0);
            lemma_children_leave_unlisted(rows, listed, key, row.depth + 1);
            assert(walk(rows, next, listed).0 =~= seq![row] + after.0);
            let k = depthless(kids).to_multiset();
            let u = depthless(unlisted(rows, listed.insert(key))).to_multiset();
            let b = depthless(after.0).to_multiset();
            let c = depthless(unlisted(rows, after.1)).to_multiset();
            assert(a.add(b).add(c) =~= a.add(b.add(c)));
            assert(a.add(k.add(r).add(u)) =~= a.add(r).add(k.add(u)));
        } else {
            let after = walk(rows, rest, listed);
            lemma_walk_conserves(rows, rest, listed);
            lemma_depthless_joins(seq![row], after.0);
            assert(walk(rows, next, listed).0 =~= seq![row] + after.0);
            let u = depthless(unlisted(rows, listed)).to_multiset();
            let b = depthless(after.0).to_multiset();
            let c = depthless(unlisted(rows, after.1)).to_multiset();
            assert(a.add(b).add(c) =~= a.add(b.add(c)));
            assert(a.add(r.add(u)) =~= a.add(r).add(u));
        }
    } else {
        assert(walk(rows, next, listed).0 =~= next);
    }
}

/// Flattening loses no row and doubles none: apart from the depths, the flattened list holds
/// the rows of the input, each as often.
pub proof fn flattening_keeps_every_row(rows: Seq<ProcessRowView>)
    ensures
        depthless(flattened(rows)).to_multiset() == depthless(rows).to_multiset(),
        flattened(rows).len() == rows.len(),
{
    broadcast use vstd::seq_lib::group_to_multiset_ensures;

    let walked = walk_from_roots(rows);
    let none: Set<Option<u32>> = Set::empty();
    lemma_walk_conserves(rows, children(rows, None, 0), set![None]);
    lemma_children_leave_unlisted(rows, none, None, 0);
    assert(none.insert(None) =~= set![None]);
    assert(unlisted(rows, none) =~= rows) by {
        lemma_filter_all(rows, |r: ProcessRowView| !none.contains(r.parent_pid));
    }
    crate::sorting::stable_sort_keeps_images(
        depthless(unlisted(rows, walked.1)),
        order_of::<ProcessRow, ByParent>(ByParent),
        |r: ProcessRowView| at_depth(r, 0),
    );
    assert(depthless(depthless(unlisted(rows, walked.1))) =~= depthless(
        unlisted(rows, walked.1),
    ));
    lemma_depthless_joins(walked.0, orphans(rows, walked.1));
    assert(depthless(flattened(rows)).to_multiset().len() == flattened(rows).len());
    assert(depthless(rows).to_multiset().len() == rows.len());
}

/// A test that every row passes keeps the whole list.
proof fn lemma_filter_all(rows: Seq<ProcessRowView>, keep: spec_fn(ProcessRowView) -> bool)
    requires
        forall|r: ProcessRowView| #[trigger] keep(r),
    ensures
        rows.filter(keep) == rows,
    decreases rows.len(),
{
    reveal(Seq::filter);
    if rows.len() > 0 {
        lemma_filter_all(rows.drop_last(), keep);
        assert(rows.drop_last().push(rows.last()) =~= rows);
    }
}

/// Whether a row at the end of `before` is at depth zero, or the nearest shallower row of
/// `before` is its parent, one level higher.
pub open spec fn is_placed_after(before: Seq<ProcessRowView>, row: ProcessRowView) -> bool {
    row.depth == 0 || exists|j: int| #[trigger] is_nearest_parent(before, row, j)
}

/// Whether the row at `j` is the nearest shallower one for a row at the end of `before`, and
/// its parent, one level higher.
pub open spec fn is_nearest_parent(
    before: Seq<ProcessRowView>,
    row: ProcessRowView,
    j: int,
) -> bool {
    &&& 0 <= j < before.len()
    &&& row.parent_pid == Some(before[j].pid)
    &&& before[j].depth + 1 == row.depth
    &&& forall|k: int| j < k < before.len() ==> (#[trigger] before[k]).depth >= row.depth
}

/// Whether every row of a list is at depth zero, or has its parent as the nearest shallower row
/// above it, one level higher.
pub open spec fn is_indented(list: Seq<ProcessRowView>) -> bool {
    forall|i: int| 0 <= i < list.len() ==> is_placed_after(list.take(i), #[trigger] list[i])
}

/// Whether no row of a list is deeper than one before it.
pub open spec fn rises(list: Seq<ProcessRowView>) -> bool {
    forall|a: int, b: int|
        0 <= a < b < list.len() ==> (#[trigger] list[a]).depth >= (#[trigger] list[b]).depth
}

/// A row keeps its parent when a row that is no shallower comes before it.
proof fn lemma_placed_grows(
    before: Seq<ProcessRowView>,
    next: ProcessRowView,
    row: ProcessRowView,
)
    requires
        is_placed_after(before, row),
        next.depth >= row.depth,
    ensures
        is_placed_after(before.push(next), row),
{
    if row.depth != 0 {
        let j = choose|j: int| #[trigger] is_nearest_parent(before, row, j);
        assert(is_nearest_parent(before.push(next), row, j));
    }
}

proof fn lemma_walk_is_indented(
    rows: Seq<ProcessRowView>,
    next: Seq<ProcessRowView>,
    listed: Set<Option<u32>>,
    done: Seq<ProcessRowView>,
)
    requires
        is_indented(done),
        rises(next),
        forall|k: int| 0 <= k < next.len() ==> is_placed_after(done, #[trigger] next[k]),
    ensures
        is_indented(done + walk(rows, next, listed).0),
    decreases open_parents(rows, listed).len(), next.len(),
{
    if next.len() > 0 {
        let row = next[0];
        let key = Some(row.pid);
        let rest = next.drop_first();
        lemma_open_parents_shrink(rows, listed, key);
        let now = done.push(row);
        assert(is_indented(now)) by {
            assert forall|i: int| 0 <= i < now.len() implies is_placed_after(
                now.take(i),
                #[trigger] now[i],
            ) by {
                if i < done.len() {
                    assert(now.take(i) =~= done.take(i));
                    assert(now[i] == done[i]);
                } else {
                    assert(now.take(i) =~= done);
                }
            }
        }
        assert forall|k: int| 0 <= k < rest.len() implies is_placed_after(
            now,
            #[trigger] rest[k],
        ) && rest[k].depth <= row.depth by {
            assert(rest[k] == next[k + 1]);
            lemma_placed_grows(done, row, rest[k]);
        }
        assert(rises(rest)) by {
            assert forall|a: int, b: int| 0 <= a < b < rest.len() implies (
            #[trigger] rest[a]).depth >= (#[trigger] rest[b]).depth by {
                assert(rest[a] == next[a + 1] && rest[b] == next[b + 1]);
            }
        }
        if open_parents(rows, listed).contains(key) {
            let kids = children(rows, key, row.depth + 1);
            let all = kids + rest;
            lemma_children_exist(rows, key, row.depth + 1);
            assert forall|k: int| 0 <= k < all.len() implies is_placed_after(
                now,
                #[trigger] all[k],
            ) by {
                if k < kids.len() {
                    assert(all[k] == kids[k]);
                    assert(is_nearest_parent(now, kids[k], done.len() as int));
                } else {
                    assert(all[k] == rest[k - kids.len()]);
                }
            }
            assert forall|a: int, b: int| 0 <= a < b < all.len() implies (
            #[trigger] all[a]).depth >= (#[trigger] all[b]).depth by {
                if a < kids.len() {
                    assert(all[a] == kids[a]);
                } else {
                    assert(all[a] == rest[a - kids.len()]);
                }
                if b < kids.len() {
                    assert(all[b] == kids[b]);
                } else {
                    assert(all[b] == rest[b - kids.len()]);
                }
            }
            lemma_walk_is_indented(rows, all, listed.insert(key), now);
            assert(done + walk(rows, next, listed).0 =~= now + walk(
                rows,
                all,
                listed.insert(key),
            ).0);
        } else {
            lemma_walk_is_indented(rows, rest, listed, now);
            assert(done + walk(rows, next, listed).0 =~= now + walk(rows, rest, listed).0);
        }
    } else {
        assert(done + walk(rows, next, listed).0 =~= done);
    }
}

/// In the flattened list the nearest shallower row above a row below depth zero is its parent,
/// one level higher.
pub proof fn flattening_indents_below_parents(rows: Seq<ProcessRowView>)
    ensures
        is_indented(flattened(rows)),
{
    let walked = walk_from_roots(rows);
    let lost = orphans(rows, walked.1);
    let roots = children(rows, None, 0);
    let empty = Seq::<ProcessRowView>::empty();
    lemma_children_exist(rows, None, 0);
    lemma_walk_is_indented(rows, roots, set![None], empty);
    assert(empty + walked.0 =~= walked.0);
    let flat = flattened(rows);
    assert forall|i: int| 0 <= i < flat.len() implies is_placed_after(
        flat.take(i),
        #[trigger] flat[i],
    ) by {
        if i < walked.0.len() {
            assert(flat.take(i) =~= walked.0.take(i));
            assert(flat[i] == walked.0[i]);
        } else {
            broadcast use vstd::seq_lib::group_to_multiset_ensures;

            let pool = depthless(unlisted(rows, walked.1));
            crate::sorting::stable_sort_is_permutation(
                pool,
                order_of::<ProcessRow, ByParent>(ByParent),
            );
            assert(flat[i] == lost[i - walked.0.len()]);
            assert(lost.to_multiset().count(flat[i]) > 0);
            assert(pool.contains(flat[i]));
        }
    }
}

/// What a walk lists: the rows that it was given, and the children of every parent that it lists
/// on the way. A listed row that has children has them listed too.
proof fn lemma_walk_lists(
    rows: Seq<ProcessRowView>,
    next: Seq<ProcessRowView>,
    listed: Set<Option<u32>>,
)
    requires
        forall|k: int|
            0 <= k < next.len() && (#[trigger] next[k]).depth == 0 ==> next[k].parent_pid is None,
        forall|k: int| 0 <= k < next.len() ==> listed.contains((#[trigger] next[k]).parent_pid),
    ensures
        ({
            let (out, after) = walk(rows, next, listed);
            &&& listed.subset_of(after)
            &&& forall|i: int|
                0 <= i < out.len() && parents(rows).contains(Some((#[trigger] out[i]).pid))
                    ==> after.contains(Some(out[i].pid))
            &&& forall|i: int|
                0 <= i < out.len() && (#[trigger] out[i]).depth == 0 ==> out[i].parent_pid is None
            &&& forall|i: int| 0 <= i < out.len() ==> after.contains((#[trigger] out[i]).parent_pid)
            &&& forall|k: int| 0 <= k < next.len() ==> out.contains(#[trigger] next[k])
            &&& forall|i: int|
                0 <= i < out.len() && listed.contains((#[trigger] out[i]).parent_pid)
                    ==> next.contains(out[i])
            &&& forall|j: int|
                0 <= j < rows.len() && after.contains((#[trigger] rows[j]).parent_pid)
                    && !listed.contains(rows[j].parent_pid) ==> exists|i: int|
                    0 <= i < out.len() && (#[trigger] out[i]).pid == rows[j].pid
        }),
    decreases open_parents(rows, listed).len(), next.len(),
{
    if next.len() > 0 {
        let row = next[0];
        let key = Some(row.pid);
        let tail = next.drop_first();
        lemma_open_parents_shrink(rows, listed, key);
        assert forall|k: int| 0 <= k < tail.len() implies tail[k] == next[k + 1] by {}
        let (out, after) = walk(rows, next, listed);
        let opens = open_parents(rows, listed).contains(key);
        let kids = if opens {
            children(rows, key, row.depth + 1)
        } else {
            Seq::empty()
        };
        let all = kids + tail;
        let seen = if opens {
            listed.insert(key)
        } else {
            listed
        };
        lemma_children_exist(rows, key, row.depth + 1);
        assert(!opens ==> all =~= tail);
        assert forall|k: int| 0 <= k < all.len() implies seen.contains(
            (#[trigger] all[k]).parent_pid,
        ) && (all[k].depth == 0 ==> all[k].parent_pid is None) by {
            if k < kids.len() {
                assert(all[k] == kids[k]);
            } else {
                assert(all[k] == tail[k - kids.len()]);
                assert(tail[k - kids.len()] == next[k - kids.len() + 1]);
            }
        }
        lemma_walk_lists(rows, all, seen);
        let rest = walk(rows, all, seen).0;
        assert(out == seq![row] + rest);
        assert(after == walk(rows, all, seen).1);
        assert forall|i: int| 0 <= i < out.len() implies out[i] == (if i == 0 {
            row
        } else {
            rest[i - 1]
        }) by {}
        assert(out[0] == row);
        assert forall|i: int| 0 <= i < rest.len() implies out[i + 1] == #[trigger] rest[i] by {}
        assert(after.contains(row.parent_pid)) by {
            assert(listed.contains(next[0].parent_pid));
        }
        assert(parents(rows).contains(key) ==> after.contains(key));
        assert forall|k: int| 0 <= k < next.len() implies out.contains(#[trigger] next[k]) by {
            if k > 0 {
                assert(all[kids.len() + k - 1] == next[k]);
                assert(rest.contains(all[kids.len() + k - 1]));
                let i = choose|i: int| 0 <= i < rest.len() && rest[i] == next[k];
                assert(out[i + 1] == next[k]);
            }
        }
        assert forall|i: int|
            0 <= i < out.len() && listed.contains((#[trigger] out[i]).parent_pid) implies next.contains(
            out[i],
        ) by {
            if i > 0 {
                assert(out[i] == rest[i - 1]);
                assert(all.contains(rest[i - 1]));
                let k = choose|k: int| 0 <= k < all.len() && all[k] == rest[i - 1];
                if k < kids.len() {
                    assert(all[k] == kids[k]);
                    assert(kids[k].parent_pid == key);
                    assert(false);
                }
                assert(all[k] == tail[k - kids.len()]);
                assert(next[k - kids.len() + 1] == out[i]);
            } else {
                assert(next[0] == out[0]);
            }
        }
        assert forall|i: int| 0 <= i < out.len() implies (parents(rows).contains(
            Some((#[trigger] out[i]).pid),
        ) ==> after.contains(Some(out[i].pid))) && (out[i].depth == 0 ==> out[i].parent_pid is None)
            && after.contains(out[i].parent_pid) by {
            if i > 0 {
                assert(out[i] == rest[i - 1]);
            }
        }
        assert forall|j: int|
            0 <= j < rows.len() && after.contains((#[trigger] rows[j]).parent_pid)
                && !listed.contains(rows[j].parent_pid) implies exists|i: int|
            0 <= i < out.len() && (#[trigger] out[i]).pid == rows[j].pid by {
            if rows[j].parent_pid == key && opens {
                lemma_child_is_listed(rows, key, row.depth + 1, j);
                let k = choose|k: int|
                    0 <= k < kids.len() && (#[trigger] kids[k]).pid == rows[j].pid;
                assert(all[k] == kids[k]);
                assert(rest.contains(all[k]));
                let i = choose|i: int| 0 <= i < rest.len() && rest[i] == all[k];
                assert(out[i + 1].pid == rows[j].pid);
            } else {
                assert(!seen.contains(rows[j].parent_pid));
                let i = choose|i: int|
                    0 <= i < rest.len() && (#[trigger] rest[i]).pid == rows[j].pid;
                assert(out[i + 1].pid == rows[j].pid);
            }
        }
    }
}

/// Every row stands among the children of its parent.
proof fn lemma_child_is_listed(rows: Seq<ProcessRowView>, parent: Option<u32>, depth: nat, j: int)
    requires
        0 <= j < rows.len(),
        rows[j].parent_pid == parent,
    ensures
        exists|k: int|
            0 <= k < children(rows, parent, depth).len() && (#[trigger] children(
                rows,
                parent,
                depth,
            )[k]).pid == rows[j].pid,
{
    broadcast use vstd::seq_lib::group_to_multiset_ensures;

    let keep = |r: ProcessRowView| r.parent_pid == parent;
    let below = rows_below(rows, parent, depth);
    let sorted = children(rows, parent, depth);
    rows.lemma_filter_contains(keep, j);
    let i = choose|i: int| 0 <= i < rows.filter(keep).len() && rows.filter(keep)[i] == rows[j];
    assert(below[i].pid == rows[j].pid);
    crate::sorting::stable_sort_is_permutation(below, order_of::<ProcessRow, ByPid>(ByPid));
    assert(below.to_multiset().count(below[i]) > 0);
    assert(sorted.contains(below[i]));
    let k = choose|k: int| 0 <= k < sorted.len() && sorted[k] == below[i];
    assert(sorted[k].pid == rows[j].pid);
}

/// What the walk from the roots lists.
proof fn lemma_roots_walk(rows: Seq<ProcessRowView>)
    ensures
        ({
            let (out, after) = walk_from_roots(rows);
            &&& after.contains(None)
            &&& forall|i: int|
                0 <= i < out.len() && parents(rows).contains(Some((#[trigger] out[i]).pid))
                    ==> after.contains(Some(out[i].pid))
            &&& forall|i: int|
                0 <= i < out.len() && (#[trigger] out[i]).depth == 0 ==> out[i].parent_pid is None
            &&& forall|i: int| 0 <= i < out.len() ==> after.contains((#[trigger] out[i]).parent_pid)
            &&& forall|j: int|
                0 <= j < rows.len() && after.contains((#[trigger] rows[j]).parent_pid)
                    ==> exists|i: int| 0 <= i < out.len() && (#[trigger] out[i]).pid == rows[j].pid
        }),
{
    let roots = children(rows, None, 0);
    let (out, after) = walk_from_roots(rows);
    lemma_children_exist(rows, None, 0);
    lemma_walk_lists(rows, roots, set![None]);
    assert forall|j: int|
        0 <= j < rows.len() && after.contains((#[trigger] rows[j]).parent_pid) implies exists|
        i: int,
    |
        0 <= i < out.len() && (#[trigger] out[i]).pid == rows[j].pid by {
        if rows[j].parent_pid is None {
            lemma_child_is_listed(rows, None, 0, j);
            let k = choose|k: int| 0 <= k < roots.len() && (#[trigger] roots[k]).pid == rows[j].pid;
            assert(out.contains(roots[k]));
            let i = choose|i: int| 0 <= i < out.len() && out[i] == roots[k];
            assert(out[i].pid == rows[j].pid);
        }
    }
}

/// The orphans are at depth zero, each below a parent that was not listed.
proof fn lemma_orphans(rows: Seq<ProcessRowView>, listed: Set<Option<u32>>)
    ensures
        forall|i: int|
            0 <= i < orphans(rows, listed).len() ==> (#[trigger] orphans(rows, listed)[i]).depth
                == 0 && !listed.contains(orphans(rows, listed)[i].parent_pid),
        forall|i: int, j: int|
            0 <= i < j < orphans(rows, listed).len() ==> parent_le(
                #[trigger] orphans(rows, listed)[i],
                #[trigger] orphans(rows, listed)[j],
            ),
{
    broadcast use vstd::seq_lib::group_to_multiset_ensures;

    let keep = |r: ProcessRowView| !listed.contains(r.parent_pid);
    let le = order_of::<ProcessRow, ByParent>(ByParent);
    let pool = depthless(rows.filter(keep));
    let lost = orphans(rows, listed);
    crate::sorting::stable_sort_is_permutation(pool, le);
    assert(crate::sorting::is_total_preorder(le));
    crate::sorting::stable_sort_is_sorted(pool, le);
    assert forall|i: int| 0 <= i < lost.len() implies (#[trigger] lost[i]).depth == 0
        && !listed.contains(lost[i].parent_pid) by {
        assert(lost.to_multiset().count(lost[i]) > 0);
        assert(pool.contains(lost[i]));
        let k = choose|k: int| 0 <= k < pool.len() && pool[k] == lost[i];
        rows.lemma_filter_pred(keep, k);
    }
    assert forall|i: int, j: int| 0 <= i < j < lost.len() implies parent_le(
        #[trigger] lost[i],
        #[trigger] lost[j],
    ) by {
        assert(le(lost[i], lost[j]));
    }
}

/// The parents along a chain that ends in a row without a parent are all listed.
proof fn lemma_chain_is_listed(rows: Seq<ProcessRowView>, chain: Seq<int>)
    requires
        chain.len() > 0,
        forall|k: int| 0 <= k < chain.len() ==> 0 <= #[trigger] chain[k] < rows.len(),
        forall|a: int, b: int|
            0 <= a && b == a + 1 && b < chain.len() ==> rows[#[trigger] chain[a]].parent_pid
                == Some(rows[#[trigger] chain[b]].pid),
        rows[chain.last()].parent_pid is None,
    ensures
        walk_from_roots(rows).1.contains(rows[chain[0]].parent_pid),
    decreases chain.len(),
{
    let (out, after) = walk_from_roots(rows);
    lemma_roots_walk(rows);
    if chain.len() > 1 {
        let upper = chain.drop_first();
        assert forall|k: int| 0 <= k < upper.len() implies 0 <= #[trigger] upper[k]
            < rows.len() by {
            assert(upper[k] == chain[k + 1]);
        }
        assert forall|a: int, b: int| 0 <= a && b == a + 1 && b < upper.len() implies rows[
        #[trigger] upper[a]].parent_pid == Some(rows[#[trigger] upper[b]].pid) by {
            assert(upper[a] == chain[a + 1]);
            assert(upper[b] == chain[b + 1]);
        }
        lemma_chain_is_listed(rows, upper);
        let above = rows[chain[1]];
        assert(upper[0] == chain[1]);
        let i = choose|i: int| 0 <= i < out.len() && (#[trigger] out[i]).pid == above.pid;
        let keys = rows.map_values(|r: ProcessRowView| r.parent_pid);
        assert(rows[chain[0]].parent_pid == Some(above.pid));
        assert(keys[chain[0]] == Some(above.pid));
        assert(parents(rows).contains(Some(out[i].pid)));
    }
}

/// A row whose parents lead up to a process without a parent is no orphan: wherever it stands in
/// the flattened list, it is below depth zero, unless it has no parent itself. `chain` holds the
/// places of the row and its ancestors in the input.
pub proof fn descendants_are_not_torn_off(rows: Seq<ProcessRowView>, chain: Seq<int>, i: int)
    requires
        chain.len() > 0,
        forall|k: int| 0 <= k < chain.len() ==> 0 <= #[trigger] chain[k] < rows.len(),
        forall|a: int, b: int|
            0 <= a && b == a + 1 && b < chain.len() ==> rows[#[trigger] chain[a]].parent_pid
                == Some(rows[#[trigger] chain[b]].pid),
        rows[chain.last()].parent_pid is None,
        0 <= i < flattened(rows).len(),
        flattened(rows)[i].parent_pid == rows[chain[0]].parent_pid,
    ensures
        flattened(rows)[i].depth == 0 <==> flattened(rows)[i].parent_pid is None,
        flattened(rows)[i].depth > 0 ==> exists|j: int|
            0 <= j < i && flattened(rows)[i].parent_pid == Some((#[trigger] flattened(rows)[j]).pid)
                && flattened(rows)[j].depth + 1 == flattened(rows)[i].depth,
{
    let flat = flattened(rows);
    let (out, after) = walk_from_roots(rows);
    lemma_chain_is_listed(rows, chain);
    lemma_roots_walk(rows);
    lemma_orphans(rows, after);
    flattening_indents_below_parents(rows);
    if i >= out.len() {
        assert(flat[i] == orphans(rows, after)[i - out.len()]);
        assert(false);
    }
    assert(flat[i] == out[i]);
    assert(is_placed_after(flat.take(i), flat[i]));
    if flat[i].depth > 0 {
        let j = choose|j: int| #[trigger] is_nearest_parent(flat.take(i), flat[i], j);
        assert(flat[j] == flat.take(i)[j]);
    }
}

/// Apart from its depth, every row of the flattened list is a row of the input, and every row of
/// the input is in the list.
pub proof fn flattening_changes_only_depths(rows: Seq<ProcessRowView>)
    ensures
        flattened(rows).len() == rows.len(),
        forall|i: int|
            0 <= i < rows.len() ==> exists|j: int|
                0 <= j < rows.len() && #[trigger] flattened(rows)[i] == (ProcessRowView {
                    depth: flattened(rows)[i].depth,
                    ..#[trigger] rows[j]
                }),
        forall|j: int|
            0 <= j < rows.len() ==> exists|i: int|
                0 <= i < rows.len() && #[trigger] flattened(rows)[i] == (ProcessRowView {
                    depth: flattened(rows)[i].depth,
                    ..#[trigger] rows[j]
                }),
{
    broadcast use vstd::seq_lib::group_to_multiset_ensures;

    let flat = flattened(rows);
    let a = depthless(flat);
    let b = depthless(rows);
    flattening_keeps_every_row(rows);
    assert forall|i: int| 0 <= i < rows.len() implies exists|j: int|
        0 <= j < rows.len() && #[trigger] flat[i] == (ProcessRowView {
            depth: flat[i].depth,
            ..#[trigger] rows[j]
        }) by {
        assert(a.to_multiset().count(a[i]) > 0);
        assert(b.contains(a[i]));
        let j = choose|j: int| 0 <= j < b.len() && b[j] == a[i];
        assert(flat[i] == (ProcessRowView { depth: flat[i].depth, ..rows[j] }));
    }
    assert forall|j: int| 0 <= j < rows.len() implies exists|i: int|
        0 <= i < rows.len() && #[trigger] flat[i] == (ProcessRowView {
            depth: flat[i].depth,
            ..#[trigger] rows[j]
        }) by {
        assert(b.to_multiset().count(b[j]) > 0);
        assert(a.contains(b[j]));
        let i = choose|i: int| 0 <= i < a.len() && a[i] == b[j];
        assert(flat[i] == (ProcessRowView { depth: flat[i].depth, ..rows[j] }));
    }
}

/// The place in the input of a row of the flattened list.
proof fn lemma_source_of(rows: Seq<ProcessRowView>, i: int) -> (j: int)
    requires
        0 <= i < flattened(rows).len(),
    ensures
        0 <= j < rows.len(),
        flattened(rows)[i] == (ProcessRowView { depth: flattened(rows)[i].depth, ..rows[j] }),
{
    let flat = flattened(rows);
    flattening_changes_only_depths(rows);
    choose|j: int|
        0 <= j < rows.len() && flat[i] == (ProcessRowView {
            depth: flat[i].depth,
            ..#[trigger] rows[j]
        })
}

/// Where no two processes share a number, the depth of a row is the number of its ancestors, if
/// they lead up to a process without a parent.
pub proof fn depth_counts_ancestors(rows: Seq<ProcessRowView>, chain: Seq<int>, i: int)
    requires
        forall|a: int, b: int|
            0 <= a < b < rows.len() ==> (#[trigger] rows[a]).pid != (#[trigger] rows[b]).pid,
        chain.len() > 0,
        forall|k: int| 0 <= k < chain.len() ==> 0 <= #[trigger] chain[k] < rows.len(),
        forall|a: int, b: int|
            0 <= a && b == a + 1 && b < chain.len() ==> rows[#[trigger] chain[a]].parent_pid
                == Some(rows[#[trigger] chain[b]].pid),
        rows[chain.last()].parent_pid is None,
        0 <= i < flattened(rows).len(),
        flattened(rows)[i].pid == rows[chain[0]].pid,
    ensures
        flattened(rows)[i].depth == chain.len() - 1,
    decreases chain.len(),
{
    let flat = flattened(rows);
    let source = lemma_source_of(rows, i);
    assert(rows[source].pid == rows[chain[0]].pid);
    assert(source == chain[0]);
    descendants_are_not_torn_off(rows, chain, i);
    if chain.len() > 1 {
        let upper = chain.drop_first();
        assert forall|k: int| 0 <= k < upper.len() implies 0 <= #[trigger] upper[k]
            < rows.len() by {
            assert(upper[k] == chain[k + 1]);
        }
        assert forall|a: int, b: int| 0 <= a && b == a + 1 && b < upper.len() implies rows[
        #[trigger] upper[a]].parent_pid == Some(rows[#[trigger] upper[b]].pid) by {
            assert(upper[a] == chain[a + 1]);
            assert(upper[b] == chain[b + 1]);
        }
        assert(rows[chain[0]].parent_pid == Some(rows[chain[1]].pid));
        let j = choose|j: int|
            0 <= j < i && flat[i].parent_pid == Some((#[trigger] flat[j]).pid) && flat[j].depth + 1
                == flat[i].depth;
        assert(upper[0] == chain[1]);
        depth_counts_ancestors(rows, upper, j);
    }
}

/// A walk lists the children of one parent by their numbers.
proof fn lemma_walk_orders_siblings(
    rows: Seq<ProcessRowView>,
    next: Seq<ProcessRowView>,
    listed: Set<Option<u32>>,
)
    requires
        forall|k: int|
            0 <= k < next.len() && (#[trigger] next[k]).depth == 0 ==> next[k].parent_pid is None,
        forall|k: int| 0 <= k < next.len() ==> listed.contains((#[trigger] next[k]).parent_pid),
        forall|a: int, b: int|
            0 <= a < b < next.len() && (#[trigger] next[a]).parent_pid == (
            #[trigger] next[b]).parent_pid ==> next[a].pid <= next[b].pid,
    ensures
        ({
            let out = walk(rows, next, listed).0;
            forall|a: int, b: int|
                0 <= a < b < out.len() && (#[trigger] out[a]).parent_pid == (
                #[trigger] out[b]).parent_pid ==> out[a].pid <= out[b].pid
        }),
    decreases open_parents(rows, listed).len(), next.len(),
{
    if next.len() > 0 {
        let row = next[0];
        let key = Some(row.pid);
        let tail = next.drop_first();
        lemma_open_parents_shrink(rows, listed, key);
        let out = walk(rows, next, listed).0;
        let opens = open_parents(rows, listed).contains(key);
        let kids = if opens {
            children(rows, key, row.depth + 1)
        } else {
            Seq::empty()
        };
        let all = kids + tail;
        let seen = if opens {
            listed.insert(key)
        } else {
            listed
        };
        lemma_children_exist(rows, key, row.depth + 1);
        lemma_children_by_pid(rows, key, row.depth + 1);
        assert(!opens ==> all =~= tail);
        assert forall|k: int| 0 <= k < all.len() implies seen.contains(
            (#[trigger] all[k]).parent_pid,
        ) && (all[k].depth == 0 ==> all[k].parent_pid is None) && (k >= kids.len() ==> all[k]
            == next[k - kids.len() + 1]) && (k < kids.len() ==> all[k] == kids[k]
            && all[k].parent_pid == key && !listed.contains(key)) by {
            if k < kids.len() {
                assert(all[k] == kids[k]);
            } else {
                assert(all[k] == tail[k - kids.len()]);
                assert(tail[k - kids.len()] == next[k - kids.len() + 1]);
            }
        }
        assert forall|a: int, b: int|
            0 <= a < b < all.len() && (#[trigger] all[a]).parent_pid == (
            #[trigger] all[b]).parent_pid implies all[a].pid <= all[b].pid by {
            if b < kids.len() {
                assert(kids[a].pid <= kids[b].pid);
            } else if a >= kids.len() {
                assert(next[a - kids.len() + 1].pid <= next[b - kids.len() + 1].pid);
            } else {
                assert(listed.contains(next[b - kids.len() + 1].parent_pid));
            }
        }
        lemma_walk_orders_siblings(rows, all, seen);
        lemma_walk_lists(rows, all, seen);
        let rest = walk(rows, all, seen).0;
        assert(out == seq![row] + rest);
        assert forall|a: int, b: int|
            0 <= a < b < out.len() && (#[trigger] out[a]).parent_pid == (
            #[trigger] out[b]).parent_pid implies out[a].pid <= out[b].pid by {
            assert(out[b] == rest[b - 1]);
            if a > 0 {
                assert(out[a] == rest[a - 1]);
            } else {
                assert(listed.contains(next[0].parent_pid));
                assert(seen.contains(rest[b - 1].parent_pid));
                assert(all.contains(rest[b - 1]));
                let k = choose|k: int| 0 <= k < all.len() && all[k] == rest[b - 1];
                assert(k >= kids.len());
                assert(next[0].pid <= next[k - kids.len() + 1].pid);
            }
        }
    }
}

/// The children of a parent stand by their numbers.
proof fn lemma_children_by_pid(rows: Seq<ProcessRowView>, parent: Option<u32>, depth: nat)
    ensures
        forall|a: int, b: int|
            0 <= a < b < children(rows, parent, depth).len() ==> (#[trigger] children(
                rows,
                parent,
                depth,
            )[a]).pid <= (#[trigger] children(rows, parent, depth)[b]).pid,
{
    let le = order_of::<ProcessRow, ByPid>(ByPid);
    let kids = children(rows, parent, depth);
    assert(crate::sorting::is_total_preorder(le));
    crate::sorting::stable_sort_is_sorted(rows_below(rows, parent, depth), le);
    assert forall|a: int, b: int| 0 <= a < b < kids.len() implies (#[trigger] kids[a]).pid <= (
    #[trigger] kids[b]).pid by {
        assert(le(kids[a], kids[b]));
    }
}

/// In the flattened list the processes below one parent stand by their numbers, and so do those
/// without a parent. The orphans, which are at depth zero although they name a parent, come
/// last, by the numbers of their parents.
pub proof fn flattening_orders_siblings(rows: Seq<ProcessRowView>)
    ensures
        forall|a: int, b: int|
            0 <= a < b < flattened(rows).len() && (#[trigger] flattened(rows)[a]).parent_pid == (
            #[trigger] flattened(rows)[b]).parent_pid ==> flattened(rows)[a].pid <= flattened(
                rows,
            )[b].pid,
        forall|a: int, b: int|
            0 <= a < b < flattened(rows).len() && (#[trigger] flattened(rows)[a]).depth == 0
                && flattened(rows)[a].parent_pid is Some ==> (#[trigger] flattened(rows)[b]).depth
                == 0 && flattened(rows)[b].parent_pid is Some && flattened(rows)[a].parent_pid->0
                <= flattened(rows)[b].parent_pid->0,
{
    let flat = flattened(rows);
    let roots = children(rows, None, 0);
    let (out, after) = walk_from_roots(rows);
    let lost = orphans(rows, after);
    lemma_children_exist(rows, None, 0);
    lemma_children_by_pid(rows, None, 0);
    lemma_walk_orders_siblings(rows, roots, set![None]);
    lemma_roots_walk(rows);
    lemma_orphans(rows, after);
    assert forall|a: int, b: int|
        0 <= a < b < flat.len() && (#[trigger] flat[a]).parent_pid == (
        #[trigger] flat[b]).parent_pid implies flat[a].pid <= flat[b].pid by {
        if b < out.len() {
            assert(flat[a] == out[a] && flat[b] == out[b]);
        } else if a >= out.len() {
            assert(parent_le(lost[a - out.len()], lost[b - out.len()]));
        } else {
            assert(flat[a] == out[a]);
            assert(flat[b] == lost[b - out.len()]);
        }
    }
    assert forall|a: int, b: int|
        0 <= a < b < flat.len() && (#[trigger] flat[a]).depth == 0
            && flat[a].parent_pid is Some implies (#[trigger] flat[b]).depth == 0
        && flat[b].parent_pid is Some && flat[a].parent_pid->0 <= flat[b].parent_pid->0 by {
        if a < out.len() {
            assert(flat[a] == out[a]);
        } else {
            assert(parent_le(lost[a - out.len()], lost[b - out.len()]));
        }
    }
}

} // verus!
