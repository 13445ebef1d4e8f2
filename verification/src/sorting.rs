//! Stable sorting of rows, with the order given by their models.

use vstd::prelude::*;

verus! {

/// The models of a sequence of values.
pub open spec fn views<T: View>(items: Seq<T>) -> Seq<T::V> {
    Seq::new(items.len(), |i: int| items[i]@)
}

/// Puts `x` behind the last element of `s` that may stand before it.
pub open spec fn insert_sorted<A>(s: Seq<A>, x: A, le: spec_fn(A, A) -> bool) -> Seq<A>
    decreases s.len(),
{
    if s.len() == 0 || le(s.last(), x) {
        s.push(x)
    } else {
        insert_sorted(s.drop_last(), x, le).push(s.last())
    }
}

/// The stable sort of `s`: elements that the order does not tell apart keep their places
/// relative to each other.
pub open spec fn stable_sort<A>(s: Seq<A>, le: spec_fn(A, A) -> bool) -> Seq<A>
    decreases s.len(),
{
    if s.len() == 0 {
        s
    } else {
        insert_sorted(stable_sort(s.drop_last(), le), s.last(), le)
    }
}

/// Whether `le` compares any two elements and chains.
pub open spec fn is_total_preorder<A>(le: spec_fn(A, A) -> bool) -> bool {
    &&& forall|a: A, b: A| #[trigger] le(a, b) || le(b, a)
    &&& forall|a: A, b: A, c: A| #[trigger] le(a, b) && #[trigger] le(b, c) ==> le(a, c)
}

/// Whether `s` stands in the order of `le`.
pub open spec fn is_sorted<A>(s: Seq<A>, le: spec_fn(A, A) -> bool) -> bool {
    forall|i: int, j: int| 0 <= i < j < s.len() ==> le(#[trigger] s[i], #[trigger] s[j])
}

/// Whether the order does not tell two elements apart.
pub open spec fn is_tied<A>(a: A, b: A, le: spec_fn(A, A) -> bool) -> bool {
    le(a, b) && le(b, a)
}

/// The elements that the order does not tell apart from `y`.
pub open spec fn tied_to<A>(y: A, le: spec_fn(A, A) -> bool) -> spec_fn(A) -> bool {
    |z: A| is_tied(y, z, le)
}

/// An order of rows that the program can decide.
pub trait RowOrder<T: View> {
    /// Whether a row with model `a` may stand before one with model `b`.
    spec fn le(&self, a: T::V, b: T::V) -> bool;

    /// Decides the order.
    fn may_precede(&self, a: &T, b: &T) -> (r: bool)
        ensures
            r == self.le(a@, b@),
    ;
}

/// The order of a `RowOrder` as a function on models.
pub open spec fn order_of<T: View, O: RowOrder<T>>(order: O) -> spec_fn(T::V, T::V) -> bool {
    |a: T::V, b: T::V| order.le(a, b)
}

/// Where `insert_sorted` puts the element, as an index.
proof fn lemma_insert_position<A>(s: Seq<A>, x: A, le: spec_fn(A, A) -> bool, at: int)
    requires
        0 <= at <= s.len(),
        forall|k: int| at <= k < s.len() ==> !le(#[trigger] s[k], x),
        at == 0 || le(s[at - 1], x),
    ensures
        insert_sorted(s, x, le) == s.insert(at, x),
    decreases s.len(),
{
    if s.len() == at {
        assert(s.insert(at, x) =~= s.push(x));
    } else {
        lemma_insert_position(s.drop_last(), x, le, at);
        assert(s.insert(at, x) =~= s.drop_last().insert(at, x).push(s.last()));
    }
}

/// Sorts rows, keeping the relative places of rows that the order does not tell apart.
pub fn sort_rows<T: View, O: RowOrder<T>>(rows: Vec<T>, order: &O) -> (sorted: Vec<T>)
    ensures
        views(sorted@) == stable_sort(views(rows@), order_of::<T, O>(*order)),
{
    let ghost le = order_of::<T, O>(*order);
    let ghost models = views(rows@);
    let ghost input = rows@;
    let mut pending = rows;
    let mut sorted: Vec<T> = Vec::new();
    let ghost mut done: int = 0;
    // The rows are taken from the end of the reversed input, which is from its front.
    let mut reversed: Vec<T> = Vec::new();
    while pending.len() > 0
        invariant
            pending@ == input.take(pending.len() as int),
            reversed@.len() + pending@.len() == input.len(),
            forall|k: int|
                0 <= k < reversed@.len() ==> #[trigger] reversed@[k] == input[input.len() - 1 - k],
        decreases pending.len(),
    {
        match pending.pop() {
            Some(row) => {
                reversed.push(row);
            },
            None => {},
        }
    }
    assert(views(sorted@) =~= stable_sort(models.take(0), le));
    while reversed.len() > 0
        invariant
            le == order_of::<T, O>(*order),
            models == views(input),
            0 <= done,
            done + reversed@.len() == input.len(),
            forall|k: int|
                0 <= k < reversed@.len() ==> #[trigger] reversed@[k] == input[input.len() - 1 - k],
            views(sorted@) == stable_sort(models.take(done), le),
        decreases reversed.len(),
    {
        if let Some(row) = reversed.pop() {
            assert(row == input[done]);
            let mut at: usize = sorted.len();
            let ghost before = sorted@;
            while at > 0 && !order.may_precede(&sorted[at - 1], &row)
                invariant
                    at <= sorted.len(),
                    sorted@ == before,
                    le == order_of::<T, O>(*order),
                    forall|k: int| at <= k < sorted.len() ==> !le(#[trigger] views(before)[k], row@),
                decreases at,
            {
                at = at - 1;
            }
            proof {
                lemma_insert_position(views(before), row@, le, at as int);
                assert(models.take(done + 1).drop_last() =~= models.take(done));
                assert(models.take(done + 1).last() == row@);
            }
            sorted.insert(at, row);
            assert(views(sorted@) =~= views(before).insert(at as int, row@));
            proof {
                done = done + 1;
            }
        }
    }
    assert(models.take(done) =~= models);
    sorted
}

proof fn lemma_insert_sorted_is_sorted<A>(s: Seq<A>, x: A, le: spec_fn(A, A) -> bool)
    requires
        is_total_preorder(le),
        is_sorted(s, le),
    ensures
        is_sorted(insert_sorted(s, x, le), le),
        insert_sorted(s, x, le).len() == s.len() + 1,
        forall|i: int|
            0 <= i <= s.len() ==> s.contains(#[trigger] insert_sorted(s, x, le)[i]) || insert_sorted(
                s,
                x,
                le,
            )[i] == x,
    decreases s.len(),
{
    let r = insert_sorted(s, x, le);
    if s.len() == 0 || le(s.last(), x) {
        assert forall|i: int, j: int| 0 <= i < j < r.len() implies le(#[trigger] r[i], #[trigger] r[j]) by {
            if j == s.len() {
                assert(r[j] == x);
                if i < s.len() - 1 {
                    assert(le(s[i], s[s.len() - 1]));
                }
            }
        }
    } else {
        let t = s.drop_last();
        lemma_insert_sorted_is_sorted(t, x, le);
        let q = insert_sorted(t, x, le);
        assert(le(x, s.last()));
        assert forall|i: int, j: int| 0 <= i < j < r.len() implies le(#[trigger] r[i], #[trigger] r[j]) by {
            if j == q.len() {
                assert(r[i] == q[i]);
                if t.contains(q[i]) {
                    let k = choose|k: int| 0 <= k < t.len() && t[k] == q[i];
                    assert(le(s[k], s[s.len() - 1]));
                }
            } else {
                assert(le(q[i], q[j]));
            }
        }
        assert forall|i: int| 0 <= i <= s.len() implies s.contains(#[trigger] r[i]) || r[i] == x by {
            if i < q.len() {
                assert(r[i] == q[i]);
                if t.contains(q[i]) {
                    let k = choose|k: int| 0 <= k < t.len() && t[k] == q[i];
                    assert(s[k] == q[i]);
                }
            } else {
                assert(s[s.len() - 1] == r[i]);
            }
        }
    }
}

/// A stable sort stands in its order, if the order compares any two elements and chains.
pub proof fn stable_sort_is_sorted<A>(s: Seq<A>, le: spec_fn(A, A) -> bool)
    requires
        is_total_preorder(le),
    ensures
        is_sorted(stable_sort(s, le), le),
    decreases s.len(),
{
    if s.len() > 0 {
        stable_sort_is_sorted(s.drop_last(), le);
        lemma_insert_sorted_is_sorted(stable_sort(s.drop_last(), le), s.last(), le);
    }
}

proof fn lemma_insert_sorted_multiset<A>(s: Seq<A>, x: A, le: spec_fn(A, A) -> bool)
    ensures
        insert_sorted(s, x, le).to_multiset() == s.to_multiset().insert(x),
    decreases s.len(),
{
    broadcast use vstd::seq_lib::group_to_multiset_ensures;

    if s.len() == 0 || le(s.last(), x) {
    } else {
        lemma_insert_sorted_multiset(s.drop_last(), x, le);
        assert(s.drop_last().push(s.last()) =~= s);
        assert(s.to_multiset().insert(x) =~= s.drop_last().to_multiset().insert(x).insert(s.last()));
    }
}

/// A stable sort holds the elements of its input, each as often as the input does.
pub proof fn stable_sort_is_permutation<A>(s: Seq<A>, le: spec_fn(A, A) -> bool)
    ensures
        stable_sort(s, le).to_multiset() == s.to_multiset(),
        stable_sort(s, le).len() == s.len(),
    decreases s.len(),
{
    broadcast use vstd::seq_lib::group_to_multiset_ensures;

    if s.len() > 0 {
        stable_sort_is_permutation(s.drop_last(), le);
        lemma_insert_sorted_multiset(stable_sort(s.drop_last(), le), s.last(), le);
        assert(s.drop_last().push(s.last()) =~= s);
    }
    assert(stable_sort(s, le).to_multiset().len() == stable_sort(s, le).len());
    assert(s.to_multiset().len() == s.len());
}

proof fn lemma_insert_sorted_ties<A>(s: Seq<A>, x: A, y: A, le: spec_fn(A, A) -> bool)
    requires
        is_total_preorder(le),
        is_sorted(s, le),
    ensures
        insert_sorted(s, x, le).filter(tied_to(y, le)) == s.push(x).filter(tied_to(y, le)),
    decreases s.len(),
{
    let tied = tied_to(y, le);
    if s.len() > 0 && !le(s.last(), x) {
        let t = s.drop_last();
        let last = s.last();
        let q = insert_sorted(t, x, le);
        lemma_insert_sorted_ties(t, x, y, le);
        q.lemma_filter_push(last, tied);
        t.lemma_filter_push(x, tied);
        t.lemma_filter_push(last, tied);
        s.lemma_filter_push(x, tied);
        assert(t.push(last) =~= s);
        if tied(last) && tied(x) {
            assert(le(last, y) && le(y, x));
            assert(le(last, x));
        }
    }
}

/// A stable sort keeps the relative places of the elements that the order does not tell
/// apart.
pub proof fn stable_sort_keeps_ties<A>(s: Seq<A>, y: A, le: spec_fn(A, A) -> bool)
    requires
        is_total_preorder(le),
    ensures
        stable_sort(s, le).filter(tied_to(y, le)) == s.filter(tied_to(y, le)),
    decreases s.len(),
{
    if s.len() > 0 {
        let t = s.drop_last();
        let r = stable_sort(t, le);
        stable_sort_keeps_ties(t, y, le);
        stable_sort_is_sorted(t, le);
        lemma_insert_sorted_ties(r, s.last(), y, le);
        r.lemma_filter_push(s.last(), tied_to(y, le));
        t.lemma_filter_push(s.last(), tied_to(y, le));
        assert(t.push(s.last()) =~= s);
    }
}

proof fn lemma_insert_sorted_images<A, B>(
    s: Seq<A>,
    x: A,
    le: spec_fn(A, A) -> bool,
    f: spec_fn(A) -> B,
)
    ensures
        insert_sorted(s, x, le).map_values(f).to_multiset() == s.map_values(f).to_multiset().insert(
            f(x),
        ),
    decreases s.len(),
{
    broadcast use vstd::seq_lib::group_to_multiset_ensures;

    if s.len() == 0 || le(s.last(), x) {
        assert(s.push(x).map_values(f) =~= s.map_values(f).push(f(x)));
    } else {
        let t = s.drop_last();
        let q = insert_sorted(t, x, le);
        lemma_insert_sorted_images(t, x, le, f);
        assert(q.push(s.last()).map_values(f) =~= q.map_values(f).push(f(s.last())));
        assert(s.map_values(f) =~= t.map_values(f).push(f(s.last())));
        assert(s.map_values(f).to_multiset().insert(f(x)) =~= t.map_values(f).to_multiset().insert(
            f(x),
        ).insert(f(s.last())));
    }
}

/// The images of a stable sort are those of its input, each as often.
pub proof fn stable_sort_keeps_images<A, B>(
    s: Seq<A>,
    le: spec_fn(A, A) -> bool,
    f: spec_fn(A) -> B,
)
    ensures
        stable_sort(s, le).map_values(f).to_multiset() == s.map_values(f).to_multiset(),
    decreases s.len(),
{
    broadcast use vstd::seq_lib::group_to_multiset_ensures;

    if s.len() > 0 {
        let t = s.drop_last();
        stable_sort_keeps_images(t, le, f);
        lemma_insert_sorted_images(stable_sort(t, le), s.last(), le, f);
        assert(s.map_values(f) =~= t.map_values(f).push(f(s.last())));
    }
}

} // verus!
