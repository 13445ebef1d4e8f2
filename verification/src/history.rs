//! The history of load samples and its fitting to the width of a chart.

use std::collections::VecDeque;
use vstd::prelude::*;

verus! {

/// The last `count` elements of a sequence, or all if there are fewer.
pub open spec fn last_of<A>(s: Seq<A>, count: int) -> Seq<A> {
    if s.len() > count {
        s.skip(s.len() - count)
    } else {
        s
    }
}

/// Appends a sample and drops the oldest ones beyond `max_len`.
pub fn push_sample<T>(samples: &mut VecDeque<T>, value: T, max_len: usize)
    ensures
        final(samples)@ == last_of(old(samples)@.push(value), max_len as int),
{
    let ghost all = samples@.push(value);
    samples.push_back(value);
    assert(all.skip(0) =~= all);
    while samples.len() > max_len
        invariant
            samples@.len() <= all.len(),
            samples@ == all.skip(all.len() - samples@.len()),
            samples@.len() >= max_len || samples@.len() == all.len(),
        decreases samples.len(),
    {
        let ghost before = samples@;
        samples.pop_front();
        assert(samples@ =~= before.skip(1));
        assert(samples@ =~= all.skip(all.len() - samples@.len()));
    }
}

/// The sample that a column of a chart shows where there are more samples than columns.
pub open spec fn source_index(slot: int, last: int, width: int) -> int {
    let product = slot * last;
    (if product <= usize::MAX {
        product
    } else {
        usize::MAX as int
    }) / (width - 1)
}

/// The samples fitted to a chart of `width` columns, at least one: fewer samples are
/// aligned to the right, more are thinned out evenly, with the newest in the last column.
pub open spec fn fitted_history(samples: Seq<u64>, width: int) -> Seq<Option<u64>> {
    let columns = if width < 1 {
        1
    } else {
        width
    };
    Seq::new(
        columns as nat,
        |slot: int|
            {
                if samples.len() == 0 {
                    None
                } else if columns == 1 {
                    Some(samples.last())
                } else if samples.len() <= columns {
                    if slot < columns - samples.len() {
                        None
                    } else {
                        Some(samples[slot - (columns - samples.len())])
                    }
                } else {
                    Some(samples[source_index(slot, samples.len() - 1, columns)])
                }
            },
    )
}

proof fn lemma_source_index_in_range(slot: int, last: int, width: int)
    requires
        0 <= slot < width,
        width > 1,
        last >= 0,
    ensures
        0 <= source_index(slot, last, width) <= last,
{
    let product = slot * last;
    let capped = if product <= usize::MAX {
        product
    } else {
        usize::MAX as int
    };
    assert(0 <= product <= (width - 1) * last) by (nonlinear_arith)
        requires
            0 <= slot <= width - 1,
            last >= 0,
            product == slot * last,
    ;
    assert(capped / (width - 1) <= last && 0 <= capped / (width - 1)) by (nonlinear_arith)
        requires
            0 <= capped <= (width - 1) * last,
            width > 1,
            last >= 0,
    ;
}

/// Fits the samples to a chart of `width` columns.
pub fn fit_history_to_width(samples: &[u64], width: usize) -> (columns: Vec<Option<u64>>)
    ensures
        columns@ == fitted_history(samples@, width as int),
{
    let width: usize = if width == 0 {
        1
    } else {
        width
    };
    let count: usize = samples.len();
    let ghost goal = fitted_history(samples@, width as int);
    let mut columns: Vec<Option<u64>> = Vec::new();
    let mut slot: usize = 0;
    while slot < width
        invariant
            1 <= width,
            slot <= width,
            count == samples@.len(),
            goal == fitted_history(samples@, width as int),
            columns@ == goal.take(slot as int),
        decreases width - slot,
    {
        let column: Option<u64> = if count == 0 {
            None
        } else if width == 1 {
            Some(samples[count - 1])
        } else if count <= width {
            if slot < width - count {
                None
            } else {
                Some(samples[slot - (width - count)])
            }
        } else {
            let last: usize = count - 1;
            let product: usize = match slot.checked_mul(last) {
                Some(product) => product,
                None => usize::MAX,
            };
            proof {
                lemma_source_index_in_range(slot as int, last as int, width as int);
            }
            Some(samples[product / (width - 1)])
        };
        columns.push(column);
        slot = slot + 1;
    }
    columns
}

/// The newest sample is always shown, in the last column.
pub proof fn newest_sample_is_shown(samples: Seq<u64>, width: int)
    requires
        samples.len() > 0,
        1 <= width,
        samples.len() * width <= usize::MAX,
    ensures
        fitted_history(samples, width).last() == Some(samples.last()),
{
    let last = samples.len() - 1;
    if width > 1 && samples.len() > width {
        assert((width - 1) * last <= samples.len() * width) by (nonlinear_arith)
            requires
                last == samples.len() - 1,
                width > 1,
                samples.len() > 0,
        ;
        assert(((width - 1) * last) / (width - 1) == last) by (nonlinear_arith)
            requires
                width > 1,
        ;
    }
}

/// Where there are at least as many columns as samples, every sample is shown, in order, at
/// the right.
pub proof fn short_history_is_shown_whole(samples: Seq<u64>, width: int)
    requires
        0 < samples.len() <= width,
    ensures
        fitted_history(samples, width).len() == width,
        forall|k: int|
            0 <= k < samples.len() ==> fitted_history(samples, width)[width - samples.len() + k]
                == Some(#[trigger] samples[k]),
{
}

/// Of a sequence the last elements are kept, in their order: all if there are no more than
/// wanted, and else as many as wanted.
pub proof fn the_last_elements_are_kept<A>(s: Seq<A>, count: int)
    requires
        0 <= count,
    ensures
        last_of(s, count).len() == (if s.len() <= count {
            s.len() as int
        } else {
            count
        }),
        forall|k: int|
            0 <= k < last_of(s, count).len() ==> #[trigger] last_of(s, count)[k] == s[s.len()
                - last_of(s, count).len() + k],
{
}

/// Where there are more samples than columns, each column shows the sample that lies as far
/// along the history as the column lies along the chart, rounded down: the first column shows
/// the oldest sample. A chart always has a column; a chart of one shows the newest sample.
/// Columns to the left of a short history, and all columns of an empty one, show nothing.
pub proof fn long_history_is_thinned_evenly(samples: Seq<u64>, width: int, slot: int, place: int)
    requires
        0 <= width,
        0 <= slot < width || (slot == 0 && width == 0),
    ensures
        fitted_history(samples, width).len() == (if width == 0 {
            1
        } else {
            width
        }),
        samples.len() == 0 ==> fitted_history(samples, width)[slot] is None,
        samples.len() > 0 && width <= 1 ==> fitted_history(samples, width)[slot] == Some(
            samples.last(),
        ),
        0 < samples.len() <= width && width > 1 && slot < width - samples.len() ==> fitted_history(
            samples,
            width,
        )[slot] is None,
        samples.len() > width > 1 && slot * (samples.len() - 1) <= usize::MAX && 0 <= place
            && place * (width - 1) <= slot * (samples.len() - 1) && slot * (samples.len() - 1) < (
        place + 1) * (width - 1) ==> fitted_history(samples, width)[slot] == Some(samples[place]),
{
    if samples.len() > width && width > 1 {
        let product = slot * (samples.len() - 1);
        if 0 <= place && place * (width - 1) <= product && product < (place + 1) * (width - 1) {
            assert(product / (width - 1) == place) by (nonlinear_arith)
                requires
                    width > 1,
                    place * (width - 1) <= product,
                    product < (place + 1) * (width - 1),
            ;
        }
    }
}

} // verus!
