//! A running distribution over a bounded range, kept in bins of equal width.

use vstd::prelude::*;

verus! {

/// Sum of the first `k` bin counts.
pub open spec fn prefix(counts: Seq<nat>, k: int) -> nat
    decreases k,
{
    if k <= 0 {
        0
    } else {
        prefix(counts, k - 1) + counts[k - 1]
    }
}

/// Sum of all bin counts.
pub open spec fn total(counts: Seq<nat>) -> nat {
    prefix(counts, counts.len() as int)
}

/// The least number of leading bins, not below `k`, that together hold at least
/// `target` elements; every bin when they never do.
pub open spec fn first_reaching(counts: Seq<nat>, target: nat, k: int) -> int
    decreases counts.len() - k,
{
    if k >= counts.len() || prefix(counts, k) >= target {
        k
    } else {
        first_reaching(counts, target, k + 1)
    }
}

/// What a histogram stands for: its range, the width of a bin and how many
/// elements each bin holds.
pub struct HistogramView {
    pub min: int,
    pub max: int,
    pub bin_width: int,
    pub counts: Seq<nat>,
}

impl HistogramView {
    /// The bin that `value` falls into: as many bin widths as lie between the
    /// minimum and the value, and the last bin for what lies beyond it. Where
    /// the range is too narrow to give the bins a width, every value falls
    /// into the first bin.
    pub open spec fn bin_of(self, value: int) -> int {
        if self.bin_width <= 0 {
            0
        } else if (value - self.min) / self.bin_width >= self.counts.len() {
            self.counts.len() - 1
        } else {
            (value - self.min) / self.bin_width
        }
    }

    /// Whether `value` lies in the range of the histogram.
    pub open spec fn covers(self, value: int) -> bool {
        self.min <= value <= self.max
    }

    /// Whether every bin edge, the one past the last bin included, is an `i32`.
    pub open spec fn edges_fit(self) -> bool {
        &&& self.counts.len() * self.bin_width <= i32::MAX
        &&& self.min + self.counts.len() * self.bin_width <= i32::MAX
    }

    /// The number of elements held.
    pub open spec fn total(self) -> nat {
        total(self.counts)
    }

    /// The histogram with one more element in the bin of `value`.
    pub open spec fn incremented(self, value: int) -> HistogramView {
        let bin = self.bin_of(value);
        HistogramView { counts: self.counts.update(bin, self.counts[bin] + 1), ..self }
    }

    /// The histogram with one element less in the bin of `value`.
    pub open spec fn decremented(self, value: int) -> HistogramView {
        let bin = self.bin_of(value);
        HistogramView { counts: self.counts.update(bin, (self.counts[bin] - 1) as nat), ..self }
    }

    /// How many elements lie at or below the rank that `percentile` names.
    pub open spec fn target(self, percentile: int) -> nat {
        (percentile * self.total() / 100) as nat
    }

    /// The number of leading bins needed to reach the rank of `percentile`.
    pub open spec fn percentile_bin(self, percentile: int) -> int {
        first_reaching(self.counts, self.target(percentile), 0)
    }

    /// The upper edge of the last bin needed to reach the rank of `percentile`.
    pub open spec fn percentile(self, percentile: int) -> int {
        self.min + self.percentile_bin(percentile) * self.bin_width
    }

    /// The percentile within the bin in which its rank falls, taking the
    /// elements of that bin to be spread evenly over it: the upper edge of the
    /// bin, moved back by the share of the bin's elements that lie above the
    /// rank. A rank of zero is at the minimum.
    pub open spec fn percentile_fine(self, percentile: int) -> int {
        let bins = self.percentile_bin(percentile);
        if bins <= 0 {
            self.percentile(percentile)
        } else {
            let over = prefix(self.counts, bins) - self.target(percentile);
            self.percentile(percentile) - (over * self.bin_width) / (self.counts[bins - 1] as int)
        }
    }
}

/// Changing one bin changes each prefix sum that includes it by the same amount.
pub proof fn lemma_prefix_update(counts: Seq<nat>, bin: int, value: nat, k: int)
    requires
        0 <= bin < counts.len(),
        0 <= k <= counts.len(),
    ensures
        prefix(counts.update(bin, value), k) == if bin < k {
            prefix(counts, k) - counts[bin] + value
        } else {
            prefix(counts, k) as int
        },
    decreases k,
{
    if k > 0 {
        lemma_prefix_update(counts, bin, value, k - 1);
    }
}

/// Prefix sums never decrease.
pub proof fn lemma_prefix_monotonic(counts: Seq<nat>, i: int, j: int)
    requires
        i <= j,
    ensures
        prefix(counts, i) <= prefix(counts, j),
    decreases j - i,
{
    if i < j {
        lemma_prefix_monotonic(counts, i, j - 1);
    }
}

/// `first_reaching` names the least prefix that reaches the target: no shorter
/// prefix from `k` on does, and the one it names does unless the bins run out.
pub proof fn lemma_first_reaching(counts: Seq<nat>, target: nat, k: int)
    requires
        0 <= k <= counts.len(),
    ensures
        k <= first_reaching(counts, target, k) <= counts.len(),
        forall|j: int| k <= j < first_reaching(counts, target, k) ==> prefix(counts, j) < target,
        first_reaching(counts, target, k) < counts.len() ==> prefix(
            counts,
            first_reaching(counts, target, k),
        ) >= target,
        target <= total(counts) ==> prefix(counts, first_reaching(counts, target, k))
            >= target,
    decreases counts.len() - k,
{
    if k >= counts.len() || prefix(counts, k) >= target {
    } else {
        lemma_first_reaching(counts, target, k + 1);
    }
}

/// The bin of a value of the range is one of the bins.
pub proof fn lemma_bin_of(h: HistogramView, value: int)
    requires
        h.counts.len() > 0,
        h.covers(value),
    ensures
        0 <= h.bin_of(value) < h.counts.len(),
{
    if h.bin_width > 0 {
        let distance = value - h.min;
        let width = h.bin_width;
        assert(0 <= distance / width) by (nonlinear_arith)
            requires
                distance >= 0,
                width > 0,
        ;
    }
}

/// Removing an element just added gives the histogram back, and with it the
/// count and every percentile. So does adding one just removed from a bin that
/// held one.
pub proof fn lemma_increment_decrement(h: HistogramView, value: int)
    requires
        h.counts.len() > 0,
        h.covers(value),
    ensures
        h.incremented(value).decremented(value) == h,
        h.incremented(value).total() == h.total() + 1,
        h.incremented(value).decremented(value).total() == h.total(),
        forall|p: int|
            h.incremented(value).decremented(value).percentile(p) == #[trigger] h.percentile(p),
        h.counts[h.bin_of(value)] > 0 ==> h.decremented(value).incremented(value) == h,
        h.counts[h.bin_of(value)] > 0 ==> h.decremented(value).total() == h.total() - 1,
{
    lemma_bin_of(h, value);
    let bin = h.bin_of(value);
    let up = h.incremented(value);
    assert(up.bin_of(value) == bin);
    assert(up.decremented(value).counts =~= h.counts);
    lemma_prefix_update(h.counts, bin, h.counts[bin] + 1, h.counts.len() as int);
    if h.counts[bin] > 0 {
        let down = h.decremented(value);
        assert(down.bin_of(value) == bin);
        assert(down.incremented(value).counts =~= h.counts);
        lemma_prefix_update(h.counts, bin, (h.counts[bin] - 1) as nat, h.counts.len() as int);
    }
}

/// One change of a histogram: an element that comes in or one that leaves.
pub enum Change {
    Insert(int),
    Remove(int),
}

/// How many of `changes` are insertions.
pub open spec fn insertions(changes: Seq<Change>) -> int
    decreases changes.len(),
{
    if changes.len() == 0 {
        0
    } else {
        insertions(changes.drop_last()) + if changes.last() is Insert {
            1int
        } else {
            0int
        }
    }
}

/// How many of `changes` are removals.
pub open spec fn removals(changes: Seq<Change>) -> int
    decreases changes.len(),
{
    if changes.len() == 0 {
        0
    } else {
        removals(changes.drop_last()) + if changes.last() is Remove {
            1int
        } else {
            0int
        }
    }
}

impl HistogramView {
    /// The histogram after `change`.
    pub open spec fn changed(self, change: Change) -> HistogramView {
        match change {
            Change::Insert(value) => self.incremented(value),
            Change::Remove(value) => self.decremented(value),
        }
    }

    /// Whether `change` can be made: its value lies in the range, and a
    /// removal finds an element in the bin of its value.
    pub open spec fn admits(self, change: Change) -> bool {
        match change {
            Change::Insert(value) => self.covers(value),
            Change::Remove(value) => self.covers(value) && self.counts[self.bin_of(value)] > 0,
        }
    }

    /// The histogram after `changes`, made in order.
    pub open spec fn after(self, changes: Seq<Change>) -> HistogramView
        decreases changes.len(),
    {
        if changes.len() == 0 {
            self
        } else {
            self.after(changes.drop_last()).changed(changes.last())
        }
    }

    /// Whether each of `changes` can be made when its turn comes.
    pub open spec fn admits_all(self, changes: Seq<Change>) -> bool
        decreases changes.len(),
    {
        if changes.len() == 0 {
            true
        } else {
            self.admits_all(changes.drop_last()) && self.after(changes.drop_last()).admits(
                changes.last(),
            )
        }
    }

    /// By how much `changes` raise the count of `bin`: the insertions into it
    /// less the removals from it.
    pub open spec fn net(self, changes: Seq<Change>, bin: int) -> int
        decreases changes.len(),
    {
        if changes.len() == 0 {
            0
        } else {
            self.net(changes.drop_last(), bin) + match changes.last() {
                Change::Insert(value) => if self.bin_of(value) == bin {
                    1int
                } else {
                    0int
                },
                Change::Remove(value) => if self.bin_of(value) == bin {
                    -1int
                } else {
                    0int
                },
            }
        }
    }
}

/// Over any stream of insertions and removals, in any order in which each
/// removal finds its element, each bin holds what it held before plus what
/// came into it less what left it, and the count is the count before plus the
/// insertions less the removals. Once every bin has lost as many elements as
/// it gained, as when every element inserted was removed again, the histogram
/// is the one before the stream, and so are the count and every percentile.
pub proof fn lemma_stream(h: HistogramView, changes: Seq<Change>)
    requires
        h.counts.len() > 0,
        h.admits_all(changes),
    ensures
        h.after(changes).min == h.min,
        h.after(changes).max == h.max,
        h.after(changes).bin_width == h.bin_width,
        h.after(changes).counts.len() == h.counts.len(),
        forall|bin: int|
            0 <= bin < h.counts.len() ==> #[trigger] h.after(changes).counts[bin] == h.counts[bin]
                + h.net(changes, bin),
        h.after(changes).total() == h.total() + insertions(changes) - removals(changes),
        (forall|bin: int| 0 <= bin < h.counts.len() ==> #[trigger] h.net(changes, bin) == 0)
            ==> h.after(changes) == h,
    decreases changes.len(),
{
    if changes.len() > 0 {
        let earlier = changes.drop_last();
        let before = h.after(earlier);
        lemma_stream(h, earlier);
        match changes.last() {
            Change::Insert(value) => {
                lemma_bin_of(before, value);
                lemma_increment_decrement(before, value);
                assert(before.bin_of(value) == h.bin_of(value));
            },
            Change::Remove(value) => {
                lemma_bin_of(before, value);
                lemma_increment_decrement(before, value);
                assert(before.bin_of(value) == h.bin_of(value));
            },
        }
    }
    assert forall|bin: int| 0 <= bin < h.counts.len() implies #[trigger] h.after(
        changes,
    ).counts[bin] == h.counts[bin] + h.net(changes, bin) by {}
    if forall|bin: int| 0 <= bin < h.counts.len() ==> #[trigger] h.net(changes, bin) == 0 {
        assert forall|bin: int| 0 <= bin < h.counts.len() implies h.after(changes).counts[bin]
            == h.counts[bin] by {
            assert(h.net(changes, bin) == 0);
        }
        assert(h.after(changes).counts =~= h.counts);
    }
}

/// How many of `values` fall into `bin`.
pub open spec fn held_in(h: HistogramView, values: Seq<int>, bin: int) -> nat
    decreases values.len(),
{
    if values.len() == 0 {
        0
    } else {
        held_in(h, values.drop_last(), bin) + if h.bin_of(values.last()) == bin {
            1nat
        } else {
            0nat
        }
    }
}

/// How many of `values` are smaller than `x`.
pub open spec fn below(values: Seq<int>, x: int) -> nat
    decreases values.len(),
{
    if values.len() == 0 {
        0
    } else {
        below(values.drop_last(), x) + if values.last() < x {
            1nat
        } else {
            0nat
        }
    }
}

/// How many of `values` are larger than `x`.
pub open spec fn above(values: Seq<int>, x: int) -> nat
    decreases values.len(),
{
    if values.len() == 0 {
        0
    } else {
        above(values.drop_last(), x) + if values.last() > x {
            1nat
        } else {
            0nat
        }
    }
}

/// Whether `median` is the median of `values`: one of them, with at most half
/// of the others below it and at most half of all above it.
pub open spec fn is_median(values: Seq<int>, median: int) -> bool {
    &&& values.contains(median)
    &&& below(values, median) <= (values.len() - 1) / 2
    &&& above(values, median) <= values.len() / 2
}

impl HistogramView {
    /// The lower edge of `bin`.
    pub open spec fn edge(self, bin: int) -> int {
        self.min + bin * self.bin_width
    }

    /// Whether the histogram holds exactly `values`: each lies in the range,
    /// each bin counts those that fall into it, and the count is their number.
    pub open spec fn holds(self, values: Seq<int>) -> bool {
        &&& forall|i: int| 0 <= i < values.len() ==> self.covers(#[trigger] values[i])
        &&& forall|bin: int|
            0 <= bin < self.counts.len() ==> #[trigger] self.counts[bin] == held_in(
                self,
                values,
                bin,
            )
        &&& self.total() == values.len()
    }
}

/// A value of the range falls into a bin before the last exactly when it lies
/// between the edges of that bin.
pub proof fn lemma_bin_edges(h: HistogramView, value: int, bin: int)
    requires
        h.bin_width > 0,
        h.covers(value),
        0 <= bin < h.counts.len() - 1,
    ensures
        h.edge(bin + 1) == h.edge(bin) + h.bin_width,
        (h.bin_of(value) == bin) == (h.edge(bin) <= value < h.edge(bin + 1)),
{
    let distance = value - h.min;
    let width = h.bin_width;
    let steps = distance / width;
    vstd::arithmetic::div_mod::lemma_fundamental_div_mod(distance, width);
    assert((bin + 1) * width == bin * width + width) by (nonlinear_arith);
    assert(steps == bin <==> bin * width <= distance < (bin + 1) * width) by (nonlinear_arith)
        requires
            distance == width * steps + distance % width,
            0 <= distance % width < width,
            width > 0,
    ;
}

/// The values below the upper edge of a bin before the last are those below
/// its lower edge and those in the bin.
proof fn lemma_below_next_edge(h: HistogramView, values: Seq<int>, bin: int)
    requires
        h.bin_width > 0,
        forall|i: int| 0 <= i < values.len() ==> h.covers(#[trigger] values[i]),
        0 <= bin < h.counts.len() - 1,
    ensures
        below(values, h.edge(bin + 1)) == below(values, h.edge(bin)) + held_in(h, values, bin),
    decreases values.len(),
{
    if values.len() > 0 {
        let earlier = values.drop_last();
        assert forall|i: int| 0 <= i < earlier.len() implies h.covers(#[trigger] earlier[i]) by {
            assert(earlier[i] == values[i]);
        }
        lemma_below_next_edge(h, earlier, bin);
        assert(h.covers(values[values.len() - 1]));
        lemma_bin_edges(h, values.last(), bin);
    }
}

/// No value of the range is below the minimum.
proof fn lemma_none_below_minimum(h: HistogramView, values: Seq<int>)
    requires
        forall|i: int| 0 <= i < values.len() ==> h.covers(#[trigger] values[i]),
    ensures
        below(values, h.min) == 0,
    decreases values.len(),
{
    if values.len() > 0 {
        let earlier = values.drop_last();
        assert forall|i: int| 0 <= i < earlier.len() implies h.covers(#[trigger] earlier[i]) by {
            assert(earlier[i] == values[i]);
        }
        lemma_none_below_minimum(h, earlier);
        assert(h.covers(values[values.len() - 1]));
    }
}

/// The bins before `bin` hold the values below its lower edge.
pub proof fn lemma_prefix_is_below(h: HistogramView, values: Seq<int>, bin: int)
    requires
        h.bin_width > 0,
        h.holds(values),
        0 <= bin <= h.counts.len() - 1,
    ensures
        prefix(h.counts, bin) == below(values, h.edge(bin)),
    decreases bin,
{
    if bin == 0 {
        lemma_none_below_minimum(h, values);
        assert(h.edge(0) == h.min);
    } else {
        lemma_prefix_is_below(h, values, bin - 1);
        lemma_below_next_edge(h, values, bin - 1);
        assert(h.counts[bin - 1] == held_in(h, values, bin - 1));
    }
}

/// Each value is above the smaller or below the larger of two different
/// numbers.
proof fn lemma_above_or_below(values: Seq<int>, low: int, high: int)
    requires
        low < high,
    ensures
        above(values, low) + below(values, high) >= values.len(),
    decreases values.len(),
{
    if values.len() > 0 {
        lemma_above_or_below(values.drop_last(), low, high);
    }
}

/// Raising the bar never lowers the number of values below it.
proof fn lemma_below_grows(values: Seq<int>, low: int, high: int)
    requires
        low <= high,
    ensures
        below(values, low) <= below(values, high),
    decreases values.len(),
{
    if values.len() > 0 {
        lemma_below_grows(values.drop_last(), low, high);
    }
}

/// A value between two bars is below the higher one only.
proof fn lemma_below_grows_by(values: Seq<int>, low: int, high: int, i: int)
    requires
        0 <= i < values.len(),
        low <= values[i] < high,
    ensures
        below(values, low) < below(values, high),
    decreases values.len(),
{
    let earlier = values.drop_last();
    if i == values.len() - 1 {
        lemma_below_grows(earlier, low, high);
    } else {
        assert(earlier[i] == values[i]);
        lemma_below_grows_by(earlier, low, high, i);
    }
}

/// A bin that holds something holds one of the values.
proof fn lemma_held_value(h: HistogramView, values: Seq<int>, bin: int) -> (i: int)
    requires
        held_in(h, values, bin) > 0,
    ensures
        0 <= i < values.len(),
        h.bin_of(values[i]) == bin,
    decreases values.len(),
{
    if h.bin_of(values.last()) == bin {
        values.len() - 1
    } else {
        let earlier = values.drop_last();
        let i = lemma_held_value(h, earlier, bin);
        assert(earlier[i] == values[i]);
        i
    }
}

/// Two histograms with the same bins sort values into them alike.
proof fn lemma_held_alike(h: HistogramView, other: HistogramView, values: Seq<int>, bin: int)
    requires
        h.min == other.min,
        h.bin_width == other.bin_width,
        h.counts.len() == other.counts.len(),
    ensures
        held_in(h, values, bin) == held_in(other, values, bin),
    decreases values.len(),
{
    if values.len() > 0 {
        lemma_held_alike(h, other, values.drop_last(), bin);
    }
}

/// Without its oldest value, a window holds one value less in the bin of that
/// value and as many as before in every other bin.
proof fn lemma_held_without_oldest(h: HistogramView, values: Seq<int>, bin: int)
    requires
        values.len() > 0,
    ensures
        held_in(h, values, bin) == held_in(h, values.drop_first(), bin) + if h.bin_of(values[0])
            == bin {
            1nat
        } else {
            0nat
        },
    decreases values.len(),
{
    if values.len() == 1 {
        assert(values.drop_last() =~= Seq::<int>::empty());
        assert(values.drop_first() =~= Seq::<int>::empty());
    } else {
        let earlier = values.drop_last();
        lemma_held_without_oldest(h, earlier, bin);
        assert(earlier.drop_first() =~= values.drop_first().drop_last());
        assert(earlier[0] == values[0]);
        assert(values.drop_first().last() == values.last());
    }
}

/// An empty histogram holds no values.
pub proof fn lemma_holds_nothing(h: HistogramView)
    requires
        forall|bin: int| 0 <= bin < h.counts.len() ==> h.counts[bin] == 0,
    ensures
        h.holds(Seq::<int>::empty()),
{
    lemma_prefix_zero(h.counts, h.counts.len() as int);
}

/// A histogram that holds a window holds, after an insertion, the window with
/// the value inserted at its end.
pub proof fn lemma_holds_after_insertion(h: HistogramView, values: Seq<int>, value: int)
    requires
        h.counts.len() > 0,
        h.holds(values),
        h.covers(value),
    ensures
        h.incremented(value).holds(values.push(value)),
{
    let after = h.incremented(value);
    let longer = values.push(value);
    lemma_bin_of(h, value);
    lemma_increment_decrement(h, value);
    assert(longer.drop_last() =~= values);
    assert forall|i: int| 0 <= i < longer.len() implies after.covers(#[trigger] longer[i]) by {
        if i < values.len() {
            assert(h.covers(values[i]));
        }
    }
    assert forall|bin: int| 0 <= bin < after.counts.len() implies #[trigger] after.counts[bin]
        == held_in(after, longer, bin) by {
        lemma_held_alike(h, after, longer, bin);
        assert(h.counts[bin] == held_in(h, values, bin));
    }
}

/// A histogram that holds a window holds, after the removal of the oldest
/// value of the window, the rest of the window; the removal finds its element.
pub proof fn lemma_holds_after_removal(h: HistogramView, values: Seq<int>)
    requires
        h.counts.len() > 0,
        h.holds(values),
        values.len() > 0,
    ensures
        h.counts[h.bin_of(values[0])] > 0,
        h.decremented(values[0]).holds(values.drop_first()),
{
    let oldest = values[0];
    let rest = values.drop_first();
    assert(h.covers(values[0]));
    lemma_bin_of(h, oldest);
    let place = h.bin_of(oldest);
    lemma_held_without_oldest(h, values, place);
    assert(h.counts[place] == held_in(h, values, place));
    lemma_increment_decrement(h, oldest);
    let after = h.decremented(oldest);
    assert forall|i: int| 0 <= i < rest.len() implies after.covers(#[trigger] rest[i]) by {
        assert(rest[i] == values[i + 1]);
        assert(h.covers(values[i + 1]));
    }
    assert forall|bin: int| 0 <= bin < after.counts.len() implies #[trigger] after.counts[bin]
        == held_in(after, rest, bin) by {
        lemma_held_alike(h, after, rest, bin);
        lemma_held_without_oldest(h, values, bin);
        assert(h.counts[bin] == held_in(h, values, bin));
    }
}

/// The fiftieth percentile of a histogram is within one bin width of the
/// median of the values that it holds, where the bins reach the top of the
/// range and none before the last is empty.
pub proof fn lemma_median_within_one_bin(h: HistogramView, values: Seq<int>, median: int)
    requires
        h.counts.len() > 0,
        h.bin_width > 0,
        h.holds(values),
        is_median(values, median),
        h.max <= h.edge(h.counts.len() as int),
        forall|bin: int| 0 <= bin < h.counts.len() - 1 ==> #[trigger] h.counts[bin] > 0,
    ensures
        h.percentile(50) - h.bin_width <= median <= h.percentile(50) + h.bin_width,
{
    let n = values.len() as int;
    let bins = h.counts.len() as int;
    let width = h.bin_width;
    let target = h.target(50);
    assert(target == n / 2);
    let k = h.percentile_bin(50);
    lemma_first_reaching(h.counts, target, 0);
    assert(h.percentile(50) == h.edge(k));
    let at = choose|i: int| 0 <= i < values.len() && values[i] == median;
    assert(h.covers(values[at]));
    assert(h.edge(k) - width == h.edge(k - 1)) by (nonlinear_arith)
        requires
            h.edge(k) == h.min + k * width,
            h.edge(k - 1) == h.min + (k - 1) * width,
    ;
    assert(h.edge(k) + width == h.edge(k + 1)) by (nonlinear_arith)
        requires
            h.edge(k) == h.min + k * width,
            h.edge(k + 1) == h.min + (k + 1) * width,
    ;
    if k >= 1 {
        lemma_prefix_is_below(h, values, k - 1);
        if median < h.edge(k - 1) {
            lemma_above_or_below(values, median, h.edge(k - 1));
        }
    }
    if k <= bins - 1 {
        lemma_prefix_is_below(h, values, k);
        if median > h.edge(k) + width {
            if k <= bins - 2 {
                assert(h.counts[k] == held_in(h, values, k));
                let i = lemma_held_value(h, values, k);
                assert(h.covers(values[i]));
                lemma_bin_edges(h, values[i], k);
                lemma_below_grows_by(values, h.edge(k), median, i);
            }
        }
    }
}

/// A fixed-bin histogram over `[min, max]`.
pub struct Histogram {
    count: usize,
    bins: usize,
    min: i32,
    max: i32,
    bin_width: i32,
    bin_counts: Vec<usize>,
}

impl View for Histogram {
    type V = HistogramView;

    closed spec fn view(&self) -> HistogramView {
        HistogramView {
            min: self.min as int,
            max: self.max as int,
            bin_width: self.bin_width as int,
            counts: Seq::new(self.bin_counts@.len(), |i: int| self.bin_counts@[i] as nat),
        }
    }
}

impl Histogram {
    /// The invariant of a histogram: the element count is the sum of the bins,
    /// and the bin width is the range divided by one less than the bin count.
    pub closed spec fn wf(&self) -> bool {
        &&& self.bins == self.bin_counts@.len()
        &&& 2 <= self.bins <= i32::MAX
        &&& self.min <= self.max
        &&& self.max - self.min <= i32::MAX
        &&& self.bin_width == (self.max - self.min) / (self.bins - 1)
        &&& self.count == total(self@.counts)
    }

    /// What the invariant gives to callers.
    pub proof fn lemma_wf(&self)
        requires
            self.wf(),
        ensures
            2 <= self@.counts.len() <= i32::MAX,
            self@.min <= self@.max,
            self@.max - self@.min <= i32::MAX,
            self@.bin_width == (self@.max - self@.min) / (self@.counts.len() - 1),
            0 <= self@.bin_width,
            self@.total() <= usize::MAX,
            self@.min + (self@.counts.len() - 1) * self@.bin_width <= self@.max,
    {
        let d = self.max - self.min;
        let n = self.bins - 1;
        assert(0 <= d / n && n * (d / n) <= d) by (nonlinear_arith)
            requires
                d >= 0,
                n > 0,
        ;
    }

    /// Creates an empty histogram of `bins` bins over `[min, max]`.
    pub fn new(bins: usize, min: i32, max: i32) -> (r: Histogram)
        requires
            2 <= bins <= i32::MAX,
            min <= max,
            max - min <= i32::MAX,
        ensures
            r.wf(),
            r@.min == min,
            r@.max == max,
            r@.bin_width == (max - min) / (bins - 1),
            r@.counts == Seq::new(bins as nat, |i: int| 0nat),
            r@.total() == 0,
    {
        let mut bin_counts: Vec<usize> = Vec::new();
        let mut i: usize = 0;
        while i < bins
            invariant
                i <= bins,
                bin_counts@.len() == i,
                forall|j: int| 0 <= j < i ==> bin_counts@[j] == 0,
            decreases bins - i,
        {
            bin_counts.push(0);
            i += 1;
        }
        let r = Histogram {
            count: 0,
            bins,
            min,
            max,
            bin_width: (max - min) / ((bins - 1) as i32),
            bin_counts,
        };
        proof {
            assert(r@.counts =~= Seq::new(bins as nat, |i: int| 0nat));
            lemma_prefix_zero(r@.counts, bins as int);
        }
        r
    }

    /// Finds the bin that `value` falls into.
    fn bin(&self, value: i32) -> (r: usize)
        requires
            self.wf(),
            self@.covers(value as int),
        ensures
            r == self@.bin_of(value as int),
            r < self.bins,
    {
        proof {
            self.lemma_wf();
            lemma_bin_of(self@, value as int);
        }
        if self.bin_width == 0 {
            0
        } else {
            let steps: i32 = (value - self.min) / self.bin_width;
            if steps as usize >= self.bins {
                self.bins - 1
            } else {
                steps as usize
            }
        }
    }

    /// Adds an element to the histogram. Every value of the range is taken.
    pub fn increment(&mut self, value: i32)
        requires
            old(self).wf(),
            old(self)@.covers(value as int),
            old(self)@.total() < usize::MAX,
        ensures
            final(self).wf(),
            final(self)@ == old(self)@.incremented(value as int),
            final(self)@.total() == old(self)@.total() + 1,
    {
        proof {
            self.lemma_wf();
            lemma_increment_decrement(self@, value as int);
        }
        let bin: usize = self.bin(value);
        proof {
            lemma_prefix_monotonic(self@.counts, bin as int + 1, self.bins as int);
            lemma_prefix_monotonic(self@.counts, 0, bin as int);
        }
        let c: usize = self.bin_counts[bin];
        self.bin_counts.set(bin, c + 1);
        self.count += 1;
        proof {
            assert(self@.counts =~= old(self)@.incremented(value as int).counts);
        }
    }

    /// Removes an element from the histogram: one of the elements in the bin
    /// of `value`, which must hold one.
    pub fn decrement(&mut self, value: i32)
        requires
            old(self).wf(),
            old(self)@.covers(value as int),
            old(self)@.counts[old(self)@.bin_of(value as int)] > 0,
        ensures
            final(self).wf(),
            final(self)@ == old(self)@.decremented(value as int),
            final(self)@.total() == old(self)@.total() - 1,
    {
        proof {
            self.lemma_wf();
            lemma_increment_decrement(self@, value as int);
        }
        let bin: usize = self.bin(value);
        proof {
            lemma_prefix_monotonic(self@.counts, bin as int + 1, self.bins as int);
        }
        let c: usize = self.bin_counts[bin];
        self.bin_counts.set(bin, c - 1);
        self.count -= 1;
        proof {
            assert(self@.counts =~= old(self)@.decremented(value as int).counts);
        }
    }

    /// Returns the number of elements in the histogram.
    pub fn count(&self) -> (r: usize)
        requires
            self.wf(),
        ensures
            r == self@.total(),
    {
        self.count
    }

    /// Walks the bins until they hold `target` elements; returns how many bins
    /// that took and how many elements they hold.
    fn reach(&self, target: usize) -> (r: (usize, usize))
        requires
            self.wf(),
            target <= self@.total(),
        ensures
            r.0 == first_reaching(self@.counts, target as nat, 0),
            r.1 == prefix(self@.counts, r.0 as int),
            r.0 <= self@.counts.len(),
            r.1 >= target,
            r.0 > 0 ==> prefix(self@.counts, r.0 - 1) < target,
    {
        let mut count: usize = 0;
        let mut bin: usize = 0;
        proof {
            lemma_first_reaching(self@.counts, target as nat, 0);
        }
        while count < target
            invariant
                self.wf(),
                target <= self@.total(),
                bin <= self.bins,
                count == prefix(self@.counts, bin as int),
                first_reaching(self@.counts, target as nat, 0) == first_reaching(
                    self@.counts,
                    target as nat,
                    bin as int,
                ),
            decreases self.bins - bin,
        {
            proof {
                lemma_prefix_monotonic(self@.counts, bin as int + 1, self.bins as int);
            }
            count += self.bin_counts[bin];
            bin += 1;
        }
        (bin, count)
    }

    /// The rank that `percentile` names among the elements held.
    fn target(&self, percentile: usize) -> (r: usize)
        requires
            self.wf(),
            percentile <= 100,
        ensures
            r == self@.target(percentile as int),
            r <= self@.total(),
    {
        proof {
            lemma_target_within(percentile as int, self@.total() as int);
        }
        let wide: u128 = (percentile as u128) * (self.count as u128) / 100;
        wide as usize
    }

    /// The upper edge of the last of the first `bins` bins.
    fn edge(&self, bins: usize) -> (r: i32)
        requires
            self.wf(),
            self@.edges_fit(),
            bins <= self@.counts.len(),
        ensures
            r == self@.min + bins * self@.bin_width,
    {
        proof {
            self.lemma_wf();
            assert(0 <= bins * self.bin_width <= self.bins * self.bin_width) by (nonlinear_arith)
                requires
                    0 <= bins <= self.bins,
                    self.bin_width >= 0,
            ;
        }
        self.min + (bins as i32) * self.bin_width
    }

    /// Returns the given percentile, expressed in the range [0, 100], as the
    /// upper edge of the bin in which its rank falls.
    pub fn percentile(&self, percentile: usize) -> (r: i32)
        requires
            self.wf(),
            percentile <= 100,
            self@.edges_fit(),
        ensures
            r == self@.percentile(percentile as int),
    {
        let target: usize = self.target(percentile);
        let (bins, _count) = self.reach(target);
        self.edge(bins)
    }

    /// Returns the given percentile with finer granularity, assuming a constant
    /// distribution within the bin in which its rank falls. The result lies in
    /// that bin: at most one bin width below the plain percentile, and never
    /// above it.
    pub fn percentile_fine(&self, percentile: usize) -> (r: i32)
        requires
            self.wf(),
            percentile <= 100,
            self@.edges_fit(),
        ensures
            r == self@.percentile_fine(percentile as int),
            self@.percentile(percentile as int) - self@.bin_width <= r <= self@.percentile(
                percentile as int,
            ),
    {
        proof {
            self.lemma_wf();
        }
        let target: usize = self.target(percentile);
        let (bins, count) = self.reach(target);
        let edge: i32 = self.edge(bins);
        if bins == 0 {
            return edge;
        }
        let held: usize = self.bin_counts[bins - 1];
        let over: usize = count - target;
        assert(over < held && held > 0);
        let width: u128 = self.bin_width as u128;
        assert(0 <= over * width <= usize::MAX * 0x8000_0000) by (nonlinear_arith)
            requires
                0 <= over <= usize::MAX,
                0 <= width <= 0x8000_0000,
        ;
        let back: u128 = (over as u128) * width / (held as u128);
        assert(0 <= back <= width) by (nonlinear_arith)
            requires
                back == (over * width) / (held as int),
                0 <= over < held,
                0 <= width,
        ;
        assert(self.min + (bins - 1) * self.bin_width <= edge - back) by (nonlinear_arith)
            requires
                edge == self.min + bins * self.bin_width,
                back <= self.bin_width,
        ;
        assert(self.min <= self.min + (bins - 1) * self.bin_width) by (nonlinear_arith)
            requires
                bins >= 1,
                self.bin_width >= 0,
        ;
        edge - (back as i32)
    }
}

/// Bins that are all empty hold nothing.
proof fn lemma_prefix_zero(counts: Seq<nat>, k: int)
    requires
        0 <= k <= counts.len(),
        forall|j: int| 0 <= j < counts.len() ==> counts[j] == 0,
    ensures
        prefix(counts, k) == 0,
    decreases k,
{
    if k > 0 {
        lemma_prefix_zero(counts, k - 1);
    }
}

/// The rank of a percentile of at most 100 is at most the element count.
proof fn lemma_target_within(percentile: int, total: int)
    requires
        0 <= percentile <= 100,
        0 <= total,
    ensures
        0 <= percentile * total / 100 <= total,
{
    assert(0 <= percentile * total <= 100 * total) by (nonlinear_arith)
        requires
            0 <= percentile <= 100,
            0 <= total,
    ;
}

} // verus!
