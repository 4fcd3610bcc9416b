//! A rolling median over the last samples of a stream.
//!
//! The filtering itself is done by the `median` crate. This module states
//! which samples the filter holds in its window and what its answer is: the
//! median of those samples, the lower of the two middle ones where their
//! number is even.

use vstd::prelude::*;

verus! {

/// The largest window that a filter is created with. The window is allocated
/// at once when the filter is created, which fails on a size that memory
/// cannot hold; this bound is far below any such size.
pub const MAX_WINDOW: usize = 4096;

/// `median::Filter`, declared so that a filter can be held in a field. Nothing
/// is known of what is inside one but through the two functions below.
#[verifier::external_type_specification]
#[verifier::external_body]
#[verifier::reject_recursive_types(T)]
pub struct ExFilter<T>(median::Filter<T>);

/// The samples that the filter holds in its window, oldest first.
pub uninterp spec fn contents(filter: median::Filter<u64>) -> Seq<u64>;

/// The window size that the filter was created with.
pub uninterp spec fn window_size(filter: median::Filter<u64>) -> nat;

/// The samples that a window of `size` keeps of `samples`: the last `size` of
/// them, or all while they are fewer.
pub open spec fn window_of(size: nat, samples: Seq<u64>) -> Seq<u64> {
    if samples.len() <= size {
        samples
    } else {
        samples.subrange(samples.len() - size, samples.len() as int)
    }
}

/// How many samples of `window` are smaller than `value`.
pub open spec fn count_below(window: Seq<u64>, value: u64) -> nat
    decreases window.len(),
{
    if window.len() == 0 {
        0
    } else {
        count_below(window.drop_last(), value) + if window.last() < value {
            1nat
        } else {
            0nat
        }
    }
}

/// How many samples of `window` are larger than `value`.
pub open spec fn count_above(window: Seq<u64>, value: u64) -> nat
    decreases window.len(),
{
    if window.len() == 0 {
        0
    } else {
        count_above(window.drop_last(), value) + if window.last() > value {
            1nat
        } else {
            0nat
        }
    }
}

/// Whether `value` is the median of `window`: one of its samples, with at most
/// half of the others below it and at most half of all above it. Of two middle
/// samples this is the lower one.
pub open spec fn is_lower_median(window: Seq<u64>, value: u64) -> bool {
    &&& window.contains(value)
    &&& count_below(window, value) <= (window.len() - 1) / 2
    &&& count_above(window, value) <= window.len() / 2
}

/// The median of `window`.
pub open spec fn lower_median(window: Seq<u64>) -> u64 {
    choose|value: u64| is_lower_median(window, value)
}

/// The answer of a filter of window `size` that has consumed `samples`, the
/// last of them just now.
pub open spec fn median_of(size: nat, samples: Seq<u64>) -> u64 {
    lower_median(window_of(size, samples))
}

/// Of two different values, each sample is below the larger or above the
/// smaller.
proof fn lemma_counts_cover(window: Seq<u64>, a: u64, b: u64)
    requires
        a < b,
    ensures
        count_below(window, b) + count_above(window, a) >= window.len(),
    decreases window.len(),
{
    if window.len() > 0 {
        lemma_counts_cover(window.drop_last(), a, b);
    }
}

/// A window has one median only.
pub proof fn lemma_lower_median_unique(window: Seq<u64>, a: u64, b: u64)
    requires
        is_lower_median(window, a),
        is_lower_median(window, b),
    ensures
        a == b,
{
    if a < b {
        lemma_counts_cover(window, a, b);
    } else if b < a {
        lemma_counts_cover(window, b, a);
    }
}

/// The median of a window is one of the samples consumed.
pub proof fn lemma_median_is_a_sample(size: nat, samples: Seq<u64>, value: u64)
    requires
        is_lower_median(window_of(size, samples), value),
    ensures
        samples.contains(value),
{
    let window = window_of(size, samples);
    let i = choose|i: int| 0 <= i < window.len() && window[i] == value;
    if samples.len() <= size {
        assert(samples[i] == value);
    } else {
        assert(samples[samples.len() - size + i] == value);
    }
}

/// No sample of a window of equal samples is below or above their value.
proof fn lemma_counts_of_constant(window: Seq<u64>, value: u64)
    requires
        forall|i: int| 0 <= i < window.len() ==> window[i] == value,
    ensures
        count_below(window, value) == 0,
        count_above(window, value) == 0,
    decreases window.len(),
{
    if window.len() > 0 {
        lemma_counts_of_constant(window.drop_last(), value);
    }
}

/// A filter that holds equal samples answers with their value.
pub proof fn lemma_median_of_constant(size: nat, samples: Seq<u64>, value: u64)
    requires
        size > 0,
        samples.len() > 0,
        forall|i: int| 0 <= i < samples.len() ==> samples[i] == value,
    ensures
        median_of(size, samples) == value,
{
    let window = window_of(size, samples);
    lemma_counts_of_constant(window, value);
    assert(window[0] == value);
    assert(is_lower_median(window, value));
    lemma_lower_median_unique(window, value, lower_median(window));
}

/// A window that takes a sample keeps what it would have kept of everything
/// it has ever been given.
pub proof fn lemma_window_push(size: nat, samples: Seq<u64>, value: u64)
    requires
        size > 0,
    ensures
        window_of(size, window_of(size, samples).push(value)) == window_of(
            size,
            samples.push(value),
        ),
{
    assert(window_of(size, window_of(size, samples).push(value)) =~= window_of(
        size,
        samples.push(value),
    ));
}

/// `median::Filter::new`: the filter starts with the given window size and
/// with an empty window.
#[verifier::external_body]
fn filter_new(size: usize) -> (filter: median::Filter<u64>)
    requires
        size <= MAX_WINDOW,
    ensures
        contents(filter) == Seq::<u64>::empty(),
        window_size(filter) == size,
{
    median::Filter::new(size)
}

/// `median::Filter::consume`: the filter takes the sample into its window,
/// where it replaces the oldest one once the window is full, and answers with
/// the median of the samples that the window then holds.
#[verifier::external_body]
fn filter_consume(filter: &mut median::Filter<u64>, value: u64) -> (answer: u64)
    requires
        window_size(*old(filter)) > 0,
    ensures
        contents(*final(filter)) == window_of(
            window_size(*old(filter)),
            contents(*old(filter)).push(value),
        ),
        window_size(*final(filter)) == window_size(*old(filter)),
        is_lower_median(contents(*final(filter)), answer),
{
    filter.consume(value)
}

/// A rolling median filter over unsigned samples, with the record of every
/// sample that it was given.
pub struct MedianFilter {
    filter: median::Filter<u64>,
    size: usize,
    history: Ghost<Seq<u64>>,
}

impl MedianFilter {
    /// The filter's window is the one it was created with, holds at least one
    /// sample, and keeps the last of the samples on record.
    pub closed spec fn wf(&self) -> bool {
        &&& self.size > 0
        &&& window_size(self.filter) == self.size
        &&& contents(self.filter) == window_of(self.size as nat, self.history@)
    }

    /// The window size.
    pub closed spec fn size(&self) -> nat {
        self.size as nat
    }

    /// Every sample consumed so far, oldest first.
    pub closed spec fn samples(&self) -> Seq<u64> {
        self.history@
    }

    /// Creates a filter with a window of `size` samples.
    pub fn new(size: usize) -> (r: MedianFilter)
        requires
            0 < size <= MAX_WINDOW,
        ensures
            r.wf(),
            r.size() == size,
            r.samples() == Seq::<u64>::empty(),
    {
        MedianFilter { filter: filter_new(size), size, history: Ghost(Seq::empty()) }
    }

    /// Takes `value` into the window and returns the median of the window.
    pub fn consume(&mut self, value: u64) -> (answer: u64)
        requires
            old(self).wf(),
        ensures
            final(self).wf(),
            final(self).size() == old(self).size(),
            final(self).samples() == old(self).samples().push(value),
            is_lower_median(window_of(final(self).size(), final(self).samples()), answer),
            answer == median_of(final(self).size(), final(self).samples()),
            final(self).samples().contains(answer),
    {
        let answer = filter_consume(&mut self.filter, value);
        proof {
            lemma_window_push(self.size as nat, self.history@, value);
        }
        self.history = Ghost(self.history@.push(value));
        proof {
            let window = window_of(self.size(), self.samples());
            lemma_lower_median_unique(window, answer, lower_median(window));
            lemma_median_is_a_sample(self.size(), self.samples(), answer);
        }
        answer
    }
}

} // verus!
