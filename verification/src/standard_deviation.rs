//! A moving root mean square over a window of fixed size.
//!
//! The window keeps the squares of the last samples in a ring and their sum
//! beside it, so that each new sample costs the same whatever the window size.

use vstd::prelude::*;
use crate::histogram::{lemma_prefix_update, prefix, total};

verus! {

/// The largest square of a sample.
pub const MAX_SQUARE: u64 = 0x4000_0000_0000_0000;

/// Whether `root` is the square root of `x`, rounded down.
pub open spec fn is_floor_sqrt(x: nat, root: nat) -> bool {
    root * root <= x < (root + 1) * (root + 1)
}

/// A number has one rounded-down square root only.
pub proof fn lemma_floor_sqrt_unique(x: nat, a: nat, b: nat)
    requires
        is_floor_sqrt(x, a),
        is_floor_sqrt(x, b),
    ensures
        a == b,
{
    assert(a < b ==> (a + 1) * (a + 1) <= b * b) by (nonlinear_arith);
    assert(b < a ==> (b + 1) * (b + 1) <= a * a) by (nonlinear_arith);
}

/// The square root of `x`, rounded down.
pub open spec fn floor_sqrt(x: nat) -> nat {
    choose|root: nat| is_floor_sqrt(x, root)
}

/// Computes the square root of `x`, rounded down.
pub fn integer_sqrt(x: u64) -> (root: u32)
    ensures
        is_floor_sqrt(x as nat, root as nat),
        root == floor_sqrt(x as nat),
{
    let mut low: u64 = 0;
    let mut high: u64 = 0x1_0000_0000;
    while high - low > 1
        invariant
            low < high <= 0x1_0000_0000,
            low * low <= x < high * high,
        decreases high - low,
    {
        let middle: u64 = low + (high - low) / 2;
        assert(middle * middle <= 0xffff_ffff * 0xffff_ffff) by (nonlinear_arith)
            requires
                0 <= middle <= 0xffff_ffff,
        ;
        if middle * middle <= x {
            low = middle;
        } else {
            high = middle;
        }
    }
    proof {
        assert(is_floor_sqrt(x as nat, low as nat));
        lemma_floor_sqrt_unique(x as nat, low as nat, floor_sqrt(x as nat));
    }
    low as u32
}

/// What the window stands for: the squares of the samples it holds, oldest
/// first, and the window size.
pub struct MovingView {
    pub squares: Seq<nat>,
    pub size: nat,
}

impl MovingView {
    /// The window after `value`: its square comes last, and the oldest square
    /// leaves once the window is full.
    pub open spec fn pushed(self, value: int) -> MovingView {
        MovingView {
            squares: if self.squares.len() < self.size {
                self.squares.push((value * value) as nat)
            } else {
                self.squares.skip(1).push((value * value) as nat)
            },
            size: self.size,
        }
    }

    /// The mean of the squares held, rounded down.
    pub open spec fn mean_square(self) -> nat {
        total(self.squares) / self.squares.len()
    }

    /// The root of the mean of the squares held, rounded down.
    pub open spec fn deviation(self) -> nat {
        floor_sqrt(self.mean_square())
    }
}

/// The squares of a ring, oldest first: those from the slot that is written
/// next to the end, then those from the start up to that slot. A ring that is
/// not full yet holds them in order.
pub open spec fn unrolled(slots: Seq<nat>, next: int, size: int) -> Seq<nat> {
    if slots.len() < size {
        slots
    } else {
        slots.subrange(next, slots.len() as int) + slots.subrange(0, next)
    }
}

/// The sum of two runs of squares is the sum of the one followed by the
/// other.
pub proof fn lemma_total_concat(a: Seq<nat>, b: Seq<nat>, k: int)
    requires
        0 <= k <= b.len(),
    ensures
        prefix(a + b, a.len() + k) == total(a) + prefix(b, k),
    decreases k,
{
    if k > 0 {
        lemma_total_concat(a, b, k - 1);
        assert((a + b)[a.len() + k - 1] == b[k - 1]);
    } else {
        lemma_prefix_same(a + b, a, a.len() as int);
    }
}

/// A prefix sum depends on the squares it covers only.
pub proof fn lemma_prefix_same(a: Seq<nat>, b: Seq<nat>, k: int)
    requires
        0 <= k <= a.len(),
        k <= b.len(),
        forall|i: int| 0 <= i < k ==> a[i] == b[i],
    ensures
        prefix(a, k) == prefix(b, k),
    decreases k,
{
    if k > 0 {
        lemma_prefix_same(a, b, k - 1);
    }
}

/// Unrolling a ring does not change the sum of its squares.
pub proof fn lemma_total_unrolled(slots: Seq<nat>, next: int, size: int)
    requires
        0 <= next <= slots.len(),
    ensures
        total(unrolled(slots, next, size)) == total(slots),
        unrolled(slots, next, size).len() == slots.len(),
{
    if slots.len() >= size {
        let head = slots.subrange(0, next);
        let tail = slots.subrange(next, slots.len() as int);
        lemma_total_concat(head, tail, tail.len() as int);
        lemma_total_concat(tail, head, head.len() as int);
        assert(head + tail =~= slots);
    }
}

/// A moving root mean square of the last `size` samples.
pub struct MovingStandardDeviation {
    values: Vec<u64>,
    next_element: usize,
    size: usize,
    quadratic_sum: u128,
}

impl View for MovingStandardDeviation {
    type V = MovingView;

    closed spec fn view(&self) -> MovingView {
        MovingView {
            squares: unrolled(self.slots(), self.next_element as int, self.size as int),
            size: self.size as nat,
        }
    }
}

impl MovingStandardDeviation {
    /// The squares in the ring, slot by slot.
    pub closed spec fn slots(&self) -> Seq<nat> {
        Seq::new(self.values@.len(), |i: int| self.values@[i] as nat)
    }

    /// The invariant of the window: it never holds more than its size, the
    /// samples fill the slots in turn, and the sum kept is the sum of the
    /// squares held.
    pub closed spec fn wf(&self) -> bool {
        &&& self.size > 0
        &&& self.values@.len() <= self.size
        &&& self.next_element < self.size
        &&& self.values@.len() < self.size ==> self.next_element == self.values@.len()
        &&& forall|i: int| 0 <= i < self.values@.len() ==> self.values@[i] <= MAX_SQUARE
        &&& self.quadratic_sum == total(self.slots())
    }

    /// What the invariant gives to callers.
    pub proof fn lemma_wf(&self)
        requires
            self.wf(),
        ensures
            self@.size > 0,
            self@.squares.len() <= self@.size,
    {
        lemma_total_unrolled(self.slots(), self.next_element as int, self.size as int);
    }

    /// Creates an empty window of `size` samples.
    pub fn new(size: usize) -> (r: MovingStandardDeviation)
        requires
            size > 0,
        ensures
            r.wf(),
            r@ == (MovingView { squares: Seq::empty(), size: size as nat }),
    {
        let r = MovingStandardDeviation {
            values: Vec::new(),
            next_element: 0,
            size,
            quadratic_sum: 0,
        };
        proof {
            assert(r.slots() =~= Seq::empty());
            assert(r@.squares =~= Seq::empty());
        }
        r
    }

    /// Takes `value` into the window and returns the root of the mean of the
    /// squares that the window then holds, rounded down.
    pub fn push(&mut self, value: i32) -> (r: u32)
        requires
            old(self).wf(),
        ensures
            final(self).wf(),
            final(self)@ == old(self)@.pushed(value as int),
            final(self)@.squares.len() > 0,
            is_floor_sqrt(final(self)@.mean_square(), r as nat),
            r == final(self)@.deviation(),
    {
        let wide: i64 = value as i64;
        assert(0 <= wide * wide <= MAX_SQUARE) by (nonlinear_arith)
            requires
                -0x8000_0000 <= wide <= 0x7fff_ffff,
        ;
        let square: u64 = (wide * wide) as u64;
        proof {
            lemma_prefix_bound(self.slots(), self.slots().len() as int);
            assert(self.slots().len() * MAX_SQUARE <= usize::MAX * MAX_SQUARE)
                by (nonlinear_arith)
                requires
                    self.slots().len() <= usize::MAX,
            ;
        }
        if self.values.len() < self.size {
            proof {
                lemma_prefix_push(self.slots(), square as nat, self.slots().len() as int);
            }
            self.values.push(square);
            self.quadratic_sum += square as u128;
        } else {
            proof {
                lemma_prefix_update(
                    self.slots(),
                    self.next_element as int,
                    square as nat,
                    self.slots().len() as int,
                );
                crate::histogram::lemma_prefix_monotonic(
                    self.slots(),
                    self.next_element as int + 1,
                    self.slots().len() as int,
                );
                crate::histogram::lemma_prefix_monotonic(
                    self.slots(),
                    0,
                    self.next_element as int,
                );
            }
            self.quadratic_sum -= self.values[self.next_element] as u128;
            self.values.set(self.next_element, square);
            self.quadratic_sum += square as u128;
        }
        self.next_element = (self.next_element + 1) % self.size;
        proof {
            assert(square == value * value) by (nonlinear_arith)
                requires
                    square == wide * wide,
                    wide == value,
            ;
            let before = old(self).slots();
            let place = old(self).next_element as int;
            if before.len() < self.size {
                assert(self.slots() =~= before.push(square as nat));
            } else {
                assert(self.slots() =~= before.update(place, square as nat));
            }
            if old(self).next_element + 1 < self.size {
                vstd::arithmetic::div_mod::lemma_small_mod(
                    (old(self).next_element + 1) as nat,
                    self.size as nat,
                );
            } else {
                vstd::arithmetic::div_mod::lemma_mod_self_0(self.size as int);
            }
            assert(self@.squares =~= old(self)@.pushed(value as int).squares);
            lemma_total_unrolled(self.slots(), self.next_element as int, self.size as int);
            lemma_prefix_bound(self.slots(), self.slots().len() as int);
        }
        let held: u128 = self.values.len() as u128;
        let mean: u128 = self.quadratic_sum / held;
        assert(mean <= MAX_SQUARE) by (nonlinear_arith)
            requires
                mean == self.quadratic_sum / held,
                held > 0,
                self.quadratic_sum <= held * MAX_SQUARE,
        ;
        integer_sqrt(mean as u64)
    }
}

/// The squares held never sum to more than as many largest squares.
proof fn lemma_prefix_bound(squares: Seq<nat>, k: int)
    requires
        0 <= k <= squares.len(),
        forall|i: int| 0 <= i < squares.len() ==> squares[i] <= MAX_SQUARE,
    ensures
        prefix(squares, k) <= k * MAX_SQUARE,
    decreases k,
{
    if k > 0 {
        lemma_prefix_bound(squares, k - 1);
    }
}

/// A square appended to the window adds itself to the sum.
proof fn lemma_prefix_push(squares: Seq<nat>, square: nat, k: int)
    requires
        0 <= k <= squares.len(),
    ensures
        prefix(squares.push(square), k) == prefix(squares, k),
        k == squares.len() ==> total(squares.push(square)) == total(squares) + square,
    decreases k,
{
    if k > 0 {
        lemma_prefix_push(squares, square, k - 1);
    }
}

} // verus!
