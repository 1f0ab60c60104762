//! Ring buffers of recent sensor samples.
//!
//! Both sensor readers keep a short window of samples in a
//! `heapless::Deque<i32, 10>`: a fixed-capacity double-ended queue that never
//! allocates. The deque itself comes from the `heapless` crate; this module
//! declares it to the verifier, names what it holds, and wraps the handful of
//! methods the readers call. Everything the contracts say is taken from the
//! deque's source: elements sit in first-in order, `push_back` appends at the
//! back and hands the item back when the deque already holds its capacity
//! (the const parameter, here 10), and `pop_front` removes the oldest.

use vstd::prelude::*;

verus! {

#[verifier::external_type_specification]
#[verifier::external_body]
#[verifier::reject_recursive_types(T)]
pub struct ExDeque<T, const N: usize>(heapless::Deque<T, N>);

/// The samples a ring buffer holds, oldest first.
pub uninterp spec fn ring(d: heapless::Deque<i32, 10>) -> Seq<i32>;

/// Relies on heapless::Deque::new: an empty deque.
#[verifier::external_body]
pub fn ring_new() -> (r: heapless::Deque<i32, 10>)
    ensures
        ring(r) == Seq::<i32>::empty(),
{
    heapless::Deque::new()
}

/// Relies on heapless::Deque::len: how many elements the deque holds.
#[verifier::external_body]
pub fn ring_len(d: &heapless::Deque<i32, 10>) -> (r: usize)
    ensures
        r == ring(*d).len(),
{
    d.len()
}

/// Relies on heapless::Deque::push_back: appends at the back when there is
/// room, and hands the item back untouched when the deque already holds 10.
#[verifier::external_body]
pub fn ring_push_back(d: &mut heapless::Deque<i32, 10>, v: i32) -> (r: Result<(), i32>)
    ensures
        ring(*old(d)).len() < 10 ==> r is Ok && ring(*final(d)) == ring(*old(d)).push(v),
        ring(*old(d)).len() >= 10 ==> r is Err && r->Err_0 == v && ring(*final(d)) == ring(*old(d)),
{
    d.push_back(v)
}

/// Relies on heapless::Deque::pop_front: removes and returns the oldest
/// element, or nothing when the deque is empty.
#[verifier::external_body]
pub fn ring_pop_front(d: &mut heapless::Deque<i32, 10>) -> (r: Option<i32>)
    ensures
        ring(*old(d)).len() == 0 ==> r is None && ring(*final(d)) == ring(*old(d)),
        ring(*old(d)).len() > 0 ==> r == Some(ring(*old(d))[0])
            && ring(*final(d)) == ring(*old(d)).drop_first(),
{
    d.pop_front()
}

/// Relies on heapless::Deque::back: the newest element, left in place.
#[verifier::external_body]
pub fn ring_back(d: &heapless::Deque<i32, 10>) -> (r: Option<i32>)
    ensures
        ring(*d).len() == 0 ==> r is None,
        ring(*d).len() > 0 ==> r == Some(ring(*d).last()),
{
    d.back().copied()
}

/// Relies on heapless::Deque::iter: yields the elements front to back.
#[verifier::external_body]
pub fn ring_to_vec(d: &heapless::Deque<i32, 10>) -> (r: Vec<i32>)
    ensures
        r@ == ring(*d),
{
    d.iter().copied().collect()
}

/// How a window of 10 samples grows: a new sample goes to the back, and once
/// the window is full the oldest sample makes room for it.
pub open spec fn push_evict(s: Seq<i32>, v: i32) -> Seq<i32> {
    if s.len() < 10 {
        s.push(v)
    } else {
        s.drop_first().push(v)
    }
}

/// The sum of a window of samples.
pub open spec fn sum_of(s: Seq<i32>) -> int
    decreases s.len(),
{
    if s.len() == 0 {
        0
    } else {
        sum_of(s.drop_last()) + s.last()
    }
}

/// The arithmetic mean of a window, truncated toward zero as the executable
/// division is.
pub open spec fn mean_of(s: Seq<i32>) -> int
    recommends
        s.len() > 0,
{
    if sum_of(s) >= 0 {
        sum_of(s) / s.len() as int
    } else {
        -((-sum_of(s)) / s.len() as int)
    }
}

/// Samples within a symmetric bound keep the window's sum within the bound
/// scaled by the window's length.
pub proof fn lemma_sum_of_bound(s: Seq<i32>, limit: int)
    requires
        0 <= limit,
        forall|i: int| 0 <= i < s.len() ==> -limit <= #[trigger] s[i] <= limit,
    ensures
        -(s.len() * limit) <= sum_of(s) <= s.len() * limit,
    decreases s.len(),
{
    if s.len() > 0 {
        lemma_sum_of_bound(s.drop_last(), limit);
        assert((s.len() - 1) * limit + limit == s.len() * limit) by (nonlinear_arith);
    }
}

/// The mean of samples within a symmetric bound stays within that bound.
pub proof fn lemma_mean_of_bound(s: Seq<i32>, limit: int)
    requires
        0 <= limit,
        s.len() > 0,
        forall|i: int| 0 <= i < s.len() ==> -limit <= #[trigger] s[i] <= limit,
    ensures
        -limit <= mean_of(s) <= limit,
{
    lemma_sum_of_bound(s, limit);
    let n = s.len() as int;
    if sum_of(s) >= 0 {
        vstd::arithmetic::div_mod::lemma_div_pos_is_pos(sum_of(s), n);
        vstd::arithmetic::div_mod::lemma_multiply_divide_le(sum_of(s), n, limit);
    } else {
        vstd::arithmetic::div_mod::lemma_div_pos_is_pos(-sum_of(s), n);
        vstd::arithmetic::div_mod::lemma_multiply_divide_le(-sum_of(s), n, limit);
    }
}

/// Largest magnitude a stored sample may have, across both sensor readers.
/// The temperature reader stores centidegrees bounded by the probe's
/// conversion range; the current reader stores microvolts bounded by the ADC
/// full scale. Both fit comfortably under this limit.
pub const RING_VALUE_LIMIT: i32 = 4_000_000;

/// The mean of the samples a ring buffer holds, truncated toward zero.
pub fn ring_mean(d: &heapless::Deque<i32, 10>) -> (r: i32)
    requires
        0 < ring(*d).len() <= 10,
        forall|i: int| 0 <= i < ring(*d).len()
            ==> -RING_VALUE_LIMIT <= #[trigger] ring(*d)[i] <= RING_VALUE_LIMIT,
    ensures
        r == mean_of(ring(*d)),
        -RING_VALUE_LIMIT <= r <= RING_VALUE_LIMIT,
{
    let values = ring_to_vec(d);
    let ghost s = ring(*d);
    proof {
        lemma_sum_of_bound(s, RING_VALUE_LIMIT as int);
        lemma_mean_of_bound(s, RING_VALUE_LIMIT as int);
    }
    let mut sum: i32 = 0;
    let mut i: usize = 0;
    while i < values.len()
        invariant
            0 <= i <= values.len(),
            values@ == s,
            s.len() <= 10,
            forall|j: int| 0 <= j < s.len()
                ==> -RING_VALUE_LIMIT <= #[trigger] s[j] <= RING_VALUE_LIMIT,
            sum == sum_of(s.take(i as int)),
            -(i * RING_VALUE_LIMIT) <= sum <= i * RING_VALUE_LIMIT,
        decreases values.len() - i,
    {
        proof {
            assert(s.take(i + 1).drop_last() =~= s.take(i as int));
            lemma_sum_of_bound(s.take(i + 1), RING_VALUE_LIMIT as int);
        }
        sum = sum + values[i];
        i = i + 1;
    }
    proof {
        assert(s.take(s.len() as int) =~= s);
    }
    let len = values.len() as i32;
    if sum >= 0 {
        sum / len
    } else {
        -((-sum) / len)
    }
}

} // verus!

