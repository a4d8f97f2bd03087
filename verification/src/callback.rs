//! Iteration over a caller-supplied array with a caller-supplied callback:
//! one operation reports each element doubled, the other reports the running
//! sum. The callback is injected as a trait the caller implements; its call
//! log lets the contracts pin down exactly which values are reported and in
//! what order.
use vstd::prelude::*;

verus! {

use vstd::wrapping::i32_specs;

/// A callback the caller hands in: the library invokes it once per processed
/// element, synchronously and in order. `calls` is the history of values it
/// has received, oldest first; each invocation appends exactly one value.
pub trait Callback {
    spec fn calls(&self) -> Seq<i32>;

    fn call(&mut self, value: i32)
        ensures
            final(self).calls() == old(self).calls().push(value),
    ;
}

/// A callback that stores every value it receives, in order.
pub struct Recorder {
    pub received: Vec<i32>,
}

impl Recorder {
    /// A recorder with an empty history.
    pub fn new() -> (r: Recorder)
        ensures
            r.calls() == Seq::<i32>::empty(),
    {
        Recorder { received: Vec::new() }
    }
}

impl Callback for Recorder {
    open spec fn calls(&self) -> Seq<i32> {
        self.received@
    }

    fn call(&mut self, value: i32) {
        self.received.push(value);
    }
}

/// A callback that does nothing with the values it receives; its history is
/// ghost only. The iteration operations tolerate such a no-op callback.
pub struct SilentCallback {
    pub history: Ghost<Seq<i32>>,
}

impl SilentCallback {
    /// A silent callback with an empty history.
    pub fn new() -> (r: SilentCallback)
        ensures
            r.calls() == Seq::<i32>::empty(),
    {
        SilentCallback { history: Ghost(Seq::empty()) }
    }
}

impl Callback for SilentCallback {
    open spec fn calls(&self) -> Seq<i32> {
        self.history@
    }

    fn call(&mut self, value: i32) {
        let ghost updated = self.history@.push(value);
        self.history = Ghost(updated);
    }
}

/// The descriptor the caller hands to the iteration operations: a borrowed
/// array (absent stands for a null pointer), a signed element count, and the
/// callback to invoke per element.
pub struct DataWithCallback<C> {
    pub data: Option<Vec<i32>>,
    pub length: i32,
    pub callback: C,
}

/// Each element doubled, with 32-bit wraparound, in order.
pub open spec fn doubled(s: Seq<i32>) -> Seq<i32>
    decreases s.len(),
{
    if s.len() == 0 {
        Seq::empty()
    } else {
        doubled(s.drop_last()).push(i32_specs::wrapping_mul(s.last(), 2))
    }
}

/// The sum of a sequence of 32-bit integers, with 32-bit wraparound.
pub open spec fn wrapped_sum(s: Seq<i32>) -> i32
    decreases s.len(),
{
    if s.len() == 0 {
        0
    } else {
        i32_specs::wrapping_add(wrapped_sum(s.drop_last()), s.last())
    }
}

/// The running sums of a sequence: the i-th entry is the wrapped sum of the
/// first i+1 elements.
pub open spec fn running_sums(s: Seq<i32>) -> Seq<i32>
    decreases s.len(),
{
    if s.len() == 0 {
        Seq::empty()
    } else {
        running_sums(s.drop_last()).push(wrapped_sum(s))
    }
}

/// A descriptor is accepted for processing when an array is present and the
/// count is positive; anything else is rejected with a sentinel.
pub open spec fn descriptor_accepted<C>(d: DataWithCallback<C>) -> bool {
    d.data is Some && d.length > 0
}

/// The prefix of the supplied array that the count selects.
pub open spec fn selected<C>(d: DataWithCallback<C>) -> Seq<i32>
    recommends
        descriptor_accepted(d),
{
    d.data->0@.take(d.length as int)
}

/// Doubles each element of the descriptor's array in index order, first to
/// last, and invokes the callback exactly once per element with the doubled
/// value; the call for one element completes before the next element is
/// processed. Returns the count of elements processed. An absent array or a
/// non-positive count is rejected up front: the result is -1 and the callback
/// is never invoked.
pub fn process_data_with_callback<C: Callback>(d: &mut DataWithCallback<C>) -> (r: i32)
    requires
        descriptor_accepted(*old(d)) ==> old(d).length as int <= old(d).data->0.len(),
    ensures
        final(d).data == old(d).data,
        final(d).length == old(d).length,
        !descriptor_accepted(*old(d)) ==> r == -1
            && final(d).callback.calls() == old(d).callback.calls(),
        descriptor_accepted(*old(d)) ==> r == old(d).length
            && final(d).callback.calls() == old(d).callback.calls() + doubled(selected(*old(d))),
{
    if d.data.is_none() || d.length <= 0 {
        return -1;
    }
    let n = d.length as usize;
    let mut i: usize = 0;
    while i < n
        invariant
            d.data == old(d).data,
            d.length == old(d).length,
            descriptor_accepted(*d),
            n == d.length as int,
            i <= n,
            n <= d.data->0.len(),
            d.callback.calls() == old(d).callback.calls() + doubled(d.data->0@.take(i as int)),
        decreases n - i,
    {
        let value = d.data.as_ref().unwrap()[i];
        let processed_value = value.wrapping_mul(2);
        d.callback.call(processed_value);
        proof {
            let s = d.data->0@;
            assert(s.take(i + 1).drop_last() =~= s.take(i as int));
            assert(s.take(i + 1).last() == s[i as int]);
            assert(doubled(s.take(i + 1)) == doubled(s.take(i as int)).push(
                i32_specs::wrapping_mul(s[i as int], 2),
            ));
        }
        i = i + 1;
    }
    proof {
        assert(d.data->0@.take(n as int) == selected(*old(d)));
    }
    d.length
}

/// Sums the descriptor's array in index order with 32-bit wraparound, and
/// after adding each element invokes the callback exactly once with the
/// current cumulative sum, not the per-element value. Returns the final sum.
/// An absent array or a non-positive count is rejected up front: the result
/// is 0 — a different sentinel than `process_data_with_callback` uses — and
/// the callback is never invoked.
pub fn sum_with_callback<C: Callback>(d: &mut DataWithCallback<C>) -> (r: i32)
    requires
        descriptor_accepted(*old(d)) ==> old(d).length as int <= old(d).data->0.len(),
    ensures
        final(d).data == old(d).data,
        final(d).length == old(d).length,
        !descriptor_accepted(*old(d)) ==> r == 0
            && final(d).callback.calls() == old(d).callback.calls(),
        descriptor_accepted(*old(d)) ==> r == wrapped_sum(selected(*old(d)))
            && final(d).callback.calls() == old(d).callback.calls() + running_sums(
            selected(*old(d)),
        ),
{
    if d.data.is_none() || d.length <= 0 {
        return 0;
    }
    let n = d.length as usize;
    let mut running_sum: i32 = 0;
    let mut i: usize = 0;
    while i < n
        invariant
            d.data == old(d).data,
            d.length == old(d).length,
            descriptor_accepted(*d),
            n == d.length as int,
            i <= n,
            n <= d.data->0.len(),
            running_sum == wrapped_sum(d.data->0@.take(i as int)),
            d.callback.calls() == old(d).callback.calls() + running_sums(
                d.data->0@.take(i as int),
            ),
        decreases n - i,
    {
        let value = d.data.as_ref().unwrap()[i];
        running_sum = running_sum.wrapping_add(value);
        d.callback.call(running_sum);
        proof {
            let s = d.data->0@;
            assert(s.take(i + 1).drop_last() =~= s.take(i as int));
            assert(s.take(i + 1).last() == s[i as int]);
            assert(wrapped_sum(s.take(i + 1)) == i32_specs::wrapping_add(
                wrapped_sum(s.take(i as int)),
                s[i as int],
            ));
            assert(running_sums(s.take(i + 1)) == running_sums(s.take(i as int)).push(
                wrapped_sum(s.take(i + 1)),
            ));
        }
        i = i + 1;
    }
    proof {
        assert(d.data->0@.take(n as int) == selected(*old(d)));
    }
    running_sum
}

} // verus!
