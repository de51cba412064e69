//! Laws of the directed channel protocol.
//!
//! The channel operations are modelled by the spec functions of
//! [`crate::directed`]: [`created_channel`] for creation,
//! [`written_channel`] for a store through the writable pointer,
//! [`flushed_channel`] for a flush, and [`destroyed_values`] for teardown.
//! The proof functions here state what any sequence of these operations
//! leaves behind: teardown returns creation's values unchanged, a flush is
//! idempotent, a run of write-flush rounds publishes the last written value,
//! and a reader sampling the read-only slot between the steps of the
//! write-flush protocol sees written values in non-decreasing order.

use vstd::prelude::*;

use crate::directed::DirectedChannel;
use crate::directed::created_channel;
use crate::directed::destroyed_values;
use crate::directed::flushed_channel;
use crate::directed::written_channel;

verus! {

/// Law: creating a channel from `read_only` and `writable` and immediately
/// tearing it down with correctly matched pointers returns exactly
/// `(read_only, writable)`, unchanged.
pub proof fn lemma_create_then_destroy_returns_initial<Data>(read_only: Data, writable: Data)
    ensures
        destroyed_values(created_channel(read_only, writable)) == (read_only, writable),
{
}

/// Law: a flush is idempotent. A second flush with no intervening write
/// leaves the channel exactly as the first flush left it.
pub proof fn lemma_flush_idempotent<Data>(channel: DirectedChannel<Data>)
    ensures
        flushed_channel(flushed_channel(channel)) == flushed_channel(channel),
{
}

/// One write-flush round: the writer stores `value`, then the flush
/// publishes it.
pub open spec fn round<Data>(channel: DirectedChannel<Data>, value: Data) -> DirectedChannel<Data> {
    flushed_channel(written_channel(channel, value))
}

/// The channel after one write-flush round for each value of `values`, in
/// order, starting from `channel`.
pub open spec fn rounds<Data>(channel: DirectedChannel<Data>, values: Seq<Data>) -> DirectedChannel<Data>
    decreases values.len(),
{
    if values.len() == 0 {
        channel
    } else {
        rounds(round(channel, values[0]), values.subrange(1, values.len() as int))
    }
}

/// Law: after a run of write-flush rounds, both slots hold the last written
/// value — the flush never clears the writable slot.
pub proof fn lemma_rounds_end_with_last_value<Data>(channel: DirectedChannel<Data>, values: Seq<Data>)
    requires
        values.len() > 0,
    ensures
        rounds(channel, values).read_only == values.last(),
        rounds(channel, values).writable == values.last(),
    decreases values.len(),
{
    let rest = values.subrange(1, values.len() as int);
    assert(rounds(channel, values) == rounds(round(channel, values[0]), rest));
    if values.len() == 1 {
        assert(rest =~= Seq::<Data>::empty());
    } else {
        lemma_rounds_end_with_last_value(round(channel, values[0]), rest);
        assert(rest.last() == values.last());
    }
}

/// The values `1, 2, ..., n`, in order.
pub open spec fn counting_up(n: int) -> Seq<int> {
    Seq::new(n as nat, |i: int| i + 1)
}

/// Law: writing `x` then flushing, repeated for `x = 1..=n`, leaves
/// `read_only == n` and `writable == n`.
pub proof fn lemma_sequential_protocol(channel: DirectedChannel<int>, n: int)
    requires
        n >= 1,
    ensures
        rounds(channel, counting_up(n)).read_only == n,
        rounds(channel, counting_up(n)).writable == n,
{
    lemma_rounds_end_with_last_value(channel, counting_up(n));
    assert(counting_up(n).last() == n);
}

/// One atomic step of the two-thread protocol in which the writer stores
/// `0, 1, 2, ...` and a flush follows each store: step `2 * i` is the store
/// of `i`, step `2 * i + 1` is the flush after it.
pub open spec fn protocol_step(channel: DirectedChannel<int>, j: int) -> DirectedChannel<int> {
    if j % 2 == 0 {
        written_channel(channel, j / 2)
    } else {
        flushed_channel(channel)
    }
}

/// The channel after the first `n` atomic steps of the write-flush
/// protocol, starting from `channel`.
pub open spec fn protocol_state(channel: DirectedChannel<int>, n: nat) -> DirectedChannel<int>
    decreases n,
{
    if n == 0 {
        channel
    } else {
        protocol_step(protocol_state(channel, (n - 1) as nat), n - 1)
    }
}

/// After at least one store, the writable slot holds the last stored value.
pub proof fn lemma_protocol_writable_value(channel: DirectedChannel<int>, n: nat)
    requires
        n >= 1,
    ensures
        protocol_state(channel, n).writable == (n - 1) / 2,
    decreases n,
{
    if n >= 2 {
        lemma_protocol_writable_value(channel, (n - 1) as nat);
    }
}

/// After at least one flush, the read-only slot holds the last value
/// published: the value stored by the latest store a flush followed.
pub proof fn lemma_protocol_read_only_value(channel: DirectedChannel<int>, n: nat)
    requires
        n >= 2,
    ensures
        protocol_state(channel, n).read_only == (n - 2) / 2,
    decreases n,
{
    if (n - 1) % 2 == 0 {
        lemma_protocol_read_only_value(channel, (n - 1) as nat);
    } else {
        lemma_protocol_writable_value(channel, (n - 1) as nat);
    }
}

/// Law: a reader sampling the read-only slot at any two instants of the
/// write-flush protocol, both after the first flush, observes values the
/// writer wrote, in non-decreasing order. Before the first flush the reader
/// observes the channel's initial read-only value. With writes `0..=k`,
/// instant `m` means `m` atomic steps are complete, so `m = 2 * k + 2` is
/// the end of the protocol.
pub proof fn lemma_published_values_monotone(channel: DirectedChannel<int>, k: nat, m: nat, n: nat)
    requires
        2 <= m <= n <= 2 * k + 2,
    ensures
        protocol_state(channel, m).read_only <= protocol_state(channel, n).read_only,
        0 <= protocol_state(channel, m).read_only <= k,
{
    lemma_protocol_read_only_value(channel, m);
    lemma_protocol_read_only_value(channel, n);
}

} // verus!
