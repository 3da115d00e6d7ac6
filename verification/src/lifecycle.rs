//! What holds of an item over its whole stay in the pool, and of the pool
//! over any run of ticks. Everything here is proved from the definitions in
//! [`crate::pool`].

use crate::db::{ResolveError, WebhookConfig};
use crate::pool::{
    after_dispatch, delayed_group_due, delayed_requests, dispatched, group_deliveries,
    instant_requests, item_report, pending, processed, processed_item, reported, retired,
    DeliveryView, Group, PoolItemView,
};
use crate::time::{Timestamp, NANOS_PER_SECOND};
use vstd::prelude::*;

verus! {

/// One tick as a single item meets it: what the configuration store
/// answered for the item, and the time at which the item was processed.
pub struct Round {
    pub resolved: Result<WebhookConfig, ResolveError>,
    pub now: Timestamp,
}

/// The item after it has gone through `rounds`, first to last.
pub open spec fn after_rounds(item: PoolItemView, rounds: Seq<Round>) -> PoolItemView
    decreases rounds.len(),
{
    if rounds.len() == 0 {
        item
    } else {
        processed_item(
            after_rounds(item, rounds.drop_last()),
            rounds.last().resolved,
            rounds.last().now,
        )
    }
}

/// The deliveries issued for the item in round `k` of `rounds`: none where
/// the lookup of that round failed.
pub open spec fn issued_in_round(item: PoolItemView, rounds: Seq<Round>, k: int) -> Seq<DeliveryView> {
    match item_report(after_rounds(item, rounds.take(k)), rounds[k].resolved, rounds[k].now) {
        Ok(requests) => requests,
        Err(_) => Seq::empty(),
    }
}

/// Whether `requests` holds no delivery of `group`.
pub open spec fn none_of_group(requests: Seq<DeliveryView>, group: Group) -> bool {
    forall|i: int| 0 <= i < requests.len() ==> (#[trigger] requests[i]).group != group
}

/// Whether the instant latch goes from unset to set in round `k`.
pub open spec fn instant_latched_in(item: PoolItemView, rounds: Seq<Round>, k: int) -> bool {
    &&& !after_rounds(item, rounds.take(k)).instant_sent
    &&& after_rounds(item, rounds.take(k + 1)).instant_sent
}

/// Whether the delayed latch goes from unset to set in round `k`.
pub open spec fn delay_latched_in(item: PoolItemView, rounds: Seq<Round>, k: int) -> bool {
    &&& !after_rounds(item, rounds.take(k)).delay_sent
    &&& after_rounds(item, rounds.take(k + 1)).delay_sent
}

/// Whether round `k` finds the item's configuration and finds its delay
/// passed.
pub open spec fn ripe_in(item: PoolItemView, rounds: Seq<Round>, k: int) -> bool {
    match rounds[k].resolved {
        Ok(config) => delayed_group_due(item, config, rounds[k].now),
        Err(_) => false,
    }
}

/// Processing touches neither the id, nor the time of submission, nor the
/// payload of an item, and never unsets a latch.
pub proof fn lemma_round_keeps_item(
    item: PoolItemView,
    resolved: Result<WebhookConfig, ResolveError>,
    now: Timestamp,
)
    ensures
        processed_item(item, resolved, now).id == item.id,
        processed_item(item, resolved, now).received_at == item.received_at,
        processed_item(item, resolved, now).data == item.data,
        item.instant_sent ==> processed_item(item, resolved, now).instant_sent,
        item.delay_sent ==> processed_item(item, resolved, now).delay_sent,
{
}

/// Round `k` of `rounds` takes the item from its state after `k` rounds to
/// its state after `k + 1`.
pub proof fn lemma_round_unfolds(item: PoolItemView, rounds: Seq<Round>, k: int)
    requires
        0 <= k < rounds.len(),
    ensures
        after_rounds(item, rounds.take(k + 1)) == processed_item(
            after_rounds(item, rounds.take(k)),
            rounds[k].resolved,
            rounds[k].now,
        ),
{
    assert(rounds.take(k + 1).drop_last() == rounds.take(k));
}

/// Over any number of rounds an item keeps its id, its time of submission
/// and its payload.
pub proof fn lemma_rounds_keep_item(item: PoolItemView, rounds: Seq<Round>)
    ensures
        after_rounds(item, rounds).id == item.id,
        after_rounds(item, rounds).received_at == item.received_at,
        after_rounds(item, rounds).data == item.data,
    decreases rounds.len(),
{
    if rounds.len() > 0 {
        lemma_rounds_keep_item(item, rounds.drop_last());
    }
}

/// A latch that is set after `j` rounds is set after any `k >= j` rounds:
/// no later round resets it, however its lookup goes.
pub proof fn lemma_latches_stay_set(item: PoolItemView, rounds: Seq<Round>, j: int, k: int)
    requires
        0 <= j <= k <= rounds.len(),
    ensures
        after_rounds(item, rounds.take(j)).instant_sent ==> after_rounds(
            item,
            rounds.take(k),
        ).instant_sent,
        after_rounds(item, rounds.take(j)).delay_sent ==> after_rounds(
            item,
            rounds.take(k),
        ).delay_sent,
    decreases k - j,
{
    if j < k {
        lemma_latches_stay_set(item, rounds, j, k - 1);
        lemma_round_unfolds(item, rounds, k - 1);
    }
}

/// The instant latch is set in at most one round of an item's stay, and the
/// same holds of the delayed latch, however many rounds there are and
/// however many of them fail at the lookup.
pub proof fn lemma_latched_at_most_once(item: PoolItemView, rounds: Seq<Round>, j: int, k: int)
    requires
        0 <= j < rounds.len(),
        0 <= k < rounds.len(),
        j != k,
    ensures
        !(instant_latched_in(item, rounds, j) && instant_latched_in(item, rounds, k)),
        !(delay_latched_in(item, rounds, j) && delay_latched_in(item, rounds, k)),
{
    if j < k {
        lemma_latches_stay_set(item, rounds, j + 1, k);
    } else {
        lemma_latches_stay_set(item, rounds, k + 1, j);
    }
}

/// The instant latch is set by the first round whose lookup succeeds: after
/// `k` rounds it is set exactly if it was set at the start or one of those
/// rounds found the configuration.
pub proof fn lemma_instant_latch_follows_lookup(item: PoolItemView, rounds: Seq<Round>, k: int)
    requires
        0 <= k <= rounds.len(),
    ensures
        after_rounds(item, rounds.take(k)).instant_sent <==> (item.instant_sent || exists|j: int|
            0 <= j < k && (#[trigger] rounds[j]).resolved is Ok),
    decreases k,
{
    if k > 0 {
        lemma_instant_latch_follows_lookup(item, rounds, k - 1);
        lemma_round_unfolds(item, rounds, k - 1);
    }
}

/// An item whose latch is set is issued nothing more for that group: not
/// for the instant group once the instant latch is set, not for the delayed
/// group once the delayed latch is set, whatever the configuration and the
/// time.
pub proof fn lemma_set_latch_issues_nothing(item: PoolItemView, config: WebhookConfig, now: Timestamp)
    ensures
        item.instant_sent ==> instant_requests(item, config) == Seq::<DeliveryView>::empty(),
        item.instant_sent ==> none_of_group(dispatched(item, config, now), Group::Instant),
        item.delay_sent ==> delayed_requests(item, config, now) == Seq::<DeliveryView>::empty(),
        item.delay_sent ==> none_of_group(dispatched(item, config, now), Group::Delayed),
        item.instant_sent && item.delay_sent ==> dispatched(item, config, now) == Seq::<
            DeliveryView,
        >::empty(),
{
}

/// Processing an item a second time issues nothing for a group that the
/// first time issued: nothing for the instant group, and nothing for the
/// delayed group if it was due the first time.
pub proof fn lemma_reprocessing_issues_nothing(
    item: PoolItemView,
    first: WebhookConfig,
    at: Timestamp,
    second: WebhookConfig,
    later: Timestamp,
)
    ensures
        none_of_group(dispatched(after_dispatch(item, first, at), second, later), Group::Instant),
        delayed_group_due(item, first, at) ==> dispatched(
            after_dispatch(item, first, at),
            second,
            later,
        ) == Seq::<DeliveryView>::empty(),
{
    lemma_set_latch_issues_nothing(after_dispatch(item, first, at), second, later);
}

/// A round issues instant deliveries only if it sets the instant latch, and
/// delayed deliveries only if it sets the delayed latch: so each group goes
/// out in at most one round of an item's stay.
pub proof fn lemma_deliveries_only_when_latched(item: PoolItemView, rounds: Seq<Round>, k: int)
    requires
        0 <= k < rounds.len(),
    ensures
        instant_latched_in(item, rounds, k) || none_of_group(
            issued_in_round(item, rounds, k),
            Group::Instant,
        ),
        delay_latched_in(item, rounds, k) || none_of_group(
            issued_in_round(item, rounds, k),
            Group::Delayed,
        ),
{
    lemma_round_unfolds(item, rounds, k);
}

/// No delayed delivery is issued while the delay has not passed: processing
/// an item received at `T` under a delay of `D` seconds at a time
/// `now <= T + D` issues nothing for the delayed group and leaves the
/// delayed latch as it was.
pub proof fn lemma_delayed_group_waits(item: PoolItemView, config: WebhookConfig, now: Timestamp)
    requires
        now@ <= item.received_at@ + config.delay_seconds * NANOS_PER_SECOND,
    ensures
        !delayed_group_due(item, config, now),
        delayed_requests(item, config, now) == Seq::<DeliveryView>::empty(),
        none_of_group(dispatched(item, config, now), Group::Delayed),
        after_dispatch(item, config, now).delay_sent == item.delay_sent,
{
}

/// Once the delay has passed the delayed group goes out: processing an item
/// received at `T` under a delay of `D` seconds at a time `now > T + D`
/// issues one delivery of the payload to every delayed endpoint, in their
/// order, unless the group went out before, and sets the delayed latch.
pub proof fn lemma_delayed_group_fires(item: PoolItemView, config: WebhookConfig, now: Timestamp)
    requires
        now@ > item.received_at@ + config.delay_seconds * NANOS_PER_SECOND,
    ensures
        delayed_group_due(item, config, now),
        !item.delay_sent ==> delayed_requests(item, config, now) == group_deliveries(
            Group::Delayed,
            config.delay_webhooks,
            item.data,
        ),
        after_dispatch(item, config, now).delay_sent,
{
}

/// The delayed group goes out in the first round that finds the
/// configuration and finds the delay passed, and in no round before it: up
/// to that round the delayed latch is unset and no delayed delivery is
/// issued; in that round one delivery of the payload goes to every delayed
/// endpoint of the configuration then found, and the latch is set.
pub proof fn lemma_delayed_group_sent_when_first_due(item: PoolItemView, rounds: Seq<Round>, k: int)
    requires
        !item.delay_sent,
        0 <= k < rounds.len(),
        ripe_in(item, rounds, k),
        forall|j: int| 0 <= j < k ==> !ripe_in(item, rounds, j),
    ensures
        forall|j: int|
            0 <= j <= k ==> !(#[trigger] after_rounds(item, rounds.take(j))).delay_sent,
        forall|j: int|
            0 <= j < k ==> none_of_group(#[trigger] issued_in_round(item, rounds, j), Group::Delayed),
        delay_latched_in(item, rounds, k),
        delayed_requests(
            after_rounds(item, rounds.take(k)),
            rounds[k].resolved->Ok_0,
            rounds[k].now,
        ) == group_deliveries(Group::Delayed, rounds[k].resolved->Ok_0.delay_webhooks, item.data),
{
    lemma_unripe_rounds_leave_delay_unset(item, rounds, k);
    assert forall|j: int| 0 <= j <= k implies !(#[trigger] after_rounds(
        item,
        rounds.take(j),
    )).delay_sent by {
        lemma_unripe_rounds_leave_delay_unset(item, rounds, j);
    }
    assert forall|j: int| 0 <= j < k implies none_of_group(
        #[trigger] issued_in_round(item, rounds, j),
        Group::Delayed,
    ) by {
        lemma_unripe_rounds_leave_delay_unset(item, rounds, j);
        lemma_rounds_keep_item(item, rounds.take(j));
        assert(!ripe_in(item, rounds, j));
    }
    lemma_rounds_keep_item(item, rounds.take(k));
    lemma_round_unfolds(item, rounds, k);
}

/// While no round has found the configuration with the delay passed, the
/// delayed latch of an item that came in unset is unset.
pub proof fn lemma_unripe_rounds_leave_delay_unset(item: PoolItemView, rounds: Seq<Round>, k: int)
    requires
        !item.delay_sent,
        0 <= k <= rounds.len(),
        forall|j: int| 0 <= j < k ==> !ripe_in(item, rounds, j),
    ensures
        !after_rounds(item, rounds.take(k)).delay_sent,
    decreases k,
{
    if k > 0 {
        lemma_unripe_rounds_leave_delay_unset(item, rounds, k - 1);
        lemma_round_unfolds(item, rounds, k - 1);
        lemma_rounds_keep_item(item, rounds.take(k - 1));
        assert(!ripe_in(item, rounds, k - 1));
    }
}

/// One tick as the pool meets it: the payloads drained from the queue, the
/// answers of the configuration store for the items then in flight, and the
/// time of processing.
pub struct Tick {
    pub arrivals: Seq<PoolItemView>,
    pub resolved: Seq<Result<WebhookConfig, ResolveError>>,
    pub now: Timestamp,
}

/// The buffer after one tick: the arrivals join it, every item is
/// processed, and the items that are no longer pending leave.
pub open spec fn after_tick(buffer: Seq<PoolItemView>, tick: Tick) -> Seq<PoolItemView> {
    retired(processed(buffer + tick.arrivals, tick.resolved, tick.now))
}

/// The buffer after `ticks`, first to last.
pub open spec fn after_ticks(buffer: Seq<PoolItemView>, ticks: Seq<Tick>) -> Seq<PoolItemView>
    decreases ticks.len(),
{
    if ticks.len() == 0 {
        buffer
    } else {
        after_tick(after_ticks(buffer, ticks.drop_last()), ticks.last())
    }
}

/// Whether every item of `buffer` is still owed its delayed group.
pub open spec fn all_pending(buffer: Seq<PoolItemView>) -> bool {
    forall|i: int| 0 <= i < buffer.len() ==> pending(#[trigger] buffer[i])
}

/// The retire phase drops exactly the items whose delayed group has been
/// dispatched: what stays is pending, every pending item stays, and an item
/// whose delayed latch is set is gone, whether or not its instant latch is.
pub proof fn lemma_retire_evicts_sent_only(buffer: Seq<PoolItemView>)
    ensures
        all_pending(retired(buffer)),
        retired(buffer).len() <= buffer.len(),
        forall|i: int|
            0 <= i < buffer.len() && pending(buffer[i]) ==> retired(buffer).contains(
                #[trigger] buffer[i],
            ),
        forall|i: int|
            0 <= i < buffer.len() && buffer[i].delay_sent ==> !retired(buffer).contains(
                #[trigger] buffer[i],
            ),
        forall|item: PoolItemView| #[trigger]
            retired(buffer).contains(item) ==> buffer.contains(item),
{
    let keep = |item: PoolItemView| pending(item);
    buffer.lemma_filter_len(keep);
    assert forall|i: int| 0 <= i < retired(buffer).len() implies pending(
        #[trigger] retired(buffer)[i],
    ) by {
        buffer.lemma_filter_pred(keep, i);
    }
    assert forall|i: int| 0 <= i < buffer.len() && pending(buffer[i]) implies retired(
        buffer,
    ).contains(#[trigger] buffer[i]) by {
        buffer.lemma_filter_contains(keep, i);
    }
    assert forall|i: int| 0 <= i < buffer.len() && buffer[i].delay_sent implies !retired(
        buffer,
    ).contains(#[trigger] buffer[i]) by {
        if retired(buffer).contains(buffer[i]) {
            let j = choose|j: int| 0 <= j < retired(buffer).len() && retired(buffer)[j] == buffer[i];
            assert(pending(retired(buffer)[j]));
        }
    }
    assert forall|item: PoolItemView| #[trigger] retired(buffer).contains(item) implies buffer.contains(
        item,
    ) by {
        buffer.lemma_filter_contains_rev(keep, item);
    }
}

/// A retire phase on a buffer of pending items changes nothing: no item
/// leaves the pool but by having its delayed group dispatched.
pub proof fn lemma_retire_keeps_pending_buffer(buffer: Seq<PoolItemView>)
    requires
        all_pending(buffer),
    ensures
        retired(buffer) == buffer,
    decreases buffer.len(),
{
    reveal(Seq::filter);
    if buffer.len() > 0 {
        lemma_retire_keeps_pending_buffer(buffer.drop_last());
    }
}

/// An item whose delayed latch was set in a tick is out of the pool once
/// that tick has retired, and stays out: after one or more ticks the pool
/// holds pending items only, so it holds no item with the latch set.
pub proof fn lemma_sent_item_stays_out(
    buffer: Seq<PoolItemView>,
    ticks: Seq<Tick>,
    item: PoolItemView,
)
    requires
        ticks.len() > 0,
        item.delay_sent,
    ensures
        all_pending(after_ticks(buffer, ticks)),
        !after_ticks(buffer, ticks).contains(item),
{
    let last = ticks.last();
    let before = after_ticks(buffer, ticks.drop_last());
    lemma_retire_evicts_sent_only(processed(before + last.arrivals, last.resolved, last.now));
    if after_ticks(buffer, ticks).contains(item) {
        let j = choose|j: int|
            0 <= j < after_ticks(buffer, ticks).len() && after_ticks(buffer, ticks)[j] == item;
        assert(pending(after_ticks(buffer, ticks)[j]));
    }
}

/// Items are processed independently of each other: putting another item
/// in place `i` of the buffer changes the outcome of the processing phase
/// at place `i` and nowhere else, for the items after it as for the
/// deliveries issued. Two payloads submitted against one configuration id
/// are two items, and processing one leaves the other alone.
pub proof fn lemma_items_processed_independently(
    buffer: Seq<PoolItemView>,
    resolved: Seq<Result<WebhookConfig, ResolveError>>,
    now: Timestamp,
    i: int,
    other: PoolItemView,
)
    requires
        0 <= i < buffer.len(),
    ensures
        processed(buffer.update(i, other), resolved, now) == processed(buffer, resolved, now).update(
            i,
            processed_item(other, resolved[i], now),
        ),
        reported(buffer.update(i, other), resolved, now) == reported(buffer, resolved, now).update(
            i,
            item_report(other, resolved[i], now),
        ),
        forall|j: int|
            0 <= j < buffer.len() && j != i ==> processed(buffer.update(i, other), resolved, now)[j]
                == #[trigger] processed(buffer, resolved, now)[j],
{
}

/// The processing phase neither adds nor drops nor reorders items: the item
/// at each place afterwards is the item that was there, processed under the
/// answer at that place.
pub proof fn lemma_processing_keeps_places(
    buffer: Seq<PoolItemView>,
    resolved: Seq<Result<WebhookConfig, ResolveError>>,
    now: Timestamp,
)
    ensures
        processed(buffer, resolved, now).len() == buffer.len(),
        reported(buffer, resolved, now).len() == buffer.len(),
        forall|i: int|
            0 <= i < buffer.len() ==> {
                &&& (#[trigger] processed(buffer, resolved, now)[i]).id == buffer[i].id
                &&& processed(buffer, resolved, now)[i].received_at == buffer[i].received_at
                &&& processed(buffer, resolved, now)[i].data == buffer[i].data
            },
{
}

} // verus!
