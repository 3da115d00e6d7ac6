//! The dispatch pool: submitted payloads wait here until both of their
//! delivery groups have been sent.

use crate::db::{resolution_view, ResolveError, WebhookConfig, WebhookDBItem};
use std::collections::VecDeque;
use crate::time::{delay_elapsed, Timestamp};
use vstd::prelude::*;

verus! {

/// The two delivery groups of a configuration.
#[derive(Clone, Copy, Debug, PartialEq, Eq, Structural)]
pub enum Group {
    /// Sent as soon as the payload is processed.
    Instant,
    /// Sent once the configured delay has passed since submission.
    Delayed,
}

/// The content type that every delivery declares. The payload travels as it
/// was submitted, whether or not it is JSON.
pub const CONTENT_TYPE: &'static str = "application/json";

/// One delivery to attempt: a POST of `body` to `url`, declared as
/// [`CONTENT_TYPE`].
#[derive(Debug, PartialEq, Eq)]
pub struct Delivery {
    pub group: Group,
    pub url: String,
    pub body: Vec<u8>,
}

/// A delivery as a mathematical value.
pub struct DeliveryView {
    pub group: Group,
    pub url: Seq<char>,
    pub body: Seq<u8>,
}

impl View for Delivery {
    type V = DeliveryView;

    open spec fn view(&self) -> DeliveryView {
        DeliveryView { group: self.group, url: self.url@, body: self.body@ }
    }
}

impl Delivery {
    /// The content type that this delivery declares: always
    /// [`CONTENT_TYPE`], whatever the payload holds.
    pub fn content_type(&self) -> (declared: &'static str)
        ensures
            declared@ == CONTENT_TYPE@,
    {
        CONTENT_TYPE
    }
}

/// The deliveries of a list, each as a mathematical value.
pub open spec fn deliveries_view(deliveries: Seq<Delivery>) -> Seq<DeliveryView> {
    deliveries.map_values(|d: Delivery| d@)
}

/// A submitted payload and how far its delivery has come.
#[derive(Debug)]
pub struct PoolItem {
    id: String,
    received_at: Timestamp,
    instant_sent: bool,
    delay_sent: bool,
    data: Vec<u8>,
}

/// A pool item as a mathematical value.
pub struct PoolItemView {
    /// The id of the configuration the payload was submitted against.
    pub id: Seq<char>,
    /// When the payload was submitted.
    pub received_at: Timestamp,
    /// Whether the instant group has been dispatched.
    pub instant_sent: bool,
    /// Whether the delayed group has been dispatched.
    pub delay_sent: bool,
    /// The payload.
    pub data: Seq<u8>,
}

impl View for PoolItem {
    type V = PoolItemView;

    closed spec fn view(&self) -> PoolItemView {
        PoolItemView {
            id: self.id@,
            received_at: self.received_at,
            instant_sent: self.instant_sent,
            delay_sent: self.delay_sent,
            data: self.data@,
        }
    }
}

/// A payload submitted at `received_at` of which nothing has been sent yet.
pub open spec fn fresh_item(id: Seq<char>, data: Seq<u8>, received_at: Timestamp) -> PoolItemView {
    PoolItemView { id, received_at, instant_sent: false, delay_sent: false, data }
}

impl PoolItem {
    /// A payload submitted now: nothing of it has been sent, and the time of
    /// submission is read from the system clock.
    pub fn new(id: String, data: Vec<u8>) -> (item: PoolItem)
        ensures
            item@ == fresh_item(id@, data@, item@.received_at),
    {
        PoolItem::stamped(id, data, Timestamp::now())
    }

    /// A payload submitted at `received_at`, of which nothing has been sent.
    pub fn stamped(id: String, data: Vec<u8>, received_at: Timestamp) -> (item: PoolItem)
        ensures
            item@ == fresh_item(id@, data@, received_at),
    {
        PoolItem { id, received_at, instant_sent: false, delay_sent: false, data }
    }

    /// The id of the configuration the payload was submitted against.
    pub fn id(&self) -> (id: &String)
        ensures
            id@ == self@.id,
    {
        &self.id
    }

    /// When the payload was submitted.
    pub fn received_at(&self) -> (at: Timestamp)
        ensures
            at == self@.received_at,
    {
        self.received_at
    }

    /// Whether the instant group has been dispatched.
    pub fn instant_sent(&self) -> (sent: bool)
        ensures
            sent == self@.instant_sent,
    {
        self.instant_sent
    }

    /// Whether the delayed group has been dispatched.
    pub fn delay_sent(&self) -> (sent: bool)
        ensures
            sent == self@.delay_sent,
    {
        self.delay_sent
    }

    /// The payload.
    pub fn data(&self) -> (data: &Vec<u8>)
        ensures
            data@ == self@.data,
    {
        &self.data
    }
}

/// One delivery of `body` to each of `urls`, in their order, for `group`.
pub open spec fn group_deliveries(group: Group, urls: Seq<Seq<char>>, body: Seq<u8>) -> Seq<
    DeliveryView,
> {
    Seq::new(urls.len(), |k: int| DeliveryView { group, url: urls[k], body })
}

/// Whether the delayed group of `item` is due at `now` under `config`: the
/// configured delay has passed since submission.
pub open spec fn delayed_group_due(item: PoolItemView, config: WebhookConfig, now: Timestamp) -> bool {
    delay_elapsed(item.received_at, now, config.delay_seconds)
}

/// The instant deliveries that processing `item` under `config` issues: one
/// per instant endpoint unless the group went out before.
pub open spec fn instant_requests(item: PoolItemView, config: WebhookConfig) -> Seq<DeliveryView> {
    if item.instant_sent {
        Seq::empty()
    } else {
        group_deliveries(Group::Instant, config.instant_webhooks, item.data)
    }
}

/// The delayed deliveries that processing `item` under `config` at `now`
/// issues: one per delayed endpoint once the group is due, unless it went out
/// before.
pub open spec fn delayed_requests(item: PoolItemView, config: WebhookConfig, now: Timestamp) -> Seq<
    DeliveryView,
> {
    if !item.delay_sent && delayed_group_due(item, config, now) {
        group_deliveries(Group::Delayed, config.delay_webhooks, item.data)
    } else {
        Seq::empty()
    }
}

/// Everything that processing `item` under `config` at `now` issues: the
/// instant deliveries, then the delayed ones.
pub open spec fn dispatched(item: PoolItemView, config: WebhookConfig, now: Timestamp) -> Seq<
    DeliveryView,
> {
    instant_requests(item, config) + delayed_requests(item, config, now)
}

/// The item after it has been processed under `config` at `now`. The instant
/// latch is set whatever the endpoint lists hold; the delayed latch is set
/// once the group is due. A latch that is set stays set.
pub open spec fn after_dispatch(item: PoolItemView, config: WebhookConfig, now: Timestamp) -> PoolItemView {
    PoolItemView {
        id: item.id,
        received_at: item.received_at,
        instant_sent: true,
        delay_sent: item.delay_sent || delayed_group_due(item, config, now),
        data: item.data,
    }
}

/// The item after one round of processing, given what the configuration
/// store answered. A failed lookup leaves the item as it was.
pub open spec fn processed_item(
    item: PoolItemView,
    resolved: Result<WebhookConfig, ResolveError>,
    now: Timestamp,
) -> PoolItemView {
    match resolved {
        Ok(config) => after_dispatch(item, config, now),
        Err(_) => item,
    }
}

/// What one round of processing reports: the deliveries it issued, or why
/// the configuration could not be had.
pub open spec fn item_report(
    item: PoolItemView,
    resolved: Result<WebhookConfig, ResolveError>,
    now: Timestamp,
) -> Result<Seq<DeliveryView>, ResolveError> {
    match resolved {
        Ok(config) => Ok(dispatched(item, config, now)),
        Err(e) => Err(e),
    }
}

/// Appends to `out` one delivery of `body` to each of `urls`.
fn push_group(out: &mut Vec<Delivery>, group: Group, urls: &Vec<String>, body: &Vec<u8>)
    ensures
        deliveries_view(final(out)@) == deliveries_view(old(out)@) + group_deliveries(
            group,
            urls.deep_view(),
            body@,
        ),
{
    let ghost before = deliveries_view(out@);
    let mut k: usize = 0;
    while k < urls.len()
        invariant
            k <= urls.len(),
            deliveries_view(out@) == before + group_deliveries(
                group,
                urls.deep_view().take(k as int),
                body@,
            ),
        decreases urls.len() - k,
    {
        let delivery = Delivery { group, url: urls[k].clone(), body: body.clone() };
        proof {
            assert(deliveries_view(out@.push(delivery)) == deliveries_view(out@).push(delivery@));
        }
        out.push(delivery);
        k += 1;
    }
}

/// A report of one round of processing, as a mathematical value.
pub open spec fn report_view(report: Result<Vec<Delivery>, ResolveError>) -> Result<
    Seq<DeliveryView>,
    ResolveError,
> {
    match report {
        Ok(requests) => Ok(deliveries_view(requests@)),
        Err(e) => Err(e),
    }
}

/// Whether an item is still owed its delayed group and so stays in the pool.
pub open spec fn pending(item: PoolItemView) -> bool {
    !item.delay_sent
}

/// What the store answered for each item of a buffer, as mathematical values.
pub open spec fn resolutions_view(resolved: Seq<Result<WebhookDBItem, ResolveError>>) -> Seq<
    Result<WebhookConfig, ResolveError>,
> {
    resolved.map_values(|r: Result<WebhookDBItem, ResolveError>| resolution_view(r))
}

/// The reports of a processing phase, as mathematical values.
pub open spec fn reports_view(reports: Seq<Result<Vec<Delivery>, ResolveError>>) -> Seq<
    Result<Seq<DeliveryView>, ResolveError>,
> {
    reports.map_values(|r: Result<Vec<Delivery>, ResolveError>| report_view(r))
}

/// The buffer after a processing phase at `now`: every item is processed on
/// its own, under the answer at its own position, and keeps its place.
pub open spec fn processed(
    buffer: Seq<PoolItemView>,
    resolved: Seq<Result<WebhookConfig, ResolveError>>,
    now: Timestamp,
) -> Seq<PoolItemView> {
    Seq::new(buffer.len(), |i: int| processed_item(buffer[i], resolved[i], now))
}

/// What a processing phase at `now` reports, item by item.
pub open spec fn reported(
    buffer: Seq<PoolItemView>,
    resolved: Seq<Result<WebhookConfig, ResolveError>>,
    now: Timestamp,
) -> Seq<Result<Seq<DeliveryView>, ResolveError>> {
    Seq::new(buffer.len(), |i: int| item_report(buffer[i], resolved[i], now))
}

/// The buffer after a retire phase: the pending items, in their order.
pub open spec fn retired(buffer: Seq<PoolItemView>) -> Seq<PoolItemView> {
    buffer.filter(|item: PoolItemView| pending(item))
}

/// The buffer of payloads in flight, in the order in which they arrived.
pub struct Pool {
    pool: VecDeque<PoolItem>,
}

impl View for Pool {
    type V = Seq<PoolItemView>;

    closed spec fn view(&self) -> Seq<PoolItemView> {
        self.pool@.map_values(|item: PoolItem| item@)
    }
}

impl Pool {
    /// An empty pool.
    pub fn new() -> (pool: Pool)
        ensures
            pool@ == Seq::<PoolItemView>::empty(),
    {
        Pool { pool: VecDeque::new() }
    }

    /// The number of items in flight.
    pub fn len(&self) -> (n: usize)
        ensures
            n == self@.len(),
    {
        self.pool.len()
    }

    /// The item at position `index`, if there is one.
    pub fn get(&self, index: usize) -> (item: Option<&PoolItem>)
        ensures
            index < self@.len() ==> item.is_some() && item.unwrap()@ == self@[index as int],
            index >= self@.len() ==> item.is_none(),
    {
        if index < self.pool.len() {
            Some(&self.pool[index])
        } else {
            None
        }
    }

    /// Processes one item under its configuration at `now`. The instant group is
    /// issued unless it went out before; the delayed group is issued once it is
    /// due, unless it went out before. Each latch is set as soon as its group is
    /// issued, whether or not a delivery succeeds later, and also when the group
    /// has no endpoints.
    pub fn dispatch(item: &mut PoolItem, config: &WebhookDBItem, now: Timestamp) -> (requests: Vec<
        Delivery,
    >)
        ensures
            final(item)@ == after_dispatch(old(item)@, config@, now),
            deliveries_view(requests@) == dispatched(old(item)@, config@, now),
    {
        let mut requests: Vec<Delivery> = Vec::new();
        if !item.instant_sent {
            push_group(&mut requests, Group::Instant, &config.instant_webhooks, &item.data);
            item.instant_sent = true;
        }
        if item.received_at.delay_elapsed_at(now, config.delay_seconds) && !item.delay_sent {
            push_group(&mut requests, Group::Delayed, &config.delay_webhooks, &item.data);
            item.delay_sent = true;
        }
        requests
    }

    /// Processes one item for one tick, given what the configuration store
    /// answered for the item's configuration id.
    ///
    /// Where the lookup failed nothing is delivered, the item stays as it was,
    /// and the failure is handed back to be reported; the item is tried again on
    /// the next tick. Where it succeeded the item is dispatched under the
    /// configuration found.
    pub fn process_pool_item(
        item: &mut PoolItem,
        resolved: &Result<WebhookDBItem, ResolveError>,
        now: Timestamp,
    ) -> (report: Result<Vec<Delivery>, ResolveError>)
        ensures
            final(item)@ == processed_item(old(item)@, resolution_view(*resolved), now),
            report_view(report) == item_report(old(item)@, resolution_view(*resolved), now),
    {
        match resolved {
            Ok(config) => Ok(Pool::dispatch(item, config, now)),
            Err(e) => Err(*e),
        }
    }

    /// Drain phase, one item: a payload taken from the queue joins the buffer
    /// behind those already there.
    pub fn push_back(&mut self, item: PoolItem)
        ensures
            final(self)@ == old(self)@.push(item@),
    {
        self.pool.push_back(item);
    }

    /// The configuration id of every item in flight, in buffer order: what
    /// has to be looked up before the items can be processed.
    pub fn config_ids(&self) -> (ids: Vec<String>)
        ensures
            ids.deep_view() == self@.map_values(|item: PoolItemView| item.id),
    {
        let mut ids: Vec<String> = Vec::new();
        let mut i: usize = 0;
        while i < self.pool.len()
            invariant
                i <= self.pool@.len(),
                ids@.len() == i,
                forall|j: int| 0 <= j < i ==> (#[trigger] ids@[j])@ == self.pool@[j]@.id,
            decreases self.pool@.len() - i,
        {
            ids.push(self.pool[i].id.clone());
            i += 1;
        }
        ids
    }

    /// Processing phase at `now`: every item in flight is processed under
    /// the answer that the configuration store gave for it, `resolved[i]`
    /// being the answer for the item at position `i`. Items keep their
    /// places; the report at position `i` is that of item `i`.
    pub fn process_at(
        &mut self,
        resolved: &Vec<Result<WebhookDBItem, ResolveError>>,
        now: Timestamp,
    ) -> (reports: Vec<Result<Vec<Delivery>, ResolveError>>)
        requires
            resolved@.len() == old(self)@.len(),
        ensures
            final(self)@ == processed(old(self)@, resolutions_view(resolved@), now),
            reports_view(reports@) == reported(old(self)@, resolutions_view(resolved@), now),
    {
        let ghost before = self.pool@;
        let ghost answers = resolutions_view(resolved@);
        let mut done: VecDeque<PoolItem> = VecDeque::new();
        let mut reports: Vec<Result<Vec<Delivery>, ResolveError>> = Vec::new();
        let mut i: usize = 0;
        while i < resolved.len()
            invariant
                i <= resolved@.len(),
                resolved@.len() == before.len(),
                answers == resolutions_view(resolved@),
                self.pool@ == before.skip(i as int),
                done@.len() == i,
                reports@.len() == i,
                forall|j: int|
                    0 <= j < i ==> (#[trigger] done@[j])@ == processed_item(
                        before[j]@,
                        answers[j],
                        now,
                    ),
                forall|j: int|
                    0 <= j < i ==> report_view(#[trigger] reports@[j]) == item_report(
                        before[j]@,
                        answers[j],
                        now,
                    ),
            decreases resolved@.len() - i,
        {
            let front = self.pool.pop_front();
            let mut item = front.unwrap();
            let report = Pool::process_pool_item(&mut item, &resolved[i], now);
            done.push_back(item);
            reports.push(report);
            i += 1;
        }
        self.pool = done;
        reports
    }

    /// Processing phase at the time the system clock shows: as
    /// [`Pool::process_at`], for the one reading of the clock that is taken.
    pub fn process(&mut self, resolved: &Vec<Result<WebhookDBItem, ResolveError>>) -> (reports: Vec<
        Result<Vec<Delivery>, ResolveError>,
    >)
        requires
            resolved@.len() == old(self)@.len(),
        ensures
            exists|now: Timestamp|
                {
                    &&& final(self)@ == #[trigger] processed(
                        old(self)@,
                        resolutions_view(resolved@),
                        now,
                    )
                    &&& reports_view(reports@) == reported(
                        old(self)@,
                        resolutions_view(resolved@),
                        now,
                    )
                },
    {
        let now = Timestamp::now();
        self.process_at(resolved, now)
    }

    /// Retire phase: the items whose delayed group has been dispatched leave
    /// the pool; the others stay, in their order.
    pub fn retire(&mut self)
        ensures
            final(self)@ == retired(old(self)@),
    {
        let ghost before = self@;
        let ghost n = self.pool@.len();
        let mut kept: VecDeque<PoolItem> = VecDeque::new();
        let mut i: usize = 0;
        let count = self.pool.len();
        while i < count
            invariant
                i <= count,
                count == n,
                before.len() == n,
                self.pool@.len() == n - i,
                forall|j: int| 0 <= j < n - i ==> (#[trigger] self.pool@[j])@ == before[i + j],
                kept@.map_values(|item: PoolItem| item@) == retired(before.take(i as int)),
            decreases count - i,
        {
            let front = self.pool.pop_front();
            let item = front.unwrap();
            proof {
                assert(before.take(i as int + 1) == before.take(i as int).push(before[i as int]));
                before.take(i as int).lemma_filter_push(
                    before[i as int],
                    |item: PoolItemView| pending(item),
                );
            }
            if !item.delay_sent {
                kept.push_back(item);
            }
            i += 1;
        }
        proof {
            assert(before.take(n as int) == before);
        }
        self.pool = kept;
    }
}

} // verus!
