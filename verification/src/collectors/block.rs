//! The block collector: full-block notifications in, `Block` events out.

use crate::bindings::{build_pool, decode_in_pool};
use crate::types::{
    decoded, event_views, BlockEvent, BlockEventView, Event, EventView, RecoveredTx, Tx,
};
use rayon::ThreadPool;
use vstd::prelude::*;

verus! {

/// The transaction list of a block as the node delivered it.
pub enum Transactions {
    /// Every transaction in full.
    Full(Vec<RecoveredTx>),
    /// Only the transactions' hashes.
    Hashes(Vec<[u8; 32]>),
    /// No list at all.
    Uncle,
}

/// A block as the node delivered it.
pub struct RawBlock {
    pub num: u64,
    pub hash: [u8; 32],
    pub transactions: Transactions,
}

/// One item of a block subscription.
pub enum BlockNotification {
    Block(RawBlock),
    /// The transport failed to deliver an item.
    TransportError,
}

/// Why a collector could not be set up.
#[derive(Debug)]
pub enum CollectorError {
    /// The worker pool could not be started.
    PoolUnavailable,
}

/// The event that one notification gives rise to, if any: a block with its
/// full transaction list becomes a `Block` event that holds the decoded
/// transactions in the block's order; anything else is dropped.
pub open spec fn block_event(notification: BlockNotification) -> Option<EventView> {
    match notification {
        BlockNotification::Block(block) => match block.transactions {
            Transactions::Full(sources) => Some(
                EventView::Block(
                    BlockEventView {
                        num: block.num,
                        hash: block.hash,
                        txs: sources@.map_values(|source: RecoveredTx| decoded(source)),
                    },
                ),
            ),
            _ => None,
        },
        BlockNotification::TransportError => None,
    }
}

/// The events that a run of notifications gives rise to, in order of arrival.
pub open spec fn block_events(notifications: Seq<BlockNotification>) -> Seq<EventView>
    decreases notifications.len(),
{
    if notifications.len() == 0 {
        Seq::empty()
    } else {
        let earlier = block_events(notifications.drop_last());
        match block_event(notifications.last()) {
            Some(event) => earlier.push(event),
            None => earlier,
        }
    }
}

/// A block that arrives with its transactions in full gives rise to one
/// `Block` event with the block's number and hash, as many transactions as
/// the block has, and each of them the decoded form of the transaction at
/// the same position.
pub proof fn lemma_full_block_keeps_every_tx(block: RawBlock, sources: Vec<RecoveredTx>)
    requires
        block.transactions == Transactions::Full(sources),
    ensures
        block_event(BlockNotification::Block(block)) matches Some(EventView::Block(event))
            && event.num == block.num && event.hash == block.hash && event.txs.len()
            == sources@.len() && forall|i: int|
            0 <= i < sources@.len() ==> #[trigger] event.txs[i] == decoded(sources@[i]),
{
}

/// A block that arrives without its transactions in full gives rise to no
/// event, and neither does a transport error.
pub proof fn lemma_incomplete_is_dropped(notification: BlockNotification)
    requires
        match notification {
            BlockNotification::Block(block) => !(block.transactions is Full),
            BlockNotification::TransportError => true,
        },
    ensures
        block_event(notification) is None,
{
}

/// The events of two runs of notifications, one after the other, are the
/// events of the first followed by the events of the second.
pub proof fn lemma_block_events_concat(first: Seq<BlockNotification>, second: Seq<BlockNotification>)
    ensures
        block_events(first + second) == block_events(first) + block_events(second),
    decreases second.len(),
{
    if second.len() == 0 {
        assert(first + second =~= first);
        assert(block_events(first) + block_events(second) =~= block_events(first));
    } else {
        let whole = first + second;
        assert(whole.drop_last() =~= first + second.drop_last());
        assert(whole.last() == second.last());
        lemma_block_events_concat(first, second.drop_last());
        match block_event(second.last()) {
            Some(event) => {
                assert((block_events(first) + block_events(second.drop_last())).push(event)
                    =~= block_events(first) + block_events(second.drop_last()).push(event));
            },
            None => {},
        }
    }
}

/// The events of a single notification: its event, if it has one.
pub proof fn lemma_block_events_single(notification: BlockNotification)
    ensures
        block_events(seq![notification]) == match block_event(notification) {
            Some(event) => seq![event],
            None => Seq::empty(),
        },
{
    let one = seq![notification];
    assert(one.drop_last() =~= Seq::<BlockNotification>::empty());
    assert(block_events(one.drop_last()) =~= Seq::<EventView>::empty());
    assert(one.last() == notification);
    match block_event(notification) {
        Some(event) => {
            assert(Seq::<EventView>::empty().push(event) =~= seq![event]);
        },
        None => {},
    }
}

/// A notification that gives rise to no event leaves the events of the
/// notifications around it as they are: those before it and those after it
/// still produce their events, in order of arrival.
pub proof fn lemma_dropped_notification_is_skipped(
    before: Seq<BlockNotification>,
    dropped: BlockNotification,
    after: Seq<BlockNotification>,
)
    requires
        block_event(dropped) is None,
    ensures
        block_events(before.push(dropped) + after) == block_events(before) + block_events(after),
{
    lemma_block_events_concat(before.push(dropped), after);
    assert(before.push(dropped).drop_last() =~= before);
}

/// A transport error between two blocks that arrive in full ends nothing:
/// both blocks produce their events, the earlier one first.
pub proof fn lemma_error_between_blocks(first: BlockNotification, second: BlockNotification)
    requires
        block_event(first) is Some,
        block_event(second) is Some,
    ensures
        block_events(seq![first, BlockNotification::TransportError, second]) == seq![
            block_event(first)->Some_0,
            block_event(second)->Some_0,
        ],
{
    let before = seq![first];
    let after = seq![second];
    assert(seq![first, BlockNotification::TransportError, second] =~= before.push(
        BlockNotification::TransportError,
    ) + after);
    lemma_dropped_notification_is_skipped(before, BlockNotification::TransportError, after);
    lemma_block_events_single(first);
    lemma_block_events_single(second);
    assert(block_events(before) + block_events(after) =~= seq![
        block_event(first)->Some_0,
        block_event(second)->Some_0,
    ]);
}

/// Turns block notifications into `Block` events, decoding each block's
/// transactions on a worker pool of its own.
pub struct BlockCollector<P> {
    provider: P,
    thread_pool: ThreadPool,
    num_threads: usize,
}

impl<P> BlockCollector<P> {
    /// A collector always has at least one decode worker.
    #[verifier::type_invariant]
    spec fn has_workers(&self) -> bool {
        self.num_threads >= 1
    }

    /// The node connection that the collector was made with.
    pub closed spec fn spec_provider(&self) -> P {
        self.provider
    }

    /// The size that the worker pool was asked for.
    pub closed spec fn spec_num_threads(&self) -> usize {
        self.num_threads
    }

    /// The worker pool that transactions are decoded on.
    pub closed spec fn spec_pool(&self) -> ThreadPool {
        self.thread_pool
    }

    /// A collector on `provider` with a pool of `num_threads` workers of its
    /// own. Fails only if the pool cannot be started, which is up to the
    /// machine.
    pub fn new(provider: P, num_threads: usize) -> (made: Result<Self, CollectorError>)
        requires
            num_threads >= 1,
        ensures
            made matches Ok(collector) ==> collector.spec_provider() == provider
                && collector.spec_num_threads() == num_threads,
            made matches Err(error) ==> error is PoolUnavailable,
    {
        Self::from_pool(provider, num_threads, build_pool(num_threads))
    }

    /// A collector on `provider` around the outcome of building its pool of
    /// `num_threads` workers: the collector owns the pool that was built,
    /// and a pool that did not start is reported as unavailable.
    pub fn from_pool(
        provider: P,
        num_threads: usize,
        built: Result<ThreadPool, rayon::ThreadPoolBuildError>,
    ) -> (made: Result<Self, CollectorError>)
        requires
            num_threads >= 1,
        ensures
            match built {
                Ok(pool) => made matches Ok(collector) && collector.spec_provider() == provider
                    && collector.spec_num_threads() == num_threads && collector.spec_pool()
                    == pool,
                Err(_) => made matches Err(error) && error is PoolUnavailable,
            },
    {
        match built {
            Ok(thread_pool) => Ok(BlockCollector { provider, thread_pool, num_threads }),
            Err(_) => Err(CollectorError::PoolUnavailable),
        }
    }

    /// The node connection, for opening the subscription.
    pub fn provider(&self) -> (provider: &P)
        ensures
            *provider == self.spec_provider(),
    {
        &self.provider
    }

    /// The size that the worker pool was asked for.
    pub fn num_threads(&self) -> (n: usize)
        ensures
            n == self.spec_num_threads(),
            n >= 1,
    {
        proof {
            use_type_invariant(self);
        }
        self.num_threads
    }

    /// Handles one notification: the event to emit, or `None` where the
    /// notification is dropped.
    pub fn on_notification(&self, notification: BlockNotification) -> (emitted: Option<Event>)
        ensures
            match emitted {
                Some(event) => block_event(notification) == Some(event@),
                None => block_event(notification) is None,
            },
    {
        match notification {
            BlockNotification::Block(block) => {
                let RawBlock { num, hash, transactions } = block;
                match transactions {
                    Transactions::Full(sources) => {
                        let txs = decode_in_pool(&self.thread_pool, sources);
                        assert(txs@.map_values(|tx: Tx| tx@) =~= sources@.map_values(
                            |source: RecoveredTx| decoded(source),
                        ));
                        Some(Event::Block(BlockEvent { num, hash, txs }))
                    },
                    _ => None,
                }
            },
            BlockNotification::TransportError => None,
        }
    }

    /// Handles a run of notifications one after the other: the events they
    /// give rise to, in order of arrival.
    pub fn on_notifications(&self, notifications: Vec<BlockNotification>) -> (events: Vec<Event>)
        ensures
            event_views(events@) == block_events(notifications@),
    {
        let mut events: Vec<Event> = Vec::new();
        for notification in it: notifications
            invariant
                it.seq() == notifications@,
                event_views(events@) == block_events(notifications@.take(it.index() as int)),
        {
            let ghost before = events@;
            proof {
                let upto = notifications@.take(it.index() + 1);
                assert(upto.drop_last() =~= notifications@.take(it.index() as int));
                assert(upto.last() == notification);
            }
            match self.on_notification(notification) {
                Some(event) => {
                    events.push(event);
                    assert(event_views(events@) =~= event_views(before).push(event@));
                },
                None => {},
            }
        }
        assert(notifications@.take(notifications@.len() as int) =~= notifications@);
        events
    }
}

} // verus!
