use alloy_primitives::U256;
use magatsumi::collectors::block::{
    BlockCollector, BlockNotification, CollectorError, RawBlock, Transactions,
};
use magatsumi::types::{Event, RecoveredTx};

fn transfer(from: u8, to: u8, calldata: Vec<u8>) -> RecoveredTx {
    RecoveredTx { signer: [from; 20], to: Some([to; 20]), value: U256::from(1u64), input: calldata }
}

fn creation(from: u8, bytecode: Vec<u8>) -> RecoveredTx {
    RecoveredTx { signer: [from; 20], to: None, value: U256::ZERO, input: bytecode }
}

fn full_block(num: u64, hash: u8, txs: Vec<RecoveredTx>) -> BlockNotification {
    BlockNotification::Block(RawBlock {
        num,
        hash: [hash; 32],
        transactions: Transactions::Full(txs),
    })
}

fn collector(threads: usize) -> BlockCollector<()> {
    BlockCollector::new((), threads).expect("worker pool")
}

fn block_number(event: &Event) -> u64 {
    match event {
        Event::Block(block) => block.num,
        Event::Log(_) => panic!("expected a block event"),
    }
}

#[test]
fn new_keeps_provider_and_thread_count() {
    let made = BlockCollector::new("node", 3).expect("worker pool");
    assert_eq!(*made.provider(), "node");
    assert_eq!(made.num_threads(), 3);
}

#[test]
fn from_pool_takes_a_pool_that_was_built() {
    let pool = rayon::ThreadPoolBuilder::new().num_threads(2).build();
    let made = BlockCollector::from_pool(7u8, 2, pool).expect("collector");
    assert_eq!(*made.provider(), 7);
    assert_eq!(made.num_threads(), 2);
    let event = made.on_notification(full_block(3, 3, vec![transfer(1, 2, vec![5])]));
    assert_eq!(block_number(&event.expect("one event")), 3);
}

#[test]
fn from_pool_reports_a_pool_that_did_not_start() {
    let _ = rayon::ThreadPoolBuilder::new().num_threads(1).build_global();
    let failure = rayon::ThreadPoolBuilder::new()
        .num_threads(1)
        .build_global()
        .expect_err("the global pool exists already");
    let pool: Result<rayon::ThreadPool, rayon::ThreadPoolBuildError> = Err(failure);
    match BlockCollector::from_pool((), 1, pool) {
        Err(CollectorError::PoolUnavailable) => {}
        Ok(_) => panic!("expected PoolUnavailable"),
    }
}

#[test]
fn block_with_two_transfers_and_a_creation() {
    let hash = [0xabu8; 32];
    let notification = BlockNotification::Block(RawBlock {
        num: 100,
        hash,
        transactions: Transactions::Full(vec![
            transfer(1, 0xa0, vec![1, 2, 3]),
            transfer(2, 0xb0, vec![4, 5]),
            creation(3, vec![0x60; 10 * 1024]),
        ]),
    });
    let event = collector(2).on_notification(notification).expect("one event");
    let block = match event {
        Event::Block(block) => block,
        Event::Log(_) => panic!("expected a block event"),
    };
    assert_eq!(block.num, 100);
    assert_eq!(block.hash, hash);
    assert_eq!(block.txs.len(), 3);
    assert_eq!(block.txs[0].to, [0xa0; 20]);
    assert_eq!(block.txs[0].from, [1; 20]);
    assert_eq!(&block.txs[0].input[..], &[1u8, 2, 3][..]);
    assert_eq!(block.txs[1].to, [0xb0; 20]);
    assert_eq!(block.txs[1].from, [2; 20]);
    assert_eq!(&block.txs[1].input[..], &[4u8, 5][..]);
    assert_eq!(block.txs[2].to, [0u8; 20]);
    assert_eq!(block.txs[2].from, [3; 20]);
    assert!(block.txs[2].input.is_empty());
}

#[test]
fn many_transactions_keep_their_order() {
    let count: usize = 500;
    let mut txs = Vec::new();
    for i in 0..count {
        txs.push(RecoveredTx {
            signer: [(i % 256) as u8; 20],
            to: Some([(i / 256) as u8; 20]),
            value: U256::from(i as u64),
            input: vec![(i % 251) as u8; i % 7],
        });
    }
    let event = collector(4).on_notification(full_block(7, 9, txs)).expect("one event");
    let block = match event {
        Event::Block(block) => block,
        Event::Log(_) => panic!("expected a block event"),
    };
    assert_eq!(block.txs.len(), count);
    for (i, tx) in block.txs.iter().enumerate() {
        assert_eq!(tx.from, [(i % 256) as u8; 20]);
        assert_eq!(tx.to, [(i / 256) as u8; 20]);
        assert_eq!(tx.value, U256::from(i as u64));
        assert_eq!(&tx.input[..], &vec![(i % 251) as u8; i % 7][..]);
    }
}

#[test]
fn empty_full_block_gives_an_event_without_transactions() {
    let event = collector(1).on_notification(full_block(1, 1, Vec::new())).expect("one event");
    match event {
        Event::Block(block) => {
            assert_eq!(block.num, 1);
            assert_eq!(block.hash, [1u8; 32]);
            assert!(block.txs.is_empty());
        }
        Event::Log(_) => panic!("expected a block event"),
    }
}

#[test]
fn block_with_hashes_only_is_dropped() {
    let notification = BlockNotification::Block(RawBlock {
        num: 5,
        hash: [5; 32],
        transactions: Transactions::Hashes(vec![[1; 32], [2; 32]]),
    });
    assert!(collector(1).on_notification(notification).is_none());
}

#[test]
fn block_without_transaction_list_is_dropped() {
    let notification = BlockNotification::Block(RawBlock {
        num: 6,
        hash: [6; 32],
        transactions: Transactions::Uncle,
    });
    assert!(collector(1).on_notification(notification).is_none());
}

#[test]
fn transport_error_is_dropped() {
    assert!(collector(1).on_notification(BlockNotification::TransportError).is_none());
}

#[test]
fn partial_block_does_not_stop_later_blocks() {
    let events = collector(2).on_notifications(vec![
        BlockNotification::Block(RawBlock {
            num: 10,
            hash: [10; 32],
            transactions: Transactions::Hashes(vec![[7; 32]]),
        }),
        full_block(11, 11, vec![transfer(1, 2, vec![9])]),
        full_block(12, 12, Vec::new()),
    ]);
    assert_eq!(events.len(), 2);
    assert_eq!(block_number(&events[0]), 11);
    assert_eq!(block_number(&events[1]), 12);
}

#[test]
fn transport_error_between_blocks_does_not_end_the_sequence() {
    let events = collector(2).on_notifications(vec![
        full_block(20, 1, vec![transfer(1, 2, vec![])]),
        BlockNotification::TransportError,
        full_block(21, 2, vec![creation(3, vec![1, 2, 3])]),
    ]);
    assert_eq!(events.len(), 2);
    assert_eq!(block_number(&events[0]), 20);
    assert_eq!(block_number(&events[1]), 21);
}

#[test]
fn no_notifications_give_no_events() {
    assert!(collector(1).on_notifications(Vec::new()).is_empty());
}

#[test]
fn only_dropped_notifications_give_no_events() {
    let events = collector(1).on_notifications(vec![
        BlockNotification::TransportError,
        BlockNotification::Block(RawBlock {
            num: 1,
            hash: [0; 32],
            transactions: Transactions::Uncle,
        }),
        BlockNotification::TransportError,
    ]);
    assert!(events.is_empty());
}
