//! The event model: decoded transactions and the events that collectors emit.

use crate::bindings::{bytes_content, bytes_empty, bytes_from_vec};
use alloy_primitives::U256;
use bytes::Bytes;
use vstd::prelude::*;

verus! {

/// Capability of carrying out actions of type `A`.
pub trait Executor<A>: Send + Sync {}

/// Capability of turning events of type `E` into actions of type `A`.
pub trait Orchestrator<E, A>: Send + Sync {}

/// The address that stands for "no recipient": twenty zero bytes.
pub open spec fn zero_address() -> [u8; 20] {
    vstd::array::spec_array_fill_for_copy_type::<u8, 20>(0u8)
}

/// A signed transaction as the node delivered it, with its sender already
/// recovered. `to` is `None` for a contract creation.
pub struct RecoveredTx {
    pub signer: [u8; 20],
    pub to: Option<[u8; 20]>,
    pub value: U256,
    pub input: Vec<u8>,
}

/// A decoded transaction.
pub struct Tx {
    pub to: [u8; 20],
    pub from: [u8; 20],
    pub value: U256,
    pub input: Bytes,
}

/// What a [`Tx`] holds, with its calldata as a sequence of bytes.
pub struct TxView {
    pub to: [u8; 20],
    pub from: [u8; 20],
    pub value: U256,
    pub input: Seq<u8>,
}

impl View for Tx {
    type V = TxView;

    open spec fn view(&self) -> TxView {
        TxView {
            to: self.to,
            from: self.from,
            value: self.value,
            input: bytes_content(self.input),
        }
    }
}

/// The decoded form of `source`: sender and value are kept; a transaction
/// with a recipient keeps recipient and calldata, a contract creation gets
/// the zero address and no calldata at all.
pub open spec fn decoded(source: RecoveredTx) -> TxView {
    match source.to {
        Some(addr) => TxView {
            to: addr,
            from: source.signer,
            value: source.value,
            input: source.input@,
        },
        None => TxView {
            to: zero_address(),
            from: source.signer,
            value: source.value,
            input: Seq::empty(),
        },
    }
}

impl Tx {
    /// Decodes a recovered transaction. Creation bytecode is dropped rather
    /// than copied, so a block of large deployments costs no heap.
    pub fn from(value: RecoveredTx) -> (tx: Tx)
        ensures
            tx@ == decoded(value),
            value.to is None ==> tx.to == zero_address() && tx@.input.len() == 0,
            value.to is Some ==> tx.to == value.to->Some_0 && tx@.input == value.input@,
    {
        let RecoveredTx { signer, to, value: amount, input } = value;
        let (to, input) = match to {
            Some(addr) => (addr, bytes_from_vec(input)),
            None => ([0u8; 20], bytes_empty()),
        };
        Tx { to, from: signer, value: amount, input }
    }
}

/// A block together with its decoded transactions, in the block's order.
pub struct BlockEvent {
    pub num: u64,
    pub hash: [u8; 32],
    pub txs: Vec<Tx>,
}

/// What a [`BlockEvent`] holds.
pub struct BlockEventView {
    pub num: u64,
    pub hash: [u8; 32],
    pub txs: Seq<TxView>,
}

impl View for BlockEvent {
    type V = BlockEventView;

    open spec fn view(&self) -> BlockEventView {
        BlockEventView {
            num: self.num,
            hash: self.hash,
            txs: self.txs@.map_values(|tx: Tx| tx@),
        }
    }
}

/// A log notification. It carries no fields yet.
pub struct LogEvent {}

/// An event emitted by a collector.
pub enum Event {
    Block(BlockEvent),
    Log(LogEvent),
}

/// What an [`Event`] holds.
pub enum EventView {
    Block(BlockEventView),
    Log,
}

impl View for Event {
    type V = EventView;

    open spec fn view(&self) -> EventView {
        match self {
            Event::Block(b) => EventView::Block(b@),
            Event::Log(_) => EventView::Log,
        }
    }
}

/// The views of a run of events, in order.
pub open spec fn event_views(events: Seq<Event>) -> Seq<EventView> {
    events.map_values(|event: Event| event@)
}

/// An action for an executor. None is defined yet: the single variant
/// cannot be built, so the type has no value.
pub enum Action {
    Never(core::convert::Infallible),
}

} // verus!
