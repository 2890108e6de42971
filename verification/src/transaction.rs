//! The transaction data model: base monetary instructions, the events that
//! may later be attached to them, and the lifecycle status of a transaction.

use vstd::prelude::*;

verus! {

/// The kind of a base monetary instruction.
#[derive(Debug, Clone, Copy, PartialEq, Eq, Structural)]
pub enum TransactionType {
    Deposit,
    Withdrawal,
}

/// The lifecycle of a transaction while it is replayed.
///
/// The machine is linear: `Initiated` becomes `Processed` when the base
/// operation succeeds; a dispute event moves a transaction to `Disputed`;
/// from there a resolve event reaches `Resolved` and a chargeback event
/// reaches `Reversed`.
#[derive(Debug, Clone, Copy, PartialEq, Eq, Structural)]
pub enum TransactionStatus {
    Initiated,
    Processed,
    Disputed,
    Resolved,
    Reversed,
}

/// The kind of an out-of-band instruction referencing an earlier transaction.
#[derive(Debug, Clone, Copy, PartialEq, Eq, Structural)]
pub enum EventType {
    Dispute,
    Resolve,
    Chargeback,
}

/// One base monetary instruction together with the events aggregated onto it.
///
/// `amount` counts units of 1/10000 of the currency and is non-negative for
/// every transaction produced by validation.
#[derive(Debug, PartialEq)]
pub struct Transaction {
    pub transaction_type: TransactionType,
    pub client_id: u16,
    pub transaction_id: u32,
    pub amount: i64,
    pub events: Vec<EventType>,
    pub status: TransactionStatus,
}

/// The mathematical image of a [`Transaction`]: the event list as a sequence
/// and the amount as an unbounded integer.
pub struct TransactionView {
    pub transaction_type: TransactionType,
    pub client_id: u16,
    pub transaction_id: u32,
    pub amount: int,
    pub events: Seq<EventType>,
    pub status: TransactionStatus,
}

impl View for Transaction {
    type V = TransactionView;

    open spec fn view(&self) -> TransactionView {
        TransactionView {
            transaction_type: self.transaction_type,
            client_id: self.client_id,
            transaction_id: self.transaction_id,
            amount: self.amount as int,
            events: self.events@,
            status: self.status,
        }
    }
}

impl Transaction {
    /// A fresh transaction: no events attached yet, status `Initiated`.
    pub fn new(
        transaction_type: TransactionType,
        client_id: u16,
        transaction_id: u32,
        amount: i64,
    ) -> (r: Self)
        ensures
            r@ == (TransactionView {
                transaction_type,
                client_id,
                transaction_id,
                amount: amount as int,
                events: Seq::<EventType>::empty(),
                status: TransactionStatus::Initiated,
            }),
    {
        let r = Self {
            transaction_type,
            client_id,
            transaction_id,
            amount,
            events: Vec::new(),
            status: TransactionStatus::Initiated,
        };
        proof {
            assert(r@.events =~= Seq::<EventType>::empty());
        }
        r
    }

    /// A transaction with a given event list already attached, status `Initiated`.
    pub fn with_events(
        transaction_type: TransactionType,
        client_id: u16,
        transaction_id: u32,
        amount: i64,
        events: Vec<EventType>,
    ) -> (r: Self)
        ensures
            r@ == (TransactionView {
                transaction_type,
                client_id,
                transaction_id,
                amount: amount as int,
                events: events@,
                status: TransactionStatus::Initiated,
            }),
    {
        Self {
            transaction_type,
            client_id,
            transaction_id,
            amount,
            events,
            status: TransactionStatus::Initiated,
        }
    }
}

/// One dispute, resolve or chargeback instruction, referencing a transaction
/// by id. It never carries an amount; it is folded into the event list of the
/// transaction it references and not kept as an entity of its own.
#[derive(Debug, Clone, Copy, PartialEq, Eq, Structural)]
pub struct TransactionEvent {
    pub event_type: EventType,
    pub client_id: u16,
    pub transaction_id: u32,
}

impl TransactionEvent {
    pub fn new(event_type: EventType, client_id: u16, transaction_id: u32) -> (r: Self)
        ensures
            r == (TransactionEvent { event_type, client_id, transaction_id }),
    {
        Self { event_type, client_id, transaction_id }
    }
}

/// The outcome of validating one raw record: either a base transaction or an
/// event referencing one.
#[derive(Debug, PartialEq)]
pub enum CheckedTransaction {
    Transaction(Transaction),
    TransactionEvent(TransactionEvent),
}

/// The mathematical image of a [`CheckedTransaction`].
pub enum CheckedView {
    Transaction(TransactionView),
    TransactionEvent(TransactionEvent),
}

impl View for CheckedTransaction {
    type V = CheckedView;

    open spec fn view(&self) -> CheckedView {
        match self {
            CheckedTransaction::Transaction(t) => CheckedView::Transaction(t@),
            CheckedTransaction::TransactionEvent(e) => CheckedView::TransactionEvent(*e),
        }
    }
}

} // verus!
