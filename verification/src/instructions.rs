//! Typed per-kind forms of the five instructions: one small value type per
//! deposit, withdrawal, dispute, resolve and chargeback, each with a
//! conversion into the engine's [`Transaction`] or [`TransactionEvent`].

use vstd::prelude::*;

use crate::transaction::{
    EventType, Transaction, TransactionEvent, TransactionStatus, TransactionType, TransactionView,
};

verus! {

/// A deposit instruction: credits the client's account. The amount counts
/// units of 1/10000 of the currency.
#[derive(Debug, Clone, Copy, PartialEq, Eq, Structural)]
pub struct DepositTransaction {
    pub client_id: u16,
    pub transaction_id: u32,
    pub amount: i64,
}

impl DepositTransaction {
    pub fn new(client_id: u16, transaction_id: u32, amount: i64) -> (r: Self)
        ensures
            r == (DepositTransaction { client_id, transaction_id, amount }),
    {
        Self { client_id, transaction_id, amount }
    }

    /// The base transaction this instruction stands for.
    pub fn into_transaction(self) -> (r: Transaction)
        ensures
            r@ == (TransactionView {
                transaction_type: TransactionType::Deposit,
                client_id: self.client_id,
                transaction_id: self.transaction_id,
                amount: self.amount as int,
                events: Seq::empty(),
                status: TransactionStatus::Initiated,
            }),
    {
        Transaction::new(
            TransactionType::Deposit,
            self.client_id,
            self.transaction_id,
            self.amount,
        )
    }
}

/// A withdrawal instruction: debits the client's account. The amount counts
/// units of 1/10000 of the currency.
#[derive(Debug, Clone, Copy, PartialEq, Eq, Structural)]
pub struct WithdrawalTransaction {
    pub client_id: u16,
    pub transaction_id: u32,
    pub amount: i64,
}

impl WithdrawalTransaction {
    pub fn new(client_id: u16, transaction_id: u32, amount: i64) -> (r: Self)
        ensures
            r == (WithdrawalTransaction { client_id, transaction_id, amount }),
    {
        Self { client_id, transaction_id, amount }
    }

    /// The base transaction this instruction stands for.
    pub fn into_transaction(self) -> (r: Transaction)
        ensures
            r@ == (TransactionView {
                transaction_type: TransactionType::Withdrawal,
                client_id: self.client_id,
                transaction_id: self.transaction_id,
                amount: self.amount as int,
                events: Seq::empty(),
                status: TransactionStatus::Initiated,
            }),
    {
        Transaction::new(
            TransactionType::Withdrawal,
            self.client_id,
            self.transaction_id,
            self.amount,
        )
    }
}

/// A dispute instruction: opens an investigation of the referenced
/// transaction.
#[derive(Debug, Clone, Copy, PartialEq, Eq, Structural)]
pub struct DisputeTransaction {
    pub client_id: u16,
    pub transaction_id: u32,
}

impl DisputeTransaction {
    pub fn new(client_id: u16, transaction_id: u32) -> (r: Self)
        ensures
            r == (DisputeTransaction { client_id, transaction_id }),
    {
        Self { client_id, transaction_id }
    }

    /// The event this instruction stands for.
    pub fn into_event(self) -> (r: TransactionEvent)
        ensures
            r == (TransactionEvent {
                event_type: EventType::Dispute,
                client_id: self.client_id,
                transaction_id: self.transaction_id,
            }),
    {
        TransactionEvent::new(EventType::Dispute, self.client_id, self.transaction_id)
    }
}

/// A resolve instruction: closes a dispute, releasing the held funds.
#[derive(Debug, Clone, Copy, PartialEq, Eq, Structural)]
pub struct ResolveTransaction {
    pub client_id: u16,
    pub transaction_id: u32,
}

impl ResolveTransaction {
    pub fn new(client_id: u16, transaction_id: u32) -> (r: Self)
        ensures
            r == (ResolveTransaction { client_id, transaction_id }),
    {
        Self { client_id, transaction_id }
    }

    /// The event this instruction stands for.
    pub fn into_event(self) -> (r: TransactionEvent)
        ensures
            r == (TransactionEvent {
                event_type: EventType::Resolve,
                client_id: self.client_id,
                transaction_id: self.transaction_id,
            }),
    {
        TransactionEvent::new(EventType::Resolve, self.client_id, self.transaction_id)
    }
}

/// A chargeback instruction: reverses a disputed transaction and freezes the
/// account.
#[derive(Debug, Clone, Copy, PartialEq, Eq, Structural)]
pub struct ChargebackTransaction {
    pub client_id: u16,
    pub transaction_id: u32,
}

impl ChargebackTransaction {
    pub fn new(client_id: u16, transaction_id: u32) -> (r: Self)
        ensures
            r == (ChargebackTransaction { client_id, transaction_id }),
    {
        Self { client_id, transaction_id }
    }

    /// The event this instruction stands for.
    pub fn into_event(self) -> (r: TransactionEvent)
        ensures
            r == (TransactionEvent {
                event_type: EventType::Chargeback,
                client_id: self.client_id,
                transaction_id: self.transaction_id,
            }),
    {
        TransactionEvent::new(EventType::Chargeback, self.client_id, self.transaction_id)
    }
}

} // verus!
