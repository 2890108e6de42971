//! The account engine: per-client balances and the five operations that a
//! replayed transaction can apply to them.
//!
//! Every operation either performs an exact fixed-point update or fails with
//! a typed error and leaves the account untouched. The spec functions beside
//! the operations give the exact outcome for every input; the executable
//! operations are proved to return it.

use vstd::prelude::*;

use crate::errors::{ChargebackError, DepositError, DisputeError, ResolveError, WithdrawalError};
use crate::transaction::{EventType, Transaction, TransactionStatus, TransactionType, TransactionView};

verus! {

/// Whether an unbounded integer is representable as a balance.
pub open spec fn fits_i64(x: int) -> bool {
    i64::MIN <= x <= i64::MAX
}

/// One client's balances. Amounts count units of 1/10000 of the currency.
///
/// `held_amount` may go negative while a withdrawal is under dispute; the
/// conservation invariant [`Account::balanced`] holds at every observation
/// point.
#[derive(Debug, Clone, Copy, PartialEq, Eq, Structural)]
pub struct Account {
    pub client_id: u16,
    pub available_amount: i64,
    pub held_amount: i64,
    pub total_amount: i64,
    pub is_locked: bool,
}

impl Account {
    /// Conservation of funds: the total is exactly the available plus the
    /// held amount.
    pub open spec fn balanced(self) -> bool {
        self.total_amount == self.available_amount + self.held_amount
    }

    /// The exact outcome of [`Account::deposit`].
    pub open spec fn spec_deposit(self, tx: TransactionView) -> Result<Account, DepositError> {
        if tx.transaction_type != TransactionType::Deposit {
            Err(DepositError::InvalidTransactionType(tx.transaction_id))
        } else if self.client_id != tx.client_id {
            Err(DepositError::InvalidClientId)
        } else if self.is_locked {
            Err(DepositError::FrozenAccount(self.client_id))
        } else if !fits_i64(self.available_amount + tx.amount) || !fits_i64(
            self.total_amount + tx.amount,
        ) {
            Err(DepositError::AmountOverflow(tx.transaction_id))
        } else {
            Ok(
                Account {
                    available_amount: (self.available_amount + tx.amount) as i64,
                    total_amount: (self.total_amount + tx.amount) as i64,
                    ..self
                },
            )
        }
    }

    /// The exact outcome of [`Account::withdraw`].
    pub open spec fn spec_withdraw(self, tx: TransactionView) -> Result<Account, WithdrawalError> {
        if tx.transaction_type != TransactionType::Withdrawal {
            Err(WithdrawalError::InvalidTransactionType(tx.transaction_id))
        } else if self.client_id != tx.client_id {
            Err(WithdrawalError::InvalidClientId)
        } else if self.is_locked {
            Err(WithdrawalError::FrozenAccount(self.client_id))
        } else if self.available_amount - tx.amount < 0 {
            Err(WithdrawalError::InsufficientFunds(self.client_id))
        } else if !fits_i64(self.available_amount - tx.amount) || !fits_i64(
            self.total_amount - tx.amount,
        ) {
            Err(WithdrawalError::AmountOverflow(tx.transaction_id))
        } else {
            Ok(
                Account {
                    available_amount: (self.available_amount - tx.amount) as i64,
                    total_amount: (self.total_amount - tx.amount) as i64,
                    ..self
                },
            )
        }
    }

    /// The exact outcome of [`Account::dispute`]: for a disputed deposit the
    /// amount moves from available to held, for a disputed withdrawal the
    /// reverse (held may go negative there).
    pub open spec fn spec_dispute(self, tx: TransactionView, event_type: EventType) -> Result<
        Account,
        DisputeError,
    > {
        if event_type != EventType::Dispute {
            Err(DisputeError::InvalidEventType(tx.transaction_id))
        } else if self.client_id != tx.client_id {
            Err(DisputeError::InvalidClientId)
        } else {
            let (da, dh) = match tx.transaction_type {
                TransactionType::Deposit => (-tx.amount, tx.amount),
                TransactionType::Withdrawal => (tx.amount, -tx.amount),
            };
            if !fits_i64(self.available_amount + da) || !fits_i64(self.held_amount + dh) {
                Err(DisputeError::AmountOverflow(tx.transaction_id))
            } else {
                Ok(
                    Account {
                        available_amount: (self.available_amount + da) as i64,
                        held_amount: (self.held_amount + dh) as i64,
                        ..self
                    },
                )
            }
        }
    }

    /// The exact outcome of [`Account::resolve`]: the dispute's hold movement
    /// is reversed; a transaction not currently disputed is left alone.
    pub open spec fn spec_resolve(self, tx: TransactionView, event_type: EventType) -> Result<
        Account,
        ResolveError,
    > {
        if event_type != EventType::Resolve {
            Err(ResolveError::InvalidEventType(tx.transaction_id))
        } else if tx.status != TransactionStatus::Disputed {
            Ok(self)
        } else if self.client_id != tx.client_id {
            Err(ResolveError::InvalidClientId)
        } else {
            let (da, dh) = match tx.transaction_type {
                TransactionType::Deposit => (tx.amount, -tx.amount),
                TransactionType::Withdrawal => (-tx.amount, tx.amount),
            };
            if !fits_i64(self.available_amount + da) || !fits_i64(self.held_amount + dh) {
                Err(ResolveError::AmountOverflow(tx.transaction_id))
            } else {
                Ok(
                    Account {
                        available_amount: (self.available_amount + da) as i64,
                        held_amount: (self.held_amount + dh) as i64,
                        ..self
                    },
                )
            }
        }
    }

    /// The exact outcome of [`Account::chargeback`]: a disputed deposit's
    /// held funds leave the account for good, a disputed withdrawal's come
    /// back; either way the account is locked. A transaction not currently
    /// disputed is left alone.
    pub open spec fn spec_chargeback(self, tx: TransactionView, event_type: EventType) -> Result<
        Account,
        ChargebackError,
    > {
        if event_type != EventType::Chargeback {
            Err(ChargebackError::InvalidEventType(tx.transaction_id))
        } else if tx.status != TransactionStatus::Disputed {
            Ok(self)
        } else if self.client_id != tx.client_id {
            Err(ChargebackError::InvalidClientId)
        } else {
            let dh = match tx.transaction_type {
                TransactionType::Deposit => -tx.amount,
                TransactionType::Withdrawal => tx.amount,
            };
            if !fits_i64(self.held_amount + dh) || !fits_i64(self.total_amount + dh) {
                Err(ChargebackError::AmountOverflow(tx.transaction_id))
            } else {
                Ok(
                    Account {
                        held_amount: (self.held_amount + dh) as i64,
                        total_amount: (self.total_amount + dh) as i64,
                        is_locked: true,
                        ..self
                    },
                )
            }
        }
    }

    /// A fresh account: all balances zero, not locked.
    pub fn new(client_id: u16) -> (r: Self)
        ensures
            r == (Account {
                client_id,
                available_amount: 0i64,
                held_amount: 0i64,
                total_amount: 0i64,
                is_locked: false,
            }),
    {
        Self {
            client_id,
            available_amount: 0,
            held_amount: 0,
            total_amount: 0,
            is_locked: false,
        }
    }

    /// Locks the account; nothing unlocks it for the rest of the run.
    pub fn freeze(&mut self)
        ensures
            *final(self) == (Account { is_locked: true, ..*old(self) }),
    {
        self.is_locked = true;
    }

    /// Credits a deposit: available and total each grow by the amount.
    pub fn deposit(&mut self, tx: &Transaction) -> (r: Result<(), DepositError>)
        ensures
            (match old(self).spec_deposit(tx@) {
                Ok(a) => r == Ok::<(), DepositError>(()) && *final(self) == a,
                Err(e) => r == Err::<(), DepositError>(e) && *final(self) == *old(self),
            }),
            old(self).balanced() ==> final(self).balanced(),
    {
        match tx.transaction_type {
            TransactionType::Deposit => {
                if self.client_id == tx.client_id {
                    if !self.is_locked {
                        let na = self.available_amount as i128 + tx.amount as i128;
                        let nt = self.total_amount as i128 + tx.amount as i128;
                        if na < i64::MIN as i128 || na > i64::MAX as i128 || nt < i64::MIN as i128
                            || nt > i64::MAX as i128 {
                            Err(DepositError::AmountOverflow(tx.transaction_id))
                        } else {
                            self.available_amount = na as i64;
                            self.total_amount = nt as i64;
                            Ok(())
                        }
                    } else {
                        Err(DepositError::FrozenAccount(self.client_id))
                    }
                } else {
                    Err(DepositError::InvalidClientId)
                }
            },
            _ => Err(DepositError::InvalidTransactionType(tx.transaction_id)),
        }
    }

    /// Debits a withdrawal: available and total each shrink by the amount;
    /// a withdrawal that would leave available negative is refused.
    pub fn withdraw(&mut self, tx: &Transaction) -> (r: Result<(), WithdrawalError>)
        ensures
            (match old(self).spec_withdraw(tx@) {
                Ok(a) => r == Ok::<(), WithdrawalError>(()) && *final(self) == a,
                Err(e) => r == Err::<(), WithdrawalError>(e) && *final(self) == *old(self),
            }),
            old(self).balanced() ==> final(self).balanced(),
            r is Ok ==> final(self).available_amount >= 0,
    {
        match tx.transaction_type {
            TransactionType::Withdrawal => {
                if self.client_id == tx.client_id {
                    if !self.is_locked {
                        let na = self.available_amount as i128 - tx.amount as i128;
                        let nt = self.total_amount as i128 - tx.amount as i128;
                        if na < 0 {
                            Err(WithdrawalError::InsufficientFunds(self.client_id))
                        } else if na > i64::MAX as i128 || nt < i64::MIN as i128 || nt
                            > i64::MAX as i128 {
                            Err(WithdrawalError::AmountOverflow(tx.transaction_id))
                        } else {
                            self.available_amount = na as i64;
                            self.total_amount = nt as i64;
                            Ok(())
                        }
                    } else {
                        Err(WithdrawalError::FrozenAccount(self.client_id))
                    }
                } else {
                    Err(WithdrawalError::InvalidClientId)
                }
            },
            _ => Err(WithdrawalError::InvalidTransactionType(tx.transaction_id)),
        }
    }

    /// Applies a dispute event: the disputed amount moves between available
    /// and held according to the transaction's kind; the total is unchanged.
    pub fn dispute(&mut self, tx: &Transaction, event_type: &EventType) -> (r: Result<
        (),
        DisputeError,
    >)
        ensures
            (match old(self).spec_dispute(tx@, *event_type) {
                Ok(a) => r == Ok::<(), DisputeError>(()) && *final(self) == a,
                Err(e) => r == Err::<(), DisputeError>(e) && *final(self) == *old(self),
            }),
            old(self).balanced() ==> final(self).balanced(),
            r is Ok && *event_type == EventType::Dispute ==> final(self).total_amount == old(
                self,
            ).total_amount,
    {
        match event_type {
            EventType::Dispute => match tx.transaction_type {
                TransactionType::Deposit => self.dispute_deposit(tx),
                TransactionType::Withdrawal => self.dispute_withdrawal(tx),
            },
            _ => Err(DisputeError::InvalidEventType(tx.transaction_id)),
        }
    }

    /// Applies a resolve event: reverses the dispute's movement; a
    /// transaction not currently disputed is left alone.
    pub fn resolve(&mut self, tx: &Transaction, event_type: &EventType) -> (r: Result<
        (),
        ResolveError,
    >)
        ensures
            (match old(self).spec_resolve(tx@, *event_type) {
                Ok(a) => r == Ok::<(), ResolveError>(()) && *final(self) == a,
                Err(e) => r == Err::<(), ResolveError>(e) && *final(self) == *old(self),
            }),
            old(self).balanced() ==> final(self).balanced(),
            tx.status != TransactionStatus::Disputed ==> *final(self) == *old(self),
    {
        match event_type {
            EventType::Resolve => {
                if tx.status == TransactionStatus::Disputed {
                    match tx.transaction_type {
                        TransactionType::Deposit => self.resolve_deposit(tx),
                        TransactionType::Withdrawal => self.resolve_withdrawal(tx),
                    }
                } else {
                    Ok(())
                }
            },
            _ => Err(ResolveError::InvalidEventType(tx.transaction_id)),
        }
    }

    /// Applies a chargeback event and locks the account; a transaction not
    /// currently disputed is left alone (and the account stays unlocked).
    pub fn chargeback(&mut self, tx: &Transaction, event_type: &EventType) -> (r: Result<
        (),
        ChargebackError,
    >)
        ensures
            (match old(self).spec_chargeback(tx@, *event_type) {
                Ok(a) => r == Ok::<(), ChargebackError>(()) && *final(self) == a,
                Err(e) => r == Err::<(), ChargebackError>(e) && *final(self) == *old(self),
            }),
            old(self).balanced() ==> final(self).balanced(),
            tx.status != TransactionStatus::Disputed ==> *final(self) == *old(self),
    {
        match event_type {
            EventType::Chargeback => {
                if tx.status == TransactionStatus::Disputed {
                    let res = match tx.transaction_type {
                        TransactionType::Deposit => self.chargeback_deposit(tx),
                        TransactionType::Withdrawal => self.chargeback_withdrawal(tx),
                    };
                    match res {
                        Ok(()) => {
                            self.freeze();
                            Ok(())
                        },
                        Err(e) => Err(e),
                    }
                } else {
                    Ok(())
                }
            },
            _ => Err(ChargebackError::InvalidEventType(tx.transaction_id)),
        }
    }

    /// Moves a disputed deposit's amount from available to held.
    fn dispute_deposit(&mut self, tx: &Transaction) -> (r: Result<(), DisputeError>)
        requires
            tx.transaction_type == TransactionType::Deposit,
        ensures
            (match old(self).spec_dispute(tx@, EventType::Dispute) {
                Ok(a) => r == Ok::<(), DisputeError>(()) && *final(self) == a,
                Err(e) => r == Err::<(), DisputeError>(e) && *final(self) == *old(self),
            }),
    {
        if self.client_id == tx.client_id {
            let na = self.available_amount as i128 - tx.amount as i128;
            let nh = self.held_amount as i128 + tx.amount as i128;
            if na < i64::MIN as i128 || na > i64::MAX as i128 || nh < i64::MIN as i128 || nh
                > i64::MAX as i128 {
                Err(DisputeError::AmountOverflow(tx.transaction_id))
            } else {
                self.available_amount = na as i64;
                self.held_amount = nh as i64;
                Ok(())
            }
        } else {
            Err(DisputeError::InvalidClientId)
        }
    }

    /// Moves a disputed withdrawal's amount back from held to available;
    /// held may go negative here.
    fn dispute_withdrawal(&mut self, tx: &Transaction) -> (r: Result<(), DisputeError>)
        requires
            tx.transaction_type == TransactionType::Withdrawal,
        ensures
            (match old(self).spec_dispute(tx@, EventType::Dispute) {
                Ok(a) => r == Ok::<(), DisputeError>(()) && *final(self) == a,
                Err(e) => r == Err::<(), DisputeError>(e) && *final(self) == *old(self),
            }),
    {
        if self.client_id == tx.client_id {
            let na = self.available_amount as i128 + tx.amount as i128;
            let nh = self.held_amount as i128 - tx.amount as i128;
            if na < i64::MIN as i128 || na > i64::MAX as i128 || nh < i64::MIN as i128 || nh
                > i64::MAX as i128 {
                Err(DisputeError::AmountOverflow(tx.transaction_id))
            } else {
                self.available_amount = na as i64;
                self.held_amount = nh as i64;
                Ok(())
            }
        } else {
            Err(DisputeError::InvalidClientId)
        }
    }

    /// Returns a resolved deposit's amount from held to available.
    fn resolve_deposit(&mut self, tx: &Transaction) -> (r: Result<(), ResolveError>)
        requires
            tx.transaction_type == TransactionType::Deposit,
            tx.status == TransactionStatus::Disputed,
        ensures
            (match old(self).spec_resolve(tx@, EventType::Resolve) {
                Ok(a) => r == Ok::<(), ResolveError>(()) && *final(self) == a,
                Err(e) => r == Err::<(), ResolveError>(e) && *final(self) == *old(self),
            }),
    {
        if self.client_id == tx.client_id {
            let na = self.available_amount as i128 + tx.amount as i128;
            let nh = self.held_amount as i128 - tx.amount as i128;
            if na < i64::MIN as i128 || na > i64::MAX as i128 || nh < i64::MIN as i128 || nh
                > i64::MAX as i128 {
                Err(ResolveError::AmountOverflow(tx.transaction_id))
            } else {
                self.available_amount = na as i64;
                self.held_amount = nh as i64;
                Ok(())
            }
        } else {
            Err(ResolveError::InvalidClientId)
        }
    }

    /// Returns a resolved withdrawal's amount from available back to held.
    fn resolve_withdrawal(&mut self, tx: &Transaction) -> (r: Result<(), ResolveError>)
        requires
            tx.transaction_type == TransactionType::Withdrawal,
            tx.status == TransactionStatus::Disputed,
        ensures
            (match old(self).spec_resolve(tx@, EventType::Resolve) {
                Ok(a) => r == Ok::<(), ResolveError>(()) && *final(self) == a,
                Err(e) => r == Err::<(), ResolveError>(e) && *final(self) == *old(self),
            }),
    {
        if self.client_id == tx.client_id {
            let na = self.available_amount as i128 - tx.amount as i128;
            let nh = self.held_amount as i128 + tx.amount as i128;
            if na < i64::MIN as i128 || na > i64::MAX as i128 || nh < i64::MIN as i128 || nh
                > i64::MAX as i128 {
                Err(ResolveError::AmountOverflow(tx.transaction_id))
            } else {
                self.available_amount = na as i64;
                self.held_amount = nh as i64;
                Ok(())
            }
        } else {
            Err(ResolveError::InvalidClientId)
        }
    }

    /// Removes a charged-back deposit's held funds from the account.
    fn chargeback_deposit(&mut self, tx: &Transaction) -> (r: Result<(), ChargebackError>)
        requires
            tx.transaction_type == TransactionType::Deposit,
            tx.status == TransactionStatus::Disputed,
        ensures
            (match old(self).spec_chargeback(tx@, EventType::Chargeback) {
                Ok(a) => r == Ok::<(), ChargebackError>(()) && *final(self) == (Account {
                    is_locked: old(self).is_locked,
                    ..a
                }),
                Err(e) => r == Err::<(), ChargebackError>(e) && *final(self) == *old(self),
            }),
    {
        if self.client_id == tx.client_id {
            let nh = self.held_amount as i128 - tx.amount as i128;
            let nt = self.total_amount as i128 - tx.amount as i128;
            if nh < i64::MIN as i128 || nh > i64::MAX as i128 || nt < i64::MIN as i128 || nt
                > i64::MAX as i128 {
                Err(ChargebackError::AmountOverflow(tx.transaction_id))
            } else {
                self.held_amount = nh as i64;
                self.total_amount = nt as i64;
                Ok(())
            }
        } else {
            Err(ChargebackError::InvalidClientId)
        }
    }

    /// Restores a charged-back withdrawal's funds to the account.
    fn chargeback_withdrawal(&mut self, tx: &Transaction) -> (r: Result<(), ChargebackError>)
        requires
            tx.transaction_type == TransactionType::Withdrawal,
            tx.status == TransactionStatus::Disputed,
        ensures
            (match old(self).spec_chargeback(tx@, EventType::Chargeback) {
                Ok(a) => r == Ok::<(), ChargebackError>(()) && *final(self) == (Account {
                    is_locked: old(self).is_locked,
                    ..a
                }),
                Err(e) => r == Err::<(), ChargebackError>(e) && *final(self) == *old(self),
            }),
    {
        if self.client_id == tx.client_id {
            let nh = self.held_amount as i128 + tx.amount as i128;
            let nt = self.total_amount as i128 + tx.amount as i128;
            if nh < i64::MIN as i128 || nh > i64::MAX as i128 || nt < i64::MIN as i128 || nt
                > i64::MAX as i128 {
                Err(ChargebackError::AmountOverflow(tx.transaction_id))
            } else {
                self.held_amount = nh as i64;
                self.total_amount = nt as i64;
                Ok(())
            }
        } else {
            Err(ChargebackError::InvalidClientId)
        }
    }
}

} // verus!
