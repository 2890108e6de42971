//! The external record shapes: one raw input record per log line, and one
//! output record per account.
//!
//! Amounts cross the boundary as fixed-point integers counting units of
//! 1/10000 of the currency, the engine's display precision. The reader at the
//! edge classifies each record's amount field into a [`RawAmount`] before the
//! engine sees it: absent, present but not a finite non-negative number, or
//! present with its value already rounded to those units.

use vstd::prelude::*;

use crate::account::Account;

verus! {

/// The amount field of a raw record, as the validator reads it.
#[derive(Debug, Clone, Copy, PartialEq, Eq, Structural)]
pub enum RawAmount {
    /// No amount on the record.
    Missing,
    /// An amount that is not a finite non-negative number.
    Invalid,
    /// A finite amount, in units of 1/10000 of the currency, rounded to that
    /// precision. A negative value here is rejected by validation.
    Value(i64),
}

/// One untyped input record: a type tag, a client id, a transaction id and
/// an optional amount.
#[derive(Debug, PartialEq)]
pub struct RawTransaction {
    pub tx_type: String,
    pub client: u16,
    pub tx: u32,
    pub amount: RawAmount,
}

impl RawTransaction {
    pub fn new(tx_type: String, client: u16, tx: u32, amount: RawAmount) -> (r: Self)
        ensures
            r == (RawTransaction { tx_type, client, tx, amount }),
    {
        Self { tx_type, client, tx, amount }
    }
}

/// One output record: the final balances of one client, in units of 1/10000
/// of the currency, and the locked flag.
#[derive(Debug, Clone, Copy, PartialEq, Eq, Structural)]
pub struct RawAccount {
    pub client: u16,
    pub available: i64,
    pub held: i64,
    pub total: i64,
    pub locked: bool,
}

impl RawAccount {
    pub fn new(client: u16, available: i64, held: i64, total: i64, locked: bool) -> (r: Self)
        ensures
            r == (RawAccount { client, available, held, total, locked }),
    {
        Self { client, available, held, total, locked }
    }
}

/// The output record of an account. Balances are kept in display units
/// throughout, so the rounding the boundary owes is the identity here.
pub open spec fn spec_account_to_raw(account: Account) -> RawAccount {
    RawAccount {
        client: account.client_id,
        available: account.available_amount,
        held: account.held_amount,
        total: account.total_amount,
        locked: account.is_locked,
    }
}

impl From<Account> for RawAccount {
    fn from(account: Account) -> (r: RawAccount) {
        RawAccount {
            client: account.client_id,
            available: account.available_amount,
            held: account.held_amount,
            total: account.total_amount,
            locked: account.is_locked,
        }
    }
}

impl vstd::std_specs::convert::FromSpecImpl<Account> for RawAccount {
    open spec fn obeys_from_spec() -> bool {
        true
    }

    open spec fn from_spec(account: Account) -> RawAccount {
        spec_account_to_raw(account)
    }
}

} // verus!
