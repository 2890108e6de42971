//! The record validator: turns one untyped input record into a typed
//! transaction or transaction event, or fails with the exact format error.
//!
//! Validation is pure; it runs for the whole input before any account is
//! touched, so a malformed record anywhere aborts the run with no partial
//! output.

use vstd::prelude::*;
use vstd::string::StringExecFns;

use crate::errors::FormatError;
use crate::records::{RawAmount, RawTransaction};
use crate::transaction::{
    CheckedTransaction, CheckedView, EventType, Transaction, TransactionEvent, TransactionStatus,
    TransactionType, TransactionView,
};

verus! {

/// The exact outcome of validating the amount field of a deposit or
/// withdrawal record: the amount must be present and a finite non-negative
/// number.
pub open spec fn spec_validate_amount(raw: RawTransaction) -> Result<i64, FormatError> {
    match raw.amount {
        RawAmount::Missing => Err(FormatError::MissingAmount(raw.tx, raw.tx_type)),
        RawAmount::Invalid => Err(FormatError::InvalidAmount(raw.tx, raw.tx_type)),
        RawAmount::Value(v) => if v < 0 {
            Err(FormatError::InvalidAmount(raw.tx, raw.tx_type))
        } else {
            Ok(v)
        },
    }
}

/// The exact outcome of [`CheckedTransaction::try_from_raw`].
pub open spec fn spec_check(raw: RawTransaction) -> Result<CheckedView, FormatError> {
    if raw.tx_type@ == "deposit"@ {
        match spec_validate_amount(raw) {
            Ok(v) => Ok(
                CheckedView::Transaction(
                    TransactionView {
                        transaction_type: TransactionType::Deposit,
                        client_id: raw.client,
                        transaction_id: raw.tx,
                        amount: v as int,
                        events: Seq::empty(),
                        status: TransactionStatus::Initiated,
                    },
                ),
            ),
            Err(e) => Err(e),
        }
    } else if raw.tx_type@ == "withdrawal"@ {
        match spec_validate_amount(raw) {
            Ok(v) => Ok(
                CheckedView::Transaction(
                    TransactionView {
                        transaction_type: TransactionType::Withdrawal,
                        client_id: raw.client,
                        transaction_id: raw.tx,
                        amount: v as int,
                        events: Seq::empty(),
                        status: TransactionStatus::Initiated,
                    },
                ),
            ),
            Err(e) => Err(e),
        }
    } else if raw.tx_type@ == "dispute"@ {
        spec_check_event(raw, EventType::Dispute)
    } else if raw.tx_type@ == "resolve"@ {
        spec_check_event(raw, EventType::Resolve)
    } else if raw.tx_type@ == "chargeback"@ {
        spec_check_event(raw, EventType::Chargeback)
    } else {
        Err(FormatError::InvalidTransactionType(raw.tx_type, raw.tx))
    }
}

/// The exact outcome of validating an event record: no amount may be present.
pub open spec fn spec_check_event(raw: RawTransaction, event_type: EventType) -> Result<
    CheckedView,
    FormatError,
> {
    match raw.amount {
        RawAmount::Missing => Ok(
            CheckedView::TransactionEvent(
                TransactionEvent { event_type, client_id: raw.client, transaction_id: raw.tx },
            ),
        ),
        _ => Err(FormatError::UnexpectedAmount(raw.tx, raw.tx_type)),
    }
}

/// Whether the record's type tag is exactly `lit`.
fn tag_is(tag: &String, lit: &str) -> (r: bool)
    ensures
        r == (tag@ == lit@),
{
    let s = String::from_str(lit);
    *tag == s
}

/// Validates the amount field of a deposit or withdrawal record.
fn validate(raw: &RawTransaction) -> (r: Result<i64, FormatError>)
    ensures
        r == spec_validate_amount(*raw),
{
    match raw.amount {
        RawAmount::Missing => Err(FormatError::MissingAmount(raw.tx, raw.tx_type.clone())),
        RawAmount::Invalid => Err(FormatError::InvalidAmount(raw.tx, raw.tx_type.clone())),
        RawAmount::Value(v) => {
            if v < 0 {
                Err(FormatError::InvalidAmount(raw.tx, raw.tx_type.clone()))
            } else {
                Ok(v)
            }
        },
    }
}

/// Validates the absence of an amount on an event record and builds the event.
fn check_event(raw: &RawTransaction, event_type: EventType) -> (r: Result<
    CheckedTransaction,
    FormatError,
>)
    ensures
        (match spec_check_event(*raw, event_type) {
            Ok(c) => r matches Ok(ct) && ct@ == c,
            Err(e) => r == Err::<CheckedTransaction, FormatError>(e),
        }),
{
    match raw.amount {
        RawAmount::Missing => Ok(
            CheckedTransaction::TransactionEvent(
                TransactionEvent::new(event_type, raw.client, raw.tx),
            ),
        ),
        _ => Err(FormatError::UnexpectedAmount(raw.tx, raw.tx_type.clone())),
    }
}

impl CheckedTransaction {
    /// Validates one raw record: a deposit or withdrawal must carry a finite
    /// non-negative amount, an event must carry none, and the type tag must
    /// be one of the five known tags.
    pub fn try_from_raw(raw: &RawTransaction) -> (r: Result<CheckedTransaction, FormatError>)
        ensures
            (match spec_check(*raw) {
                Ok(c) => r matches Ok(ct) && ct@ == c,
                Err(e) => r == Err::<CheckedTransaction, FormatError>(e),
            }),
    {
        if tag_is(&raw.tx_type, "deposit") {
            match validate(raw) {
                Ok(v) => Ok(
                    CheckedTransaction::Transaction(
                        Transaction::new(TransactionType::Deposit, raw.client, raw.tx, v),
                    ),
                ),
                Err(e) => Err(e),
            }
        } else if tag_is(&raw.tx_type, "withdrawal") {
            match validate(raw) {
                Ok(v) => Ok(
                    CheckedTransaction::Transaction(
                        Transaction::new(TransactionType::Withdrawal, raw.client, raw.tx, v),
                    ),
                ),
                Err(e) => Err(e),
            }
        } else if tag_is(&raw.tx_type, "dispute") {
            check_event(raw, EventType::Dispute)
        } else if tag_is(&raw.tx_type, "resolve") {
            check_event(raw, EventType::Resolve)
        } else if tag_is(&raw.tx_type, "chargeback") {
            check_event(raw, EventType::Chargeback)
        } else {
            Err(FormatError::InvalidTransactionType(raw.tx_type.clone(), raw.tx))
        }
    }
}

} // verus!
