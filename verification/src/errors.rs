//! Error taxonomy of the engine.
//!
//! Format errors abort the run during validation and preprocessing; account
//! errors abort it during replay. Every error renders to the single
//! human-readable line shown to the user, built here so that the exact text
//! is part of the verified library.

use vstd::prelude::*;
use vstd::string::StringExecFns;

verus! {

/// Decimal digits of `n`, most significant first, as a sequence of characters.
pub open spec fn spec_decimal(n: int) -> Seq<char>
    decreases n,
{
    if n < 0 {
        Seq::empty()
    } else if n < 10 {
        seq![spec_digit_char(n)]
    } else {
        spec_decimal(n / 10) + seq![spec_digit_char(n % 10)]
    }
}

/// The character for one decimal digit.
pub open spec fn spec_digit_char(d: int) -> char {
    if d == 0 {
        '0'
    } else if d == 1 {
        '1'
    } else if d == 2 {
        '2'
    } else if d == 3 {
        '3'
    } else if d == 4 {
        '4'
    } else if d == 5 {
        '5'
    } else if d == 6 {
        '6'
    } else if d == 7 {
        '7'
    } else if d == 8 {
        '8'
    } else {
        '9'
    }
}

/// Appends the decimal rendering of `n` to `out`.
fn append_decimal(out: &mut String, n: u32)
    ensures
        final(out)@ == old(out)@ + spec_decimal(n as int),
    decreases n,
{
    if n >= 10 {
        append_decimal(out, n / 10);
    }
    let d = n % 10;
    match d {
        0 => out.append("0"),
        1 => out.append("1"),
        2 => out.append("2"),
        3 => out.append("3"),
        4 => out.append("4"),
        5 => out.append("5"),
        6 => out.append("6"),
        7 => out.append("7"),
        8 => out.append("8"),
        _ => out.append("9"),
    }
    proof {
        reveal_strlit("0");
        reveal_strlit("1");
        reveal_strlit("2");
        reveal_strlit("3");
        reveal_strlit("4");
        reveal_strlit("5");
        reveal_strlit("6");
        reveal_strlit("7");
        reveal_strlit("8");
        reveal_strlit("9");
        if n < 10 {
            assert(spec_decimal(n as int) =~= seq![spec_digit_char(n as int)]);
        } else {
            assert(spec_decimal(n as int) =~= spec_decimal(n as int / 10) + seq![
                spec_digit_char(n as int % 10),
            ]);
        }
    }
}

/// A record that cannot be turned into a transaction or event, or a
/// transaction id that is not unique. All of these abort the run before any
/// account is touched.
#[derive(Debug, PartialEq)]
pub enum FormatError {
    /// The type tag is none of the five known tags; carries the tag and the
    /// transaction id of the offending record.
    InvalidTransactionType(String, u32),
    /// A deposit or withdrawal record without an amount; carries the
    /// transaction id and the type tag.
    MissingAmount(u32, String),
    /// A dispute, resolve or chargeback record with an amount; carries the
    /// transaction id and the type tag.
    UnexpectedAmount(u32, String),
    /// An amount that is negative or not a finite number; carries the
    /// transaction id and the type tag.
    InvalidAmount(u32, String),
    /// A transaction id already used by an earlier deposit or withdrawal.
    UniqueTransactionId(u32),
}

impl FormatError {
    /// The message shown to the user for this error.
    pub fn message(&self) -> (r: String)
        ensures
            r@ == self.spec_message(),
    {
        let mut out = String::new();
        match self {
            FormatError::InvalidTransactionType(tag, tx) => {
                out.append("Unexpected format: invalid transaction type '");
                out.append(tag.as_str());
                out.append("' in transaction id ");
                append_decimal(&mut out, *tx);
            },
            FormatError::MissingAmount(tx, tag) => {
                out.append("Unexpected format: missing amount for transaction id ");
                append_decimal(&mut out, *tx);
                out.append(" and transaction type '");
                out.append(tag.as_str());
                out.append("'");
            },
            FormatError::UnexpectedAmount(tx, tag) => {
                out.append("Unexpected format: amount should be none for transaction id ");
                append_decimal(&mut out, *tx);
                out.append(" and transaction type '");
                out.append(tag.as_str());
                out.append("'");
            },
            FormatError::InvalidAmount(tx, tag) => {
                out.append(
                    "Unexpected format: amount is negative, infinite or NaN for transaction id ",
                );
                append_decimal(&mut out, *tx);
                out.append(" and transaction type '");
                out.append(tag.as_str());
                out.append("'");
            },
            FormatError::UniqueTransactionId(tx) => {
                out.append("Unexpected format: transaction id ");
                append_decimal(&mut out, *tx);
                out.append(" is not unique");
            },
        }
        out
    }

    /// The characters of [`FormatError::message`].
    pub open spec fn spec_message(self) -> Seq<char> {
        match self {
            FormatError::InvalidTransactionType(tag, tx) => "Unexpected format: invalid transaction type '"@
                + tag@ + "' in transaction id "@ + spec_decimal(tx as int),
            FormatError::MissingAmount(tx, tag) => "Unexpected format: missing amount for transaction id "@
                + spec_decimal(tx as int) + " and transaction type '"@ + tag@ + "'"@,
            FormatError::UnexpectedAmount(tx, tag) => "Unexpected format: amount should be none for transaction id "@
                + spec_decimal(tx as int) + " and transaction type '"@ + tag@ + "'"@,
            FormatError::InvalidAmount(tx, tag) => "Unexpected format: amount is negative, infinite or NaN for transaction id "@
                + spec_decimal(tx as int) + " and transaction type '"@ + tag@ + "'"@,
            FormatError::UniqueTransactionId(tx) => "Unexpected format: transaction id "@
                + spec_decimal(tx as int) + " is not unique"@,
        }
    }
}

/// Why a deposit was refused.
#[derive(Debug, Clone, Copy, PartialEq, Eq, Structural)]
pub enum DepositError {
    /// The transaction targets an account of another client.
    InvalidClientId,
    /// The account is frozen by an earlier chargeback; carries the client id.
    FrozenAccount(u16),
    /// The transaction is not a deposit; carries the transaction id.
    InvalidTransactionType(u32),
    /// The updated balance would leave the representable range; carries the
    /// transaction id.
    AmountOverflow(u32),
}

/// Why a withdrawal was refused.
#[derive(Debug, Clone, Copy, PartialEq, Eq, Structural)]
pub enum WithdrawalError {
    /// The transaction targets an account of another client.
    InvalidClientId,
    /// The available balance does not cover the amount; carries the client id.
    InsufficientFunds(u16),
    /// The account is frozen by an earlier chargeback; carries the client id.
    FrozenAccount(u16),
    /// The transaction is not a withdrawal; carries the transaction id.
    InvalidTransactionType(u32),
    /// The updated balance would leave the representable range; carries the
    /// transaction id.
    AmountOverflow(u32),
}

/// Why a dispute was refused.
#[derive(Debug, Clone, Copy, PartialEq, Eq, Structural)]
pub enum DisputeError {
    /// The disputed transaction belongs to another client.
    InvalidClientId,
    /// The event is not a dispute; carries the transaction id.
    InvalidEventType(u32),
    /// The updated balance would leave the representable range; carries the
    /// transaction id.
    AmountOverflow(u32),
}

/// Why a resolve was refused.
#[derive(Debug, Clone, Copy, PartialEq, Eq, Structural)]
pub enum ResolveError {
    /// The resolved transaction belongs to another client.
    InvalidClientId,
    /// The event is not a resolve; carries the transaction id.
    InvalidEventType(u32),
    /// The updated balance would leave the representable range; carries the
    /// transaction id.
    AmountOverflow(u32),
}

/// Why a chargeback was refused.
#[derive(Debug, Clone, Copy, PartialEq, Eq, Structural)]
pub enum ChargebackError {
    /// The charged-back transaction belongs to another client.
    InvalidClientId,
    /// The event is not a chargeback; carries the transaction id.
    InvalidEventType(u32),
    /// The updated balance would leave the representable range; carries the
    /// transaction id.
    AmountOverflow(u32),
}

/// Any error that aborts a run, from validation or from replay.
#[derive(Debug, PartialEq)]
pub enum EngineError {
    Format(FormatError),
    Deposit(DepositError),
    Withdrawal(WithdrawalError),
    Dispute(DisputeError),
    Resolve(ResolveError),
    Chargeback(ChargebackError),
}

impl EngineError {
    /// The message shown to the user for this error.
    pub fn message(&self) -> (r: String)
        ensures
            r@ == self.spec_message(),
    {
        let mut out = String::new();
        match self {
            EngineError::Format(e) => {
                return e.message();
            },
            EngineError::Deposit(e) => {
                match e {
                    DepositError::InvalidClientId => {
                        out.append("Can't deposit transaction: invalid client id");
                    },
                    DepositError::FrozenAccount(client) => {
                        out.append("Can't deposit transaction: account is frozen for client id ");
                        append_decimal(&mut out, *client as u32);
                    },
                    DepositError::InvalidTransactionType(tx) => {
                        out.append("Can't deposit transaction: invalid transaction type for transaction id ");
                        append_decimal(&mut out, *tx);
                    },
                    DepositError::AmountOverflow(tx) => {
                        out.append("Can't deposit transaction: amount out of range for transaction id ");
                        append_decimal(&mut out, *tx);
                    },
                }
            },
            EngineError::Withdrawal(e) => {
                match e {
                    WithdrawalError::InvalidClientId => {
                        out.append("Can't withdraw transaction: invalid client id");
                    },
                    WithdrawalError::InsufficientFunds(client) => {
                        out.append("Can't withdraw transaction: insufficient funds for client id ");
                        append_decimal(&mut out, *client as u32);
                    },
                    WithdrawalError::FrozenAccount(client) => {
                        out.append("Can't withdraw transaction: account is frozen for client id ");
                        append_decimal(&mut out, *client as u32);
                    },
                    WithdrawalError::InvalidTransactionType(tx) => {
                        out.append("Can't withdraw transaction: invalid transaction type for transaction id ");
                        append_decimal(&mut out, *tx);
                    },
                    WithdrawalError::AmountOverflow(tx) => {
                        out.append("Can't withdraw transaction: amount out of range for transaction id ");
                        append_decimal(&mut out, *tx);
                    },
                }
            },
            EngineError::Dispute(e) => {
                match e {
                    DisputeError::InvalidClientId => {
                        out.append("Can't dispute transaction: invalid client id");
                    },
                    DisputeError::InvalidEventType(tx) => {
                        out.append("Can't dispute transaction: invalid event type for transaction id ");
                        append_decimal(&mut out, *tx);
                    },
                    DisputeError::AmountOverflow(tx) => {
                        out.append("Can't dispute transaction: amount out of range for transaction id ");
                        append_decimal(&mut out, *tx);
                    },
                }
            },
            EngineError::Resolve(e) => {
                match e {
                    ResolveError::InvalidClientId => {
                        out.append("Can't resolve transaction: invalid client id");
                    },
                    ResolveError::InvalidEventType(tx) => {
                        out.append("Can't resolve transaction: invalid event type for transaction id ");
                        append_decimal(&mut out, *tx);
                    },
                    ResolveError::AmountOverflow(tx) => {
                        out.append("Can't resolve transaction: amount out of range for transaction id ");
                        append_decimal(&mut out, *tx);
                    },
                }
            },
            EngineError::Chargeback(e) => {
                match e {
                    ChargebackError::InvalidClientId => {
                        out.append("Can't chargeback transaction: invalid client id");
                    },
                    ChargebackError::InvalidEventType(tx) => {
                        out.append("Can't chargeback transaction: invalid event type for transaction id ");
                        append_decimal(&mut out, *tx);
                    },
                    ChargebackError::AmountOverflow(tx) => {
                        out.append("Can't chargeback transaction: amount out of range for transaction id ");
                        append_decimal(&mut out, *tx);
                    },
                }
            },
        }
        out
    }

    /// The characters of [`EngineError::message`].
    pub open spec fn spec_message(self) -> Seq<char> {
        match self {
            EngineError::Format(e) => e.spec_message(),
            EngineError::Deposit(e) => match e {
                DepositError::InvalidClientId => "Can't deposit transaction: invalid client id"@,
                DepositError::FrozenAccount(client) => "Can't deposit transaction: account is frozen for client id "@
                    + spec_decimal(client as int),
                DepositError::InvalidTransactionType(tx) => "Can't deposit transaction: invalid transaction type for transaction id "@
                    + spec_decimal(tx as int),
                DepositError::AmountOverflow(tx) => "Can't deposit transaction: amount out of range for transaction id "@
                    + spec_decimal(tx as int),
            },
            EngineError::Withdrawal(e) => match e {
                WithdrawalError::InvalidClientId => "Can't withdraw transaction: invalid client id"@,
                WithdrawalError::InsufficientFunds(client) => "Can't withdraw transaction: insufficient funds for client id "@
                    + spec_decimal(client as int),
                WithdrawalError::FrozenAccount(client) => "Can't withdraw transaction: account is frozen for client id "@
                    + spec_decimal(client as int),
                WithdrawalError::InvalidTransactionType(tx) => "Can't withdraw transaction: invalid transaction type for transaction id "@
                    + spec_decimal(tx as int),
                WithdrawalError::AmountOverflow(tx) => "Can't withdraw transaction: amount out of range for transaction id "@
                    + spec_decimal(tx as int),
            },
            EngineError::Dispute(e) => match e {
                DisputeError::InvalidClientId => "Can't dispute transaction: invalid client id"@,
                DisputeError::InvalidEventType(tx) => "Can't dispute transaction: invalid event type for transaction id "@
                    + spec_decimal(tx as int),
                DisputeError::AmountOverflow(tx) => "Can't dispute transaction: amount out of range for transaction id "@
                    + spec_decimal(tx as int),
            },
            EngineError::Resolve(e) => match e {
                ResolveError::InvalidClientId => "Can't resolve transaction: invalid client id"@,
                ResolveError::InvalidEventType(tx) => "Can't resolve transaction: invalid event type for transaction id "@
                    + spec_decimal(tx as int),
                ResolveError::AmountOverflow(tx) => "Can't resolve transaction: amount out of range for transaction id "@
                    + spec_decimal(tx as int),
            },
            EngineError::Chargeback(e) => match e {
                ChargebackError::InvalidClientId => "Can't chargeback transaction: invalid client id"@,
                ChargebackError::InvalidEventType(tx) => "Can't chargeback transaction: invalid event type for transaction id "@
                    + spec_decimal(tx as int),
                ChargebackError::AmountOverflow(tx) => "Can't chargeback transaction: amount out of range for transaction id "@
                    + spec_decimal(tx as int),
            },
        }
    }
}

} // verus!
