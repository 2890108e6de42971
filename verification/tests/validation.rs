use payment_engine::errors::FormatError;
use payment_engine::records::{RawAmount, RawTransaction};
use payment_engine::transaction::CheckedTransaction;

#[test]
fn test_valid_transaction() {
    let raw_transaction = RawTransaction::new("deposit".to_string(), 1, 1, RawAmount::Value(250000));

    let res = CheckedTransaction::try_from_raw(&raw_transaction);
    assert!(res.is_ok());
}

#[test]
fn test_invalid_transaction_type() {
    let raw_transaction = RawTransaction::new("unknown".to_string(), 1, 1, RawAmount::Value(250000));

    let res = CheckedTransaction::try_from_raw(&raw_transaction);
    assert!(res.is_err());

    let err = res.unwrap_err();
    assert_eq!(
        err,
        FormatError::InvalidTransactionType("unknown".to_string(), 1)
    );
}

#[test]
fn test_missing_amount() {
    let raw_transaction = RawTransaction::new("deposit".to_string(), 1, 1, RawAmount::Missing);

    let res = CheckedTransaction::try_from_raw(&raw_transaction);
    assert!(res.is_err());

    let err = res.unwrap_err();
    assert_eq!(err, FormatError::MissingAmount(1, "deposit".to_string()));
}

#[test]
fn test_unexpected_amount() {
    let raw_transaction = RawTransaction::new("dispute".to_string(), 1, 1, RawAmount::Value(250000));

    let res = CheckedTransaction::try_from_raw(&raw_transaction);
    assert!(res.is_err());

    let err = res.unwrap_err();
    assert_eq!(err, FormatError::UnexpectedAmount(1, "dispute".to_string()));
}

#[test]
fn test_infinity_amount() {
    // An infinite amount reaches the validator as `RawAmount::Invalid`.
    let raw_transaction = RawTransaction::new("deposit".to_string(), 1, 1, RawAmount::Invalid);

    let res = CheckedTransaction::try_from_raw(&raw_transaction);
    assert!(res.is_err());

    let err = res.unwrap_err();
    assert_eq!(err, FormatError::InvalidAmount(1, "deposit".to_string()));
}

#[test]
fn test_nan_amount() {
    // An amount that is not a number reaches the validator as `RawAmount::Invalid`.
    let raw_transaction = RawTransaction::new("deposit".to_string(), 1, 1, RawAmount::Invalid);

    let res = CheckedTransaction::try_from_raw(&raw_transaction);
    assert!(res.is_err());

    let err = res.unwrap_err();
    assert_eq!(err, FormatError::InvalidAmount(1, "deposit".to_string()));
}

#[test]
fn test_neg_infinity_amount() {
    // A negatively infinite amount reaches the validator as `RawAmount::Invalid`.
    let raw_transaction = RawTransaction::new("deposit".to_string(), 1, 1, RawAmount::Invalid);

    let res = CheckedTransaction::try_from_raw(&raw_transaction);
    assert!(res.is_err());

    let err = res.unwrap_err();
    assert_eq!(err, FormatError::InvalidAmount(1, "deposit".to_string()));
}

#[test]
fn test_negative_amount() {
    let raw_transaction =
        RawTransaction::new("deposit".to_string(), 1, 1, RawAmount::Value(-250000));

    let res = CheckedTransaction::try_from_raw(&raw_transaction);
    assert!(res.is_err());

    let err = res.unwrap_err();
    assert_eq!(err, FormatError::InvalidAmount(1, "deposit".to_string()));
}

#[test]
fn test_withdrawal_missing_amount() {
    let raw_transaction = RawTransaction::new("withdrawal".to_string(), 3, 9, RawAmount::Missing);

    let err = CheckedTransaction::try_from_raw(&raw_transaction).unwrap_err();
    assert_eq!(err, FormatError::MissingAmount(9, "withdrawal".to_string()));
}

#[test]
fn test_resolve_with_amount_rejected() {
    let raw_transaction = RawTransaction::new("resolve".to_string(), 1, 2, RawAmount::Value(10000));

    let err = CheckedTransaction::try_from_raw(&raw_transaction).unwrap_err();
    assert_eq!(err, FormatError::UnexpectedAmount(2, "resolve".to_string()));
}

#[test]
fn test_chargeback_with_amount_rejected() {
    let raw_transaction =
        RawTransaction::new("chargeback".to_string(), 1, 2, RawAmount::Invalid);

    let err = CheckedTransaction::try_from_raw(&raw_transaction).unwrap_err();
    assert_eq!(err, FormatError::UnexpectedAmount(2, "chargeback".to_string()));
}

#[test]
fn test_type_tags_are_case_sensitive() {
    let raw_transaction =
        RawTransaction::new("Deposit".to_string(), 1, 1, RawAmount::Value(250000));

    let err = CheckedTransaction::try_from_raw(&raw_transaction).unwrap_err();
    assert_eq!(
        err,
        FormatError::InvalidTransactionType("Deposit".to_string(), 1)
    );
}
