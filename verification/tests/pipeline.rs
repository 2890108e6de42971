use payment_engine::errors::{EngineError, WithdrawalError};
use payment_engine::payment_engine::run;
use payment_engine::records::{RawAccount, RawAmount, RawTransaction};

fn deposit(client: u16, tx: u32, units: i64) -> RawTransaction {
    RawTransaction::new(String::from("deposit"), client, tx, RawAmount::Value(units))
}

fn withdrawal(client: u16, tx: u32, units: i64) -> RawTransaction {
    RawTransaction::new(String::from("withdrawal"), client, tx, RawAmount::Value(units))
}

fn event(tag: &str, client: u16, tx: u32) -> RawTransaction {
    RawTransaction::new(String::from(tag), client, tx, RawAmount::Missing)
}

fn account_of(raw_accounts: &[RawAccount], client: u16) -> RawAccount {
    *raw_accounts
        .iter()
        .find(|raw_account| raw_account.client == client)
        .unwrap()
}

#[test]
fn test_wrapper() {
    let records = vec![
        deposit(1, 1, 10000),
        deposit(2, 2, 20000),
        deposit(1, 3, 20000),
        withdrawal(1, 4, 15000),
        withdrawal(2, 5, 20000),
    ];
    let res = run(records);
    assert!(res.is_ok());
}

#[test]
fn test_wrapper_whitespaces() {
    // Leading and trailing whitespace is trimmed on every field at the
    // reading edge; the engine sees the bare tags.
    let records = vec![
        RawTransaction::new(
            String::from("  deposit  ".trim()),
            1,
            1,
            RawAmount::Value(10000),
        ),
        RawTransaction::new(
            String::from("\twithdrawal\t".trim()),
            1,
            2,
            RawAmount::Value(5000),
        ),
    ];
    let res = run(records);
    assert!(res.is_ok());
}

#[test]
fn test_wrapper_with_events() {
    let records = vec![
        deposit(1, 1, 10000),
        deposit(2, 2, 20000),
        deposit(1, 3, 20000),
        withdrawal(1, 4, 15000),
        event("dispute", 1, 4),
        event("chargeback", 1, 4),
        withdrawal(2, 5, 20000),
    ];
    let res = run(records);
    assert!(res.is_ok());
}

#[test]
fn test_wrapper_invalid_transaction_type() {
    let records = vec![
        deposit(1, 1, 10000),
        RawTransaction::new(String::from("unknown"), 1, 5, RawAmount::Value(10000)),
    ];
    let res = run(records);
    assert!(res.is_err());

    let err = res.unwrap_err();
    assert_eq!(
        err.message(),
        "Unexpected format: invalid transaction type 'unknown' in transaction id 5"
    );
}

#[test]
fn test_wrapper_invalid_transaction_id() {
    let records = vec![deposit(1, 1, 10000), deposit(2, 1, 20000)];
    let res = run(records);
    assert!(res.is_err());

    let err = res.unwrap_err();
    assert_eq!(
        err.message(),
        "Unexpected format: transaction id 1 is not unique"
    );
}

#[test]
fn test_wrapper_invalid_amount() {
    let records = vec![RawTransaction::new(
        String::from("deposit"),
        1,
        1,
        RawAmount::Invalid,
    )];
    let res = run(records);
    assert!(res.is_err());

    let err = res.unwrap_err();
    assert_eq!(
        err.message(),
        "Unexpected format: amount is negative, infinite or NaN for transaction id 1 and transaction type 'deposit'"
    );
}

#[test]
fn test_run_empty_input() {
    let res = run(vec![]);
    assert!(res.is_ok());
    assert_eq!(res.unwrap().len(), 0);
}

#[test]
fn test_scenario_deposits_and_withdrawals() {
    let records = vec![
        deposit(1, 1, 10000),
        deposit(2, 2, 20000),
        deposit(1, 3, 20000),
        withdrawal(1, 4, 15000),
        withdrawal(2, 5, 20000),
    ];
    let raw_accounts = run(records).unwrap();
    assert_eq!(raw_accounts.len(), 2);
    assert_eq!(account_of(&raw_accounts, 1), RawAccount::new(1, 15000, 0, 15000, false));
    assert_eq!(account_of(&raw_accounts, 2), RawAccount::new(2, 0, 0, 0, false));
}

#[test]
fn test_scenario_insufficient_funds() {
    let records = vec![deposit(1, 1, 10000), withdrawal(1, 4, 15000)];
    let res = run(records);
    assert!(res.is_err());

    let err = res.unwrap_err();
    assert_eq!(
        err,
        EngineError::Withdrawal(WithdrawalError::InsufficientFunds(1))
    );
    assert_eq!(
        err.message(),
        "Can't withdraw transaction: insufficient funds for client id 1"
    );
}

#[test]
fn test_scenario_dispute_holds_funds() {
    let records = vec![deposit(1, 1, 250000), event("dispute", 1, 1)];
    let raw_accounts = run(records).unwrap();
    assert_eq!(account_of(&raw_accounts, 1), RawAccount::new(1, 0, 250000, 250000, false));
}

#[test]
fn test_scenario_resolve_releases_funds() {
    let records = vec![
        deposit(1, 1, 250000),
        event("dispute", 1, 1),
        event("resolve", 1, 1),
    ];
    let raw_accounts = run(records).unwrap();
    assert_eq!(account_of(&raw_accounts, 1), RawAccount::new(1, 250000, 0, 250000, false));
}

#[test]
fn test_scenario_chargeback_locks_account() {
    let records = vec![
        deposit(1, 1, 250000),
        event("dispute", 1, 1),
        event("resolve", 1, 1),
        deposit(1, 2, 100000),
        event("dispute", 1, 2),
        event("chargeback", 1, 2),
    ];
    let raw_accounts = run(records).unwrap();
    assert_eq!(account_of(&raw_accounts, 1), RawAccount::new(1, 250000, 0, 250000, true));

    // Any further deposit or withdrawal for that client aborts the run.
    let records = vec![
        deposit(1, 1, 250000),
        event("dispute", 1, 1),
        event("chargeback", 1, 1),
        deposit(1, 3, 10000),
    ];
    let res = run(records);
    assert!(res.is_err());
    let err = res.unwrap_err();
    assert_eq!(
        err.message(),
        "Can't deposit transaction: account is frozen for client id 1"
    );
}

#[test]
fn test_scenario_unknown_dispute_ignored() {
    let records = vec![deposit(1, 1, 10000), event("dispute", 1, 99)];
    let res = run(records);
    assert!(res.is_ok());

    let raw_accounts = res.unwrap();
    assert_eq!(raw_accounts.len(), 1);
    assert_eq!(account_of(&raw_accounts, 1), RawAccount::new(1, 10000, 0, 10000, false));
}

#[test]
fn test_scenario_cross_client_event_ignored() {
    let records = vec![deposit(1, 1, 10000), event("dispute", 2, 1)];
    let raw_accounts = run(records).unwrap();
    assert_eq!(raw_accounts.len(), 1);
    assert_eq!(account_of(&raw_accounts, 1), RawAccount::new(1, 10000, 0, 10000, false));
}

#[test]
fn test_scenario_resolve_without_dispute_ignored() {
    let records = vec![
        deposit(1, 1, 10000),
        event("resolve", 1, 1),
        event("chargeback", 1, 1),
    ];
    let raw_accounts = run(records).unwrap();
    assert_eq!(account_of(&raw_accounts, 1), RawAccount::new(1, 10000, 0, 10000, false));
}

#[test]
fn test_scenario_disputed_withdrawal_holds_negative() {
    let records = vec![
        deposit(1, 1, 250000),
        withdrawal(1, 2, 150000),
        event("dispute", 1, 2),
    ];
    let raw_accounts = run(records).unwrap();
    assert_eq!(
        account_of(&raw_accounts, 1),
        RawAccount::new(1, 250000, -150000, 100000, false)
    );
}

#[test]
fn test_scenario_withdrawal_to_exact_zero_succeeds() {
    let records = vec![deposit(2, 2, 20000), withdrawal(2, 5, 20000)];
    let raw_accounts = run(records).unwrap();
    assert_eq!(account_of(&raw_accounts, 2), RawAccount::new(2, 0, 0, 0, false));
}
