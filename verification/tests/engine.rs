use std::collections::HashMap;

use payment_engine::account::Account;
use payment_engine::payment_engine::{postprocess, preprocess, process_events, process_transactions};
use payment_engine::records::{RawAccount, RawAmount, RawTransaction};
use payment_engine::transaction::{
    EventType, Transaction, TransactionStatus, TransactionType,
};

#[test]
fn test_preprocess() {
    let raw_transactions: Vec<RawTransaction> = vec![
        RawTransaction::new(String::from("deposit"), 1, 1, RawAmount::Value(10000)),
        RawTransaction::new(String::from("deposit"), 2, 2, RawAmount::Value(20000)),
        RawTransaction::new(String::from("deposit"), 1, 3, RawAmount::Value(20000)),
        RawTransaction::new(String::from("withdrawal"), 1, 4, RawAmount::Value(15000)),
        RawTransaction::new(String::from("dispute"), 1, 4, RawAmount::Missing),
        RawTransaction::new(String::from("chargeback"), 1, 4, RawAmount::Missing),
        RawTransaction::new(String::from("withdrawal"), 2, 5, RawAmount::Value(20000)),
    ];

    let res = preprocess(raw_transactions);
    assert!(res.is_ok());

    let (transaction_history, transactions) = res.unwrap();
    assert_eq!(transaction_history, vec![1, 2, 3, 4, 5]);

    let target = vec![
        Transaction::new(TransactionType::Deposit, 1, 1, 10000),
        Transaction::new(TransactionType::Deposit, 2, 2, 20000),
        Transaction::new(TransactionType::Deposit, 1, 3, 20000),
        Transaction::with_events(
            TransactionType::Withdrawal,
            1,
            4,
            15000,
            vec![EventType::Dispute, EventType::Chargeback],
        ),
        Transaction::new(TransactionType::Withdrawal, 2, 5, 20000),
    ];

    for transaction_id in transaction_history {
        assert_eq!(
            transactions.get(&transaction_id).unwrap(),
            target
                .iter()
                .find(|el| el.transaction_id == transaction_id)
                .unwrap()
        );
    }
}

#[test]
fn test_preprocess_ignores_unknown_and_cross_client_events() {
    let raw_transactions: Vec<RawTransaction> = vec![
        RawTransaction::new(String::from("deposit"), 1, 1, RawAmount::Value(10000)),
        // References a transaction id nobody created.
        RawTransaction::new(String::from("dispute"), 1, 99, RawAmount::Missing),
        // References transaction 1, but from another client.
        RawTransaction::new(String::from("dispute"), 2, 1, RawAmount::Missing),
    ];

    let (transaction_history, transactions) = preprocess(raw_transactions).unwrap();
    assert_eq!(transaction_history, vec![1]);
    assert_eq!(
        transactions.get(&1).unwrap(),
        &Transaction::new(TransactionType::Deposit, 1, 1, 10000)
    );
}

#[test]
fn test_preprocess_duplicate_transaction_id() {
    let raw_transactions: Vec<RawTransaction> = vec![
        RawTransaction::new(String::from("deposit"), 1, 1, RawAmount::Value(10000)),
        RawTransaction::new(String::from("deposit"), 2, 1, RawAmount::Value(20000)),
    ];

    let err = preprocess(raw_transactions).unwrap_err();
    assert_eq!(
        err.message(),
        "Unexpected format: transaction id 1 is not unique"
    );
}

#[test]
fn test_process_transactions() {
    let raw_transactions: Vec<RawTransaction> = vec![
        RawTransaction::new(String::from("deposit"), 1, 1, RawAmount::Value(10000)),
        RawTransaction::new(String::from("deposit"), 2, 2, RawAmount::Value(20000)),
        RawTransaction::new(String::from("deposit"), 1, 3, RawAmount::Value(20000)),
        RawTransaction::new(String::from("withdrawal"), 1, 4, RawAmount::Value(15000)),
        RawTransaction::new(String::from("withdrawal"), 2, 5, RawAmount::Value(20000)),
    ];
    let (transaction_history, mut transactions) = preprocess(raw_transactions).unwrap();

    let res = process_transactions(&transaction_history, &mut transactions);
    assert!(res.is_ok());

    let accounts = res.unwrap();
    assert!(accounts.get(&1).is_some());
    assert!(accounts.get(&2).is_some());

    assert_eq!(
        accounts.get(&1).unwrap(),
        &Account {
            client_id: 1,
            available_amount: 15000,
            held_amount: 0,
            total_amount: 15000,
            is_locked: false
        }
    );
    assert_eq!(
        accounts.get(&2).unwrap(),
        &Account {
            client_id: 2,
            available_amount: 0,
            held_amount: 0,
            total_amount: 0,
            is_locked: false
        }
    );
}

#[test]
fn test_process_transactions_and_events() {
    let raw_transactions: Vec<RawTransaction> = vec![
        RawTransaction::new(String::from("deposit"), 1, 1, RawAmount::Value(10000)),
        RawTransaction::new(String::from("deposit"), 2, 2, RawAmount::Value(20000)),
        RawTransaction::new(String::from("deposit"), 1, 3, RawAmount::Value(20000)),
        RawTransaction::new(String::from("withdrawal"), 1, 4, RawAmount::Value(15000)),
        RawTransaction::new(String::from("dispute"), 1, 4, RawAmount::Missing),
        RawTransaction::new(String::from("chargeback"), 1, 4, RawAmount::Missing),
        RawTransaction::new(String::from("withdrawal"), 2, 5, RawAmount::Value(20000)),
    ];
    let (transaction_history, mut transactions) = preprocess(raw_transactions).unwrap();

    let res = process_transactions(&transaction_history, &mut transactions);
    assert!(res.is_ok());

    let accounts = res.unwrap();
    assert!(accounts.get(&1).is_some());
    assert!(accounts.get(&2).is_some());

    assert_eq!(
        accounts.get(&1).unwrap(),
        &Account {
            client_id: 1,
            available_amount: 30000,
            held_amount: 0,
            total_amount: 30000,
            is_locked: true
        }
    );
    assert_eq!(
        accounts.get(&2).unwrap(),
        &Account {
            client_id: 2,
            available_amount: 0,
            held_amount: 0,
            total_amount: 0,
            is_locked: false
        }
    );
}

#[test]
fn test_process_dispute_event() {
    let mut account = Account::new(1);

    let mut transaction = Transaction::new(TransactionType::Deposit, 1, 1, 10000);
    transaction.events = vec![EventType::Dispute];

    let res = process_events(&mut transaction, &mut account);
    assert!(res.is_ok());

    assert_eq!(transaction.status, TransactionStatus::Disputed);
}

#[test]
fn test_process_resolve_event() {
    let mut account = Account::new(1);

    let mut transaction = Transaction::new(TransactionType::Deposit, 1, 1, 10000);
    transaction.events = vec![EventType::Dispute, EventType::Resolve];

    let res = process_events(&mut transaction, &mut account);
    assert!(res.is_ok());

    assert_eq!(transaction.status, TransactionStatus::Resolved);
}

#[test]
fn test_process_chargeback_event() {
    let mut account = Account::new(1);

    let mut transaction = Transaction::new(TransactionType::Deposit, 1, 1, 10000);
    transaction.events = vec![EventType::Dispute, EventType::Chargeback];

    let res = process_events(&mut transaction, &mut account);
    assert!(res.is_ok());

    assert_eq!(transaction.status, TransactionStatus::Reversed);
}

#[test]
fn test_process_double_dispute_moves_amount_twice() {
    // A second dispute on a transaction already disputed is applied again:
    // the replay imposes no re-entrancy guard beyond the status checks of
    // resolve and chargeback.
    let mut account = Account::new(1);
    account
        .deposit(&Transaction::new(TransactionType::Deposit, 1, 7, 10000))
        .unwrap();

    let mut transaction = Transaction::new(TransactionType::Deposit, 1, 1, 10000);
    transaction.events = vec![EventType::Dispute, EventType::Dispute];

    let res = process_events(&mut transaction, &mut account);
    assert!(res.is_ok());
    assert_eq!(transaction.status, TransactionStatus::Disputed);
    assert_eq!(account.available_amount, -10000);
    assert_eq!(account.held_amount, 20000);
    assert_eq!(account.total_amount, 10000);
}

#[test]
fn test_postprocess() {
    let mut accounts = HashMap::new();
    accounts.insert(1, Account::new(1));
    accounts.insert(2, Account::new(2));

    let res = postprocess(accounts);
    assert!(res.is_ok());

    // The engine does not promise an order for the output records.
    let mut raw_accounts = res.unwrap();
    raw_accounts.sort_by_key(|raw_account| raw_account.client);
    assert_eq!(
        raw_accounts,
        vec![
            RawAccount::new(1, 0, 0, 0, false),
            RawAccount::new(2, 0, 0, 0, false)
        ]
    )
}

#[test]
fn test_raw_account_from_account() {
    let account = Account {
        client_id: 3,
        available_amount: 15000,
        held_amount: 5000,
        total_amount: 20000,
        is_locked: true,
    };
    assert_eq!(
        RawAccount::from(account),
        RawAccount::new(3, 15000, 5000, 20000, true)
    );
}
